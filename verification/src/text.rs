//! Character-level text utilities with exact specifications: decimal
//! rendering, `u16` parsing, splitting, trimming and line handling.
use vstd::prelude::*;

verus! {

/// The ASCII digit character for `d` (which must be below ten).
pub open spec fn digit_char(d: nat) -> char {
    if d == 0 { '0' }
    else if d == 1 { '1' }
    else if d == 2 { '2' }
    else if d == 3 { '3' }
    else if d == 4 { '4' }
    else if d == 5 { '5' }
    else if d == 6 { '6' }
    else if d == 7 { '7' }
    else if d == 8 { '8' }
    else { '9' }
}

/// Decimal rendering of a natural number, most significant digit first,
/// without leading zeros (zero renders as "0").
pub open spec fn decimal(n: nat) -> Seq<char>
    decreases n,
{
    if n < 10 {
        seq![digit_char(n)]
    } else {
        decimal(n / 10).push(digit_char(n % 10))
    }
}

pub open spec fn is_ascii_digit(c: char) -> bool {
    '0' <= c && c <= '9'
}

pub open spec fn digit_value(c: char) -> nat {
    (c as u32 - '0' as u32) as nat
}

/// Value of a sequence of ASCII digits read in base ten.
pub open spec fn digits_value(s: Seq<char>) -> nat
    decreases s.len(),
{
    if s.len() == 0 {
        0
    } else {
        digits_value(s.drop_last()) * 10 + digit_value(s.last())
    }
}

pub open spec fn all_digits(s: Seq<char>) -> bool {
    forall|i: int| 0 <= i < s.len() ==> is_ascii_digit(#[trigger] s[i])
}

/// What `str::parse::<u16>` returns: an optional leading `+`, then one or
/// more ASCII digits whose value fits in sixteen bits.
pub open spec fn spec_parse_u16(s: Seq<char>) -> Option<u16> {
    let body = if s.len() > 0 && s[0] == '+' { s.drop_first() } else { s };
    if body.len() > 0 && all_digits(body) && digits_value(body) <= 65535 {
        Some(digits_value(body) as u16)
    } else {
        None
    }
}

pub proof fn lemma_digits_value_prefix(s: Seq<char>, i: int)
    requires
        0 <= i <= s.len(),
        all_digits(s),
    ensures
        digits_value(s.subrange(0, i)) <= digits_value(s),
    decreases s.len() - i,
{
    if i < s.len() {
        lemma_digits_value_prefix(s, i + 1);
        let p = s.subrange(0, i + 1);
        assert(p.drop_last() =~= s.subrange(0, i));
    } else {
        assert(s.subrange(0, i) =~= s);
    }
}

/// What `str::parse::<i32>` returns: an optional leading `+` or `-`, then
/// one or more ASCII digits whose signed value fits in thirty-two bits.
pub open spec fn spec_parse_i32(s: Seq<char>) -> Option<i32> {
    let neg = s.len() > 0 && s[0] == '-';
    let body = if s.len() > 0 && (s[0] == '+' || s[0] == '-') { s.drop_first() } else { s };
    if body.len() > 0 && all_digits(body) {
        if neg && digits_value(body) <= 2147483648 {
            Some((0 - digits_value(body)) as i32)
        } else if !neg && digits_value(body) <= 2147483647 {
            Some(digits_value(body) as i32)
        } else {
            None
        }
    } else {
        None
    }
}

/// What `str::parse::<u32>` returns: an optional leading `+`, then one or
/// more ASCII digits whose value fits in thirty-two bits.
pub open spec fn spec_parse_u32(s: Seq<char>) -> Option<u32> {
    let body = if s.len() > 0 && s[0] == '+' { s.drop_first() } else { s };
    if body.len() > 0 && all_digits(body) && digits_value(body) <= 4294967295 {
        Some(digits_value(body) as u32)
    } else {
        None
    }
}

/// Renders `n` in decimal.
pub fn u64_to_string(n: u64) -> (s: String)
    ensures
        s@ == decimal(n as nat),
    decreases n,
{
    let digits = "0123456789";
    proof {
        reveal_strlit("0123456789");
    }
    if n < 10 {
        let d = digits.substring_char(n as usize, n as usize + 1);
        let s = String::from_str(d);
        assert(s@ =~= seq![digit_char(n as nat)]);
        s
    } else {
        let mut s = u64_to_string(n / 10);
        let r = (n % 10) as usize;
        let d = digits.substring_char(r, r + 1);
        s.append(d);
        assert(d@ =~= seq![digit_char((n % 10) as nat)]);
        s
    }
}

/// The characters of `s` as a vector.
pub fn to_chars(s: &str) -> (v: Vec<char>)
    ensures
        v@ == s@,
{
    let n = s.unicode_len();
    let mut v: Vec<char> = Vec::new();
    let mut i: usize = 0;
    while i < n
        invariant
            n == s@.len(),
            i <= n,
            v@ == s@.subrange(0, i as int),
        decreases n - i,
    {
        let c = s.get_char(i);
        v.push(c);
        i = i + 1;
        assert(v@ =~= s@.subrange(0, i as int));
    }
    assert(s@.subrange(0, n as int) =~= s@);
    v
}

/// Parses `s` as `str::parse::<u16>` does.
pub fn parse_u16(s: &str) -> (r: Option<u16>)
    ensures
        r == spec_parse_u16(s@),
{
    let cs = to_chars(s);
    let n = cs.len();
    let start: usize = if n > 0 && cs[0] == '+' { 1 } else { 0 };
    let ghost body = if s@.len() > 0 && s@[0] == '+' { s@.drop_first() } else { s@ };
    assert(body =~= s@.subrange(start as int, n as int));
    if start == n {
        return None;
    }
    let mut acc: u32 = 0;
    let mut i: usize = start;
    while i < n
        invariant
            cs@ == s@,
            n == cs@.len(),
            start <= i <= n,
            start < n,
            body == s@.subrange(start as int, n as int),
            body == (if s@.len() > 0 && s@[0] == '+' { s@.drop_first() } else { s@ }),
            all_digits(body.subrange(0, i - start)),
            acc == digits_value(body.subrange(0, i - start)),
            acc <= 65535,
        decreases n - i,
    {
        let c = cs[i];
        if !('0' <= c && c <= '9') {
            assert(body[i - start] == c);
            assert(!all_digits(body));
            return None;
        }
        let d = (c as u32) - ('0' as u32);
        let next = acc * 10 + d;
        let ghost p = body.subrange(0, i - start + 1);
        assert(p.drop_last() =~= body.subrange(0, i - start));
        assert(p.last() == c);
        assert(all_digits(p));
        i = i + 1;
        if next > 65535 {
            assert(digits_value(p) > 65535);
            proof {
                if all_digits(body) {
                    lemma_digits_value_prefix(body, i - start);
                }
            }
            assert(!(all_digits(body) && digits_value(body) <= 65535));
            return None;
        }
        acc = next;
    }
    assert(body.subrange(0, n - start) =~= body);
    Some(acc as u16)
}


/// The Unicode `White_Space` property, as `char::is_whitespace` documents it.
pub open spec fn is_whitespace(c: char) -> bool {
    c == '\t' || c == '\n' || c == '\u{0B}' || c == '\u{0C}' || c == '\r' || c == ' '
        || c == '\u{85}' || c == '\u{A0}' || c == '\u{1680}' || ('\u{2000}' <= c && c
        <= '\u{200A}') || c == '\u{2028}' || c == '\u{2029}' || c == '\u{202F}' || c
        == '\u{205F}' || c == '\u{3000}'
}

pub fn is_whitespace_char(c: char) -> (b: bool)
    ensures
        b == is_whitespace(c),
{
    c == '\t' || c == '\n' || c == '\u{0B}' || c == '\u{0C}' || c == '\r' || c == ' ' || c
        == '\u{85}' || c == '\u{A0}' || c == '\u{1680}' || ('\u{2000}' <= c && c <= '\u{200A}')
        || c == '\u{2028}' || c == '\u{2029}' || c == '\u{202F}' || c == '\u{205F}' || c
        == '\u{3000}'
}

/// `s` without its leading whitespace.
pub open spec fn trim_start(s: Seq<char>) -> Seq<char>
    decreases s.len(),
{
    if s.len() > 0 && is_whitespace(s[0]) {
        trim_start(s.drop_first())
    } else {
        s
    }
}

/// `s` without its trailing whitespace.
pub open spec fn trim_end(s: Seq<char>) -> Seq<char>
    decreases s.len(),
{
    if s.len() > 0 && is_whitespace(s.last()) {
        trim_end(s.drop_last())
    } else {
        s
    }
}

/// `s` without leading and trailing whitespace, as `str::trim` returns it.
pub open spec fn trim(s: Seq<char>) -> Seq<char> {
    trim_end(trim_start(s))
}

proof fn lemma_trim_start_at(s: Seq<char>, a: int)
    requires
        0 <= a <= s.len(),
        forall|i: int| 0 <= i < a ==> is_whitespace(#[trigger] s[i]),
        a == s.len() || !is_whitespace(s[a]),
    ensures
        trim_start(s) == s.subrange(a, s.len() as int),
    decreases a,
{
    if a == 0 {
        assert(s.subrange(0, s.len() as int) =~= s);
    } else {
        let t = s.drop_first();
        assert forall|i: int| 0 <= i < a - 1 implies is_whitespace(#[trigger] t[i]) by {
            assert(t[i] == s[i + 1]);
        }
        lemma_trim_start_at(t, a - 1);
        assert(t.subrange(a - 1, t.len() as int) =~= s.subrange(a, s.len() as int));
    }
}

proof fn lemma_trim_end_at(s: Seq<char>, b: int)
    requires
        0 <= b <= s.len(),
        forall|i: int| b <= i < s.len() ==> is_whitespace(#[trigger] s[i]),
        b == 0 || !is_whitespace(s[b - 1]),
    ensures
        trim_end(s) == s.subrange(0, b),
    decreases s.len() - b,
{
    if b == s.len() {
        assert(s.subrange(0, b) =~= s);
    } else {
        let t = s.drop_last();
        assert forall|i: int| b <= i < t.len() implies is_whitespace(#[trigger] t[i]) by {
            assert(t[i] == s[i]);
        }
        lemma_trim_end_at(t, b);
        assert(t.subrange(0, b) =~= s.subrange(0, b));
    }
}

/// `s` without leading and trailing whitespace (`str::trim`).
pub fn trim_str(s: &str) -> (r: String)
    ensures
        r@ == trim(s@),
{
    let cs = to_chars(s);
    let n = cs.len();
    let mut a: usize = 0;
    while a < n && is_whitespace_char(cs[a])
        invariant
            cs@ == s@,
            n == cs@.len(),
            a <= n,
            forall|i: int| 0 <= i < a ==> is_whitespace(#[trigger] s@[i]),
        decreases n - a,
    {
        a = a + 1;
    }
    proof {
        lemma_trim_start_at(s@, a as int);
    }
    let ghost t = s@.subrange(a as int, n as int);
    let mut b: usize = n;
    while b > a && is_whitespace_char(cs[b - 1])
        invariant
            cs@ == s@,
            n == cs@.len(),
            a <= b <= n,
            t == s@.subrange(a as int, n as int),
            forall|i: int| b <= i < n ==> is_whitespace(#[trigger] s@[i]),
        decreases b,
    {
        b = b - 1;
    }
    proof {
        assert forall|i: int| b - a <= i < t.len() implies is_whitespace(#[trigger] t[i]) by {
            assert(t[i] == s@[i + a]);
        }
        if b > a {
            assert(t[b - a - 1] == s@[b - 1]);
        }
        lemma_trim_end_at(t, b - a);
        assert(t.subrange(0, b - a) =~= s@.subrange(a as int, b as int));
    }
    String::from_str(s.substring_char(a, b))
}

/// The pieces of `s` between the characters for which `is_sep` holds, as
/// `str::split` yields them: empty pieces are kept, and `n` separators give
/// `n + 1` pieces.
pub open spec fn split_on(s: Seq<char>, is_sep: spec_fn(char) -> bool) -> Seq<Seq<char>>
    decreases s.len(),
{
    if s.len() == 0 {
        seq![Seq::<char>::empty()]
    } else {
        let prev = split_on(s.drop_last(), is_sep);
        if is_sep(s.last()) {
            prev.push(Seq::<char>::empty())
        } else {
            prev.update(prev.len() - 1, prev.last().push(s.last()))
        }
    }
}

pub proof fn lemma_split_on_nonempty(s: Seq<char>, is_sep: spec_fn(char) -> bool)
    ensures
        split_on(s, is_sep).len() >= 1,
    decreases s.len(),
{
    if s.len() > 0 {
        lemma_split_on_nonempty(s.drop_last(), is_sep);
    }
}

pub open spec fn char_in(seps: Seq<char>) -> spec_fn(char) -> bool {
    |x: char| seps.contains(x)
}

/// The views of a sequence of strings.
pub open spec fn views(v: Seq<String>) -> Seq<Seq<char>> {
    v.map_values(|x: String| x@)
}

/// Splits `s` at every character in `seps` (`str::split` with a set of
/// separator characters).
pub fn split_chars(s: &str, seps: &Vec<char>) -> (r: Vec<String>)
    ensures
        views(r@) == split_on(s@, char_in(seps@)),
{
    let cs = to_chars(s);
    let n = cs.len();
    let mut out: Vec<String> = Vec::new();
    let mut start: usize = 0;
    let mut i: usize = 0;
    assert(s@.subrange(0, 0) =~= Seq::<char>::empty());
    assert(views(out@).push(s@.subrange(0, 0)) =~= split_on(s@.subrange(0, 0), char_in(seps@)));
    while i < n
        invariant
            cs@ == s@,
            n == cs@.len(),
            start <= i <= n,
            views(out@).push(s@.subrange(start as int, i as int)) == split_on(
                s@.subrange(0, i as int),
                char_in(seps@),
            ),
        decreases n - i,
    {
        let c = cs[i];
        let mut is_sep = false;
        let mut k: usize = 0;
        while k < seps.len()
            invariant
                k <= seps.len(),
                is_sep == seps@.subrange(0, k as int).contains(c),
            decreases seps.len() - k,
        {
            if seps[k] == c {
                is_sep = true;
            }
            proof {
                let p = seps@.subrange(0, k + 1);
                if seps@.subrange(0, k as int).contains(c) {
                    let j = choose|j: int| 0 <= j < k && seps@.subrange(0, k as int)[j] == c;
                    assert(p[j] == c);
                }
                if p.contains(c) {
                    let j = choose|j: int| 0 <= j <= k && p[j] == c;
                    if j < k {
                        assert(seps@.subrange(0, k as int)[j] == c);
                    }
                }
                if seps[k as int] == c {
                    assert(p[k as int] == c);
                }
            }
            k = k + 1;
        }
        assert(seps@.subrange(0, seps.len() as int) =~= seps@);
        let ghost pre = s@.subrange(0, i as int);
        let ghost pre1 = s@.subrange(0, i + 1);
        assert(pre1.drop_last() =~= pre);
        assert(pre1.last() == c);
        if is_sep {
            let piece = String::from_str(s.substring_char(start, i));
            out.push(piece);
            start = i + 1;
            assert(views(out@) =~= split_on(pre, char_in(seps@)));
            assert(s@.subrange(start as int, i + 1) =~= Seq::<char>::empty());
        } else {
            let ghost prev = split_on(pre, char_in(seps@));
            assert(s@.subrange(start as int, i + 1) =~= s@.subrange(start as int, i as int).push(
                c,
            ));
            assert(views(out@).push(s@.subrange(start as int, i + 1)) =~= prev.update(
                prev.len() - 1,
                prev.last().push(c),
            ));
        }
        i = i + 1;
    }
    let last = String::from_str(s.substring_char(start, n));
    out.push(last);
    assert(s@.subrange(0, n as int) =~= s@);
    assert(views(out@) =~= split_on(s@, char_in(seps@)));
    out
}

/// The first occurrence of `c` splits `s` into the text before and after it.
pub open spec fn split_once_spec(s: Seq<char>, c: char, r: Option<(Seq<char>, Seq<char>)>) -> bool {
    match r {
        Some((a, b)) => s == a + seq![c] + b && !a.contains(c),
        None => !s.contains(c),
    }
}

/// The text before and after the first `c` in `s`, if `s` holds a `c`.
pub open spec fn split_once(s: Seq<char>, c: char) -> Option<(Seq<char>, Seq<char>)>
    decreases s.len(),
{
    if s.len() == 0 {
        None
    } else if s[0] == c {
        Some((Seq::empty(), s.drop_first()))
    } else {
        match split_once(s.drop_first(), c) {
            None => None,
            Some((a, b)) => Some((seq![s[0]] + a, b)),
        }
    }
}

proof fn lemma_split_once_at(s: Seq<char>, c: char, i: int)
    requires
        0 <= i <= s.len(),
        forall|j: int| 0 <= j < i ==> s[j] != c,
        i == s.len() || s[i] == c,
    ensures
        split_once(s, c) == (if i == s.len() {
            None
        } else {
            Some((s.subrange(0, i), s.subrange(i + 1, s.len() as int)))
        }),
    decreases i,
{
    if i > 0 {
        let t = s.drop_first();
        lemma_split_once_at(t, c, i - 1);
        if i < s.len() {
            assert(seq![s[0]] + t.subrange(0, i - 1) =~= s.subrange(0, i));
            assert(t.subrange(i, t.len() as int) =~= s.subrange(i + 1, s.len() as int));
        }
    } else if s.len() > 0 {
        assert(s.subrange(0, 0) =~= Seq::<char>::empty());
        assert(s.subrange(1, s.len() as int) =~= s.drop_first());
    }
}

pub open spec fn opt_pair_view(r: Option<(String, String)>) -> Option<(Seq<char>, Seq<char>)> {
    match r {
        Some((a, b)) => Some((a@, b@)),
        None => None,
    }
}

/// `str::split_once` with a character pattern.
pub fn split_once_char(s: &str, c: char) -> (r: Option<(String, String)>)
    ensures
        opt_pair_view(r) == split_once(s@, c),
        split_once_spec(
            s@,
            c,
            match r {
                Some((a, b)) => Some((a@, b@)),
                None => None,
            },
        ),
{
    let cs = to_chars(s);
    let n = cs.len();
    let mut i: usize = 0;
    while i < n
        invariant
            cs@ == s@,
            n == cs@.len(),
            i <= n,
            forall|j: int| 0 <= j < i ==> s@[j] != c,
        decreases n - i,
    {
        if cs[i] == c {
            let a = String::from_str(s.substring_char(0, i));
            let b = String::from_str(s.substring_char(i + 1, n));
            assert(s@ =~= a@ + seq![c] + b@);
            assert(!a@.contains(c)) by {
                if a@.contains(c) {
                    let j = choose|j: int| 0 <= j < a@.len() && a@[j] == c;
                    assert(s@[j] == c);
                }
            }
            proof {
                lemma_split_once_at(s@, c, i as int);
            }
            return Some((a, b));
        }
        i = i + 1;
    }
    assert(!s@.contains(c)) by {
        if s@.contains(c) {
            let j = choose|j: int| 0 <= j < s@.len() && s@[j] == c;
            assert(s@[j] == c);
        }
    }
    proof {
        lemma_split_once_at(s@, c, n as int);
    }
    None
}


pub open spec fn ws() -> spec_fn(char) -> bool {
    |c: char| is_whitespace(c)
}

/// The non-empty pieces of `v`, in order.
pub open spec fn nonempty_only(v: Seq<Seq<char>>) -> Seq<Seq<char>>
    decreases v.len(),
{
    if v.len() == 0 {
        Seq::empty()
    } else if v.last().len() > 0 {
        nonempty_only(v.drop_last()).push(v.last())
    } else {
        nonempty_only(v.drop_last())
    }
}

/// The words of `s` (`str::split_whitespace`): the non-empty pieces between
/// whitespace characters.
pub open spec fn split_whitespace(s: Seq<char>) -> Seq<Seq<char>> {
    nonempty_only(split_on(s, ws()))
}

proof fn lemma_nonempty_only_push(v: Seq<Seq<char>>, t: Seq<char>)
    ensures
        nonempty_only(v.push(t)) == (if t.len() > 0 {
            nonempty_only(v).push(t)
        } else {
            nonempty_only(v)
        }),
{
    assert(v.push(t).drop_last() =~= v);
}

/// Splits `s` into its words (`str::split_whitespace`).
pub fn split_whitespace_str(s: &str) -> (r: Vec<String>)
    ensures
        views(r@) == split_whitespace(s@),
{
    let cs = to_chars(s);
    let n = cs.len();
    let mut out: Vec<String> = Vec::new();
    let mut start: usize = 0;
    let mut i: usize = 0;
    proof {
        lemma_split_on_nonempty(s@.subrange(0, 0), ws());
        assert(s@.subrange(0, 0) =~= Seq::<char>::empty());
        assert(split_on(s@.subrange(0, 0), ws()).drop_last() =~= Seq::<Seq<char>>::empty());
    }
    while i < n
        invariant
            cs@ == s@,
            n == cs@.len(),
            start <= i <= n,
            split_on(s@.subrange(0, i as int), ws()).len() >= 1,
            views(out@) == nonempty_only(split_on(s@.subrange(0, i as int), ws()).drop_last()),
            split_on(s@.subrange(0, i as int), ws()).last() == s@.subrange(
                start as int,
                i as int,
            ),
        decreases n - i,
    {
        let c = cs[i];
        let ghost pre = s@.subrange(0, i as int);
        let ghost pre1 = s@.subrange(0, i + 1);
        let ghost prev = split_on(pre, ws());
        assert(pre1.drop_last() =~= pre);
        assert(pre1.last() == c);
        assert(prev =~= prev.drop_last().push(prev.last()));
        if is_whitespace_char(c) {
            proof {
                lemma_nonempty_only_push(prev.drop_last(), prev.last());
                assert(split_on(pre1, ws()) == prev.push(Seq::<char>::empty()));
                assert(prev.push(Seq::<char>::empty()).drop_last() =~= prev);
            }
            if start < i {
                let piece = String::from_str(s.substring_char(start, i));
                out.push(piece);
                assert(views(out@) =~= views(out@).drop_last().push(piece@));
            }
            start = i + 1;
            assert(s@.subrange(start as int, i + 1) =~= Seq::<char>::empty());
        } else {
            proof {
                let nxt = prev.update(prev.len() - 1, prev.last().push(c));
                assert(split_on(pre1, ws()) == nxt);
                assert(nxt.drop_last() =~= prev.drop_last());
                assert(s@.subrange(start as int, i + 1) =~= s@.subrange(
                    start as int,
                    i as int,
                ).push(c));
            }
        }
        i = i + 1;
    }
    let ghost all = split_on(s@.subrange(0, n as int), ws());
    proof {
        assert(s@.subrange(0, n as int) =~= s@);
        assert(all =~= all.drop_last().push(all.last()));
        lemma_nonempty_only_push(all.drop_last(), all.last());
    }
    if start < n {
        let piece = String::from_str(s.substring_char(start, n));
        out.push(piece);
        assert(views(out@) =~= views(out@).drop_last().push(piece@));
    }
    out
}

/// `t` without one trailing carriage return.
pub open spec fn strip_cr(t: Seq<char>) -> Seq<char> {
    if t.len() > 0 && t.last() == '\r' {
        t.drop_last()
    } else {
        t
    }
}

pub open spec fn strip_cr_fn() -> spec_fn(Seq<char>) -> Seq<char> {
    |t: Seq<char>| strip_cr(t)
}

/// The lines of `s`, as `str::lines` yields them: split at `\n`, a `\r`
/// right before a `\n` is dropped, and a final `\n` does not start an empty
/// last line.
pub open spec fn lines(s: Seq<char>) -> Seq<Seq<char>> {
    let parts = split_on(s, char_in(seq!['\n']));
    if s.len() == 0 {
        Seq::empty()
    } else if s.last() == '\n' {
        parts.drop_last().map_values(strip_cr_fn())
    } else {
        parts.drop_last().map_values(strip_cr_fn()).push(parts.last())
    }
}

fn strip_cr_string(t: &String) -> (r: String)
    ensures
        r@ == strip_cr(t@),
{
    let ts = t.as_str();
    let n = ts.unicode_len();
    if n > 0 && ts.get_char(n - 1) == '\r' {
        String::from_str(ts.substring_char(0, n - 1))
    } else {
        t.clone()
    }
}

/// Splits `s` into lines (`str::lines`).
pub fn lines_str(s: &str) -> (r: Vec<String>)
    ensures
        views(r@) == lines(s@),
{
    let seps = vec!['\n'];
    assert(seps@ =~= seq!['\n']);
    let parts = split_chars(s, &seps);
    let ghost sp = split_on(s@, char_in(seq!['\n']));
    proof {
        lemma_split_on_nonempty(s@, char_in(seq!['\n']));
    }
    let n = s.unicode_len();
    let mut out: Vec<String> = Vec::new();
    let mut i: usize = 0;
    while i + 1 < parts.len()
        invariant
            views(parts@) == sp,
            sp.len() >= 1,
            i < parts.len(),
            out@.len() == i,
            views(out@) == sp.subrange(0, i as int).map_values(strip_cr_fn()),
        decreases parts.len() - i,
    {
        let line = strip_cr_string(&parts[i]);
        let ghost old = out@;
        out.push(line);
        assert(views(parts@)[i as int] == parts@[i as int]@);
        assert(line@ == strip_cr(sp[i as int]));
        assert(out@.last() == line);
        assert forall|k: int| 0 <= k < i + 1 implies #[trigger] views(out@)[k] == sp.subrange(0, i + 1).map_values(strip_cr_fn())[k] by {
            if k < i {
                assert(views(out@)[k] == out@[k]@);
                assert(out@[k] == old[k]);
                assert(views(old)[k] == old[k]@);
                assert(views(old)[k] == sp.subrange(0, i as int).map_values(strip_cr_fn())[k]);
                assert(sp.subrange(0, i as int)[k] == sp.subrange(0, i + 1)[k]);
            } else {
                assert(views(out@)[k] == line@);
            }
        }
        assert(views(out@) =~= sp.subrange(0, i + 1).map_values(strip_cr_fn()));
        i = i + 1;
    }
    assert(sp.subrange(0, i as int) =~= sp.drop_last());
    if n == 0 {
        return Vec::new();
    }
    let last_is_nl = s.get_char(n - 1) == '\n';
    if !last_is_nl {
        let last = parts[i].clone();
        out.push(last);
        assert(sp.last() == parts[i as int]@);
        assert(views(out@) =~= sp.drop_last().map_values(strip_cr_fn()).push(
            sp.last(),
        ));
    }
    out
}

/// `t` occurs in `s` as a contiguous piece.
pub open spec fn contains_seq(s: Seq<char>, t: Seq<char>) -> bool {
    exists|i: int| 0 <= i && i + t.len() <= s.len() && #[trigger] s.subrange(i, i + t.len()) == t
}

/// `str::contains` with a string pattern.
pub fn contains_str(s: &str, t: &str) -> (b: bool)
    ensures
        b == contains_seq(s@, t@),
{
    let sc = to_chars(s);
    let tc = to_chars(t);
    let n = sc.len();
    let m = tc.len();
    if m > n {
        assert(!contains_seq(s@, t@));
        return false;
    }
    let mut i: usize = 0;
    while i <= n - m
        invariant
            sc@ == s@,
            tc@ == t@,
            n == s@.len(),
            m == t@.len(),
            m <= n,
            i <= n - m + 1,
            forall|k: int| 0 <= k < i ==> #[trigger] s@.subrange(k, k + m) != t@,
        decreases n + 1 - i - m,
    {
        let mut j: usize = 0;
        let mut ok = true;
        while j < m
            invariant
                sc@ == s@,
                tc@ == t@,
                n == s@.len(),
                m == t@.len(),
                i + m <= n,
                j <= m,
                ok == (forall|k: int| 0 <= k < j ==> s@[i + k] == t@[k]),
            decreases m - j,
        {
            if sc[i + j] != tc[j] {
                ok = false;
            }
            j = j + 1;
        }
        if ok {
            assert(s@.subrange(i as int, i + m) =~= t@);
            return true;
        }
        assert(s@.subrange(i as int, i + m) != t@) by {
            let k = choose|k: int| 0 <= k < m && s@[i + k] != t@[k];
            assert(s@.subrange(i as int, i + m)[k] == s@[i + k]);
        }
        i = i + 1;
    }
    assert(!contains_seq(s@, t@)) by {
        if contains_seq(s@, t@) {
            let k = choose|k: int|
                0 <= k && k + t@.len() <= s@.len() && #[trigger] s@.subrange(k, k + t@.len())
                    == t@;
            assert(k < i);
        }
    }
    false
}

/// `p` is a prefix of `s`.
pub open spec fn starts_with(s: Seq<char>, p: Seq<char>) -> bool {
    p.len() <= s.len() && s.subrange(0, p.len() as int) == p
}

/// `str::starts_with` with a string pattern.
pub fn starts_with_str(s: &str, p: &str) -> (b: bool)
    ensures
        b == starts_with(s@, p@),
{
    let sc = to_chars(s);
    let pc = to_chars(p);
    if pc.len() > sc.len() {
        return false;
    }
    let mut j: usize = 0;
    while j < pc.len()
        invariant
            sc@ == s@,
            pc@ == p@,
            pc@.len() <= sc@.len(),
            j <= pc@.len(),
            forall|k: int| 0 <= k < j ==> s@[k] == p@[k],
        decreases pc.len() - j,
    {
        if sc[j] != pc[j] {
            assert(s@.subrange(0, p@.len() as int)[j as int] != p@[j as int]);
            return false;
        }
        j = j + 1;
    }
    assert(s@.subrange(0, p@.len() as int) =~= p@);
    true
}

/// Whether two strings are equal.
pub fn str_eq(a: &str, b: &str) -> (r: bool)
    ensures
        r == (a@ == b@),
{
    if a.unicode_len() != b.unicode_len() {
        return false;
    }
    let r = starts_with_str(a, b);
    assert(a@.subrange(0, b@.len() as int) =~= a@);
    r
}

/// ASCII lower-casing of one character.
pub open spec fn ascii_lower(c: char) -> char {
    if 'A' <= c && c <= 'Z' {
        ((c as u32) + 32) as char
    } else {
        c
    }
}

/// `str::eq_ignore_ascii_case`.
pub open spec fn eq_ignore_ascii_case(a: Seq<char>, b: Seq<char>) -> bool {
    a.len() == b.len() && forall|i: int| 0 <= i < a.len() ==> ascii_lower(#[trigger] a[i])
        == ascii_lower(b[i])
}

fn ascii_lower_char(c: char) -> (r: char)
    ensures
        r == ascii_lower(c),
{
    if 'A' <= c && c <= 'Z' {
        let u = (c as u32) + 32;
        if u == 97 { 'a' } else if u == 98 { 'b' } else if u == 99 { 'c' } else if u == 100 { 'd' }
        else if u == 101 { 'e' } else if u == 102 { 'f' } else if u == 103 { 'g' }
        else if u == 104 { 'h' } else if u == 105 { 'i' } else if u == 106 { 'j' }
        else if u == 107 { 'k' } else if u == 108 { 'l' } else if u == 109 { 'm' }
        else if u == 110 { 'n' } else if u == 111 { 'o' } else if u == 112 { 'p' }
        else if u == 113 { 'q' } else if u == 114 { 'r' } else if u == 115 { 's' }
        else if u == 116 { 't' } else if u == 117 { 'u' } else if u == 118 { 'v' }
        else if u == 119 { 'w' } else if u == 120 { 'x' } else if u == 121 { 'y' } else { 'z' }
    } else {
        c
    }
}

/// `str::eq_ignore_ascii_case`.
pub fn eq_ignore_ascii_case_str(a: &str, b: &str) -> (r: bool)
    ensures
        r == eq_ignore_ascii_case(a@, b@),
{
    let ac = to_chars(a);
    let bc = to_chars(b);
    if ac.len() != bc.len() {
        return false;
    }
    let mut i: usize = 0;
    while i < ac.len()
        invariant
            ac@ == a@,
            bc@ == b@,
            ac@.len() == bc@.len(),
            i <= ac@.len(),
            forall|k: int| 0 <= k < i ==> ascii_lower(#[trigger] a@[k]) == ascii_lower(b@[k]),
        decreases ac.len() - i,
    {
        if ascii_lower_char(ac[i]) != ascii_lower_char(bc[i]) {
            return false;
        }
        i = i + 1;
    }
    true
}

/// The pieces of `v` joined with `sep` between consecutive pieces
/// (`[T]::join`).
pub open spec fn join(v: Seq<Seq<char>>, sep: Seq<char>) -> Seq<char>
    decreases v.len(),
{
    if v.len() == 0 {
        Seq::empty()
    } else if v.len() == 1 {
        v[0]
    } else {
        join(v.drop_last(), sep) + sep + v.last()
    }
}

/// Joins the strings of `v` with `sep` between them.
pub fn join_str(v: &Vec<String>, sep: &str) -> (r: String)
    ensures
        r@ == join(views(v@), sep@),
{
    let mut r = String::new();
    let mut i: usize = 0;
    while i < v.len()
        invariant
            i <= v.len(),
            r@ == join(views(v@).subrange(0, i as int), sep@),
        decreases v.len() - i,
    {
        let ghost pre = views(v@).subrange(0, i as int);
        let ghost pre1 = views(v@).subrange(0, i + 1);
        assert(pre1.drop_last() =~= pre);
        if i > 0 {
            r.append(sep);
        }
        r.append(v[i].as_str());
        if i == 0 {
            assert(r@ =~= pre1[0]);
        }
        i = i + 1;
    }
    assert(views(v@).subrange(0, v.len() as int) =~= views(v@));
    r
}

/// `v` with every later repetition of an earlier element removed; the first
/// occurrence of each element keeps its place.
pub open spec fn dedup(v: Seq<Seq<char>>) -> Seq<Seq<char>>
    decreases v.len(),
{
    if v.len() == 0 {
        Seq::empty()
    } else if dedup(v.drop_last()).contains(v.last()) {
        dedup(v.drop_last())
    } else {
        dedup(v.drop_last()).push(v.last())
    }
}

proof fn lemma_push_contains(s: Seq<Seq<char>>, a: Seq<char>, x: Seq<char>)
    ensures
        s.push(a).contains(x) <==> (s.contains(x) || x == a),
{
    if s.contains(x) {
        let k = choose|k: int| 0 <= k < s.len() && s[k] == x;
        assert(s.push(a)[k] == x);
    }
    if x == a {
        assert(s.push(a)[s.len() as int] == a);
    }
    if s.push(a).contains(x) {
        let k = choose|k: int| 0 <= k < s.len() + 1 && s.push(a)[k] == x;
        if k < s.len() {
            assert(s[k] == x);
        }
    }
}

pub proof fn lemma_dedup_props(v: Seq<Seq<char>>)
    ensures
        dedup(v).no_duplicates(),
        forall|x: Seq<char>| #[trigger] dedup(v).contains(x) <==> v.contains(x),
    decreases v.len(),
{
    if v.len() > 0 {
        let p = v.drop_last();
        lemma_dedup_props(p);
        assert(v =~= p.push(v.last()));
        assert forall|x: Seq<char>| #[trigger] dedup(v).contains(x) <==> v.contains(x) by {
            lemma_push_contains(p, v.last(), x);
            lemma_push_contains(dedup(p), v.last(), x);
        }
        if !dedup(p).contains(v.last()) {
            let d = dedup(p).push(v.last());
            assert forall|i: int, j: int| 0 <= i < d.len() && 0 <= j < d.len() && i != j implies d[i]
                != d[j] by {
                if i < d.len() - 1 && j < d.len() - 1 {
                    assert(d[i] == dedup(p)[i]);
                    assert(d[j] == dedup(p)[j]);
                } else if i == d.len() - 1 {
                    assert(dedup(p)[j] == d[j]);
                } else {
                    assert(dedup(p)[i] == d[i]);
                }
            }
        }
    }
}

/// `v` without repeated elements, first occurrences kept in order.
pub fn dedup_strings(v: &Vec<String>) -> (r: Vec<String>)
    ensures
        views(r@) == dedup(views(v@)),
{
    let mut r: Vec<String> = Vec::new();
    let mut i: usize = 0;
    while i < v.len()
        invariant
            i <= v.len(),
            views(r@) == dedup(views(v@).subrange(0, i as int)),
        decreases v.len() - i,
    {
        let ghost pre1 = views(v@).subrange(0, i + 1);
        assert(pre1.drop_last() =~= views(v@).subrange(0, i as int));
        let mut found = false;
        let mut j: usize = 0;
        while j < r.len()
            invariant
                j <= r.len(),
                i < v.len(),
                found == views(r@).subrange(0, j as int).contains(v[i as int]@),
            decreases r.len() - j,
        {
            proof {
                let q = views(r@).subrange(0, j as int);
                let q1 = views(r@).subrange(0, j + 1);
                if q.contains(v[i as int]@) {
                    let k = choose|k: int| 0 <= k < q.len() && q[k] == v[i as int]@;
                    assert(q1[k] == v[i as int]@);
                }
                if q1.contains(v[i as int]@) {
                    let k = choose|k: int| 0 <= k < q1.len() && q1[k] == v[i as int]@;
                    if k < j {
                        assert(q[k] == v[i as int]@);
                    }
                }
                assert(q1[j as int] == r[j as int]@);
            }
            if r[j] == v[i] {
                found = true;
            }
            j = j + 1;
        }
        assert(views(r@).subrange(0, r.len() as int) =~= views(r@));
        if !found {
            r.push(v[i].clone());
            assert(views(r@) =~= dedup(views(v@).subrange(0, i as int)).push(v[i as int]@));
        }
        i = i + 1;
    }
    assert(views(v@).subrange(0, v.len() as int) =~= views(v@));
    r
}


/// The first position at or after `i` where `p` occurs in `s`.
pub open spec fn find_from(s: Seq<char>, p: Seq<char>, i: nat) -> Option<nat>
    decreases s.len() + 1 - i,
{
    if i + p.len() > s.len() {
        None
    } else if s.subrange(i as int, (i + p.len()) as int) == p {
        Some(i)
    } else {
        find_from(s, p, i + 1)
    }
}

/// `str::find` with a string pattern: the first position where `p` occurs.
pub open spec fn find(s: Seq<char>, p: Seq<char>) -> Option<nat> {
    find_from(s, p, 0)
}

/// Whether `p` occurs in `cs` at position `i`.
fn occurs_at(cs: &Vec<char>, p: &Vec<char>, i: usize) -> (b: bool)
    requires
        i + p@.len() <= cs@.len(),
    ensures
        b == (cs@.subrange(i as int, i + p@.len()) == p@),
{
    let mut j: usize = 0;
    while j < p.len()
        invariant
            i + p@.len() <= cs@.len(),
            cs@.len() == cs.len(),
            j <= p@.len(),
            forall|k: int| 0 <= k < j ==> cs@[i + k] == p@[k],
        decreases p.len() - j,
    {
        if cs[i + j] != p[j] {
            assert(cs@.subrange(i as int, i + p@.len())[j as int] != p@[j as int]);
            return false;
        }
        j = j + 1;
    }
    assert(cs@.subrange(i as int, i + p@.len()) =~= p@);
    true
}

/// The first position where `p` occurs in `s`.
pub fn find_str(s: &str, p: &str) -> (r: Option<usize>)
    ensures
        match r {
            Some(i) => find(s@, p@) == Some(i as nat),
            None => find(s@, p@) is None,
        },
{
    let cs = to_chars(s);
    let ps = to_chars(p);
    if ps.len() > cs.len() {
        return None;
    }
    let last = cs.len() - ps.len();
    let mut i: usize = 0;
    while i < last
        invariant
            cs@ == s@,
            ps@ == p@,
            last == cs@.len() - ps@.len(),
            i <= last,
            find(s@, p@) == find_from(s@, p@, i as nat),
        decreases last - i,
    {
        if occurs_at(&cs, &ps, i) {
            return Some(i);
        }
        i = i + 1;
    }
    if occurs_at(&cs, &ps, last) {
        Some(last)
    } else {
        assert(find_from(s@, p@, (last + 1) as nat) is None);
        None
    }
}

/// Where the text starting at `i` ends: the first position at or after `i`
/// holding whitespace or one of `stops`, else the length of `s`.
pub open spec fn stop_index(s: Seq<char>, i: nat, stops: Seq<char>) -> nat
    decreases s.len() - i,
{
    if i >= s.len() {
        s.len()
    } else if is_whitespace(s[i as int]) || stops.contains(s[i as int]) {
        i
    } else {
        stop_index(s, i + 1, stops)
    }
}

/// The first position at or after `from` holding whitespace or one of
/// `stops`, else the length of `cs`.
pub fn stop_index_of(cs: &Vec<char>, from: usize, stops: &Vec<char>) -> (r: usize)
    requires
        from <= cs@.len(),
    ensures
        r as nat == stop_index(cs@, from as nat, stops@),
        from <= r <= cs@.len(),
{
    let mut i = from;
    while i < cs.len()
        invariant
            from <= i <= cs@.len(),
            stop_index(cs@, from as nat, stops@) == stop_index(cs@, i as nat, stops@),
        decreases cs.len() - i,
    {
        let c = cs[i];
        let mut hit = is_whitespace_char(c);
        let mut k: usize = 0;
        while k < stops.len()
            invariant
                k <= stops@.len(),
                hit == (is_whitespace(c) || stops@.subrange(0, k as int).contains(c)),
            decreases stops.len() - k,
        {
            proof {
                let q = stops@.subrange(0, k as int);
                let q1 = stops@.subrange(0, k + 1);
                assert(q1 =~= q.push(stops@[k as int]));
                if q.contains(c) {
                    let j = choose|j: int| 0 <= j < q.len() && q[j] == c;
                    assert(q1[j] == c);
                }
                if q1.contains(c) && stops@[k as int] != c {
                    let j = choose|j: int| 0 <= j < q1.len() && q1[j] == c;
                    assert(q[j] == c);
                }
                if stops@[k as int] == c {
                    assert(q1[k as int] == c);
                }
            }
            if stops[k] == c {
                hit = true;
            }
            k = k + 1;
        }
        assert(stops@.subrange(0, stops@.len() as int) =~= stops@);
        if hit {
            return i;
        }
        i = i + 1;
    }
    i
}

/// `str::replace`: every occurrence of `p` in `s`, from left to right and
/// without overlap, replaced by `w`.
pub open spec fn replace_all(s: Seq<char>, p: Seq<char>, w: Seq<char>) -> Seq<char>
    decreases s.len(),
{
    if p.len() == 0 || s.len() == 0 {
        s
    } else if p.len() <= s.len() && s.subrange(0, p.len() as int) == p {
        w + replace_all(s.skip(p.len() as int), p, w)
    } else {
        seq![s[0]] + replace_all(s.drop_first(), p, w)
    }
}

/// `s` with every occurrence of the non-empty pattern `p` replaced by `w`.
pub fn replace_str(s: &str, p: &str, w: &str) -> (r: String)
    requires
        p@.len() > 0,
    ensures
        r@ == replace_all(s@, p@, w@),
{
    let cs = to_chars(s);
    let ps = to_chars(p);
    let n = cs.len();
    let mut out = String::new();
    assert(out@ =~= Seq::<char>::empty());
    assert(s@.skip(0) =~= s@);
    let mut i: usize = 0;
    while i < n
        invariant
            cs@ == s@,
            ps@ == p@,
            p@.len() > 0,
            n == s@.len(),
            i <= n,
            out@ + replace_all(s@.skip(i as int), p@, w@) == replace_all(s@, p@, w@),
        decreases n - i,
    {
        let ghost rest = s@.skip(i as int);
        if ps.len() <= n - i && occurs_at(&cs, &ps, i) {
            assert(rest.subrange(0, p@.len() as int) =~= s@.subrange(i as int, i + p@.len()));
            assert(rest.skip(p@.len() as int) =~= s@.skip(i + p@.len()));
            out.append(w);
            i = i + ps.len();
        } else {
            proof {
                if p@.len() <= rest.len() {
                    assert(rest.subrange(0, p@.len() as int) =~= s@.subrange(i as int, i + p@.len()));
                }
            }
            assert(rest.drop_first() =~= s@.skip(i + 1));
            let c = s.substring_char(i, i + 1);
            assert(c@ =~= seq![rest[0]]);
            out.append(c);
            i = i + 1;
        }
    }
    assert(s@.skip(n as int) =~= Seq::<char>::empty());
    out
}


proof fn lemma_find_from_bound(s: Seq<char>, p: Seq<char>, k: nat)
    ensures
        find_from(s, p, k) matches Some(i) ==> k <= i && i + p.len() <= s.len() && s.subrange(i as int, (i + p.len()) as int) == p,
    decreases s.len() + 1 - k,
{
    if k + p.len() <= s.len() && s.subrange(k as int, (k + p.len()) as int) != p {
        lemma_find_from_bound(s, p, k + 1);
    }
}

/// Where `find` reports `p`, `p` occurs in full.
pub proof fn lemma_find_bound(s: Seq<char>, p: Seq<char>)
    ensures
        find(s, p) matches Some(i) ==> i + p.len() <= s.len() && s.subrange(i as int, (i + p.len()) as int) == p,
{
    lemma_find_from_bound(s, p, 0);
}


/// `str::split_once` with a string pattern.
pub open spec fn split_once_pat(s: Seq<char>, p: Seq<char>) -> Option<(Seq<char>, Seq<char>)> {
    match find(s, p) {
        Some(i) => Some((s.subrange(0, i as int), s.subrange((i + p.len()) as int, s.len() as int))),
        None => None,
    }
}

/// Splits `s` around the first occurrence of `p`.
pub fn split_once_str(s: &str, p: &str) -> (r: Option<(String, String)>)
    ensures
        opt_pair_view(r) == split_once_pat(s@, p@),
{
    match find_str(s, p) {
        Some(i) => {
            proof {
                lemma_find_bound(s@, p@);
            }
            let n = s.unicode_len();
            let pl = p.unicode_len();
            let a = String::from_str(s.substring_char(0, i));
            let b = String::from_str(s.substring_char(i + pl, n));
            Some((a, b))
        },
        None => None,
    }
}


/// What `str::to_lowercase` returns for `s`.
pub uninterp spec fn str_lowercase(s: Seq<char>) -> Seq<char>;

/// `str::to_lowercase`: the Unicode lower-case form of `s`, as a new
/// string. The contract only names the result: the Unicode case mapping
/// it follows is left unsaid.
#[verifier::external_body]
pub(crate) fn lowercase(s: &str) -> (r: String)
    ensures
        r@ == str_lowercase(s@),
{
    s.to_lowercase()
}


/// What `str::to_uppercase` returns for `s`.
pub uninterp spec fn str_uppercase(s: Seq<char>) -> Seq<char>;

/// `str::to_uppercase`: the Unicode upper-case form of `s`, as a new
/// string. The contract only names the result: the Unicode case mapping
/// it follows is left unsaid.
#[verifier::external_body]
pub(crate) fn uppercase(s: &str) -> (r: String)
    ensures
        r@ == str_uppercase(s@),
{
    s.to_uppercase()
}

/// Parses `s` as `str::parse::<i32>` does.
pub fn parse_i32(s: &str) -> (r: Option<i32>)
    ensures
        r == spec_parse_i32(s@),
{
    let cs = to_chars(s);
    let n = cs.len();
    let neg = n > 0 && cs[0] == '-';
    let start: usize = if n > 0 && (cs[0] == '+' || cs[0] == '-') { 1 } else { 0 };
    let ghost body = if s@.len() > 0 && (s@[0] == '+' || s@[0] == '-') { s@.drop_first() } else { s@ };
    assert(body =~= s@.subrange(start as int, n as int));
    if start == n {
        return None;
    }
    let bound: u64 = if neg { 2147483648 } else { 2147483647 };
    let mut acc: u64 = 0;
    let mut i: usize = start;
    while i < n
        invariant
            cs@ == s@,
            n == cs@.len(),
            start <= i <= n,
            start < n,
            neg == (s@.len() > 0 && s@[0] == '-'),
            bound == (if neg { 2147483648u64 } else { 2147483647u64 }),
            body == s@.subrange(start as int, n as int),
            body == (if s@.len() > 0 && (s@[0] == '+' || s@[0] == '-') { s@.drop_first() } else { s@ }),
            all_digits(body.subrange(0, i - start)),
            acc == digits_value(body.subrange(0, i - start)),
            acc <= bound,
        decreases n - i,
    {
        let c = cs[i];
        if !('0' <= c && c <= '9') {
            assert(body[i - start] == c);
            assert(!all_digits(body));
            return None;
        }
        let d = (c as u64) - ('0' as u64);
        let next = acc * 10 + d;
        let ghost p = body.subrange(0, i - start + 1);
        assert(p.drop_last() =~= body.subrange(0, i - start));
        assert(p.last() == c);
        assert(all_digits(p));
        i = i + 1;
        if next > bound {
            assert(digits_value(p) > bound);
            proof {
                if all_digits(body) {
                    lemma_digits_value_prefix(body, i - start);
                }
            }
            return None;
        }
        acc = next;
    }
    assert(body.subrange(0, n - start) =~= body);
    if neg {
        let v: i64 = 0 - (acc as i64);
        Some(v as i32)
    } else {
        Some(acc as i32)
    }
}

/// The text after the last `c` in `s`; all of `s` when it holds no `c`
/// (the last item of `str::split`).
pub open spec fn after_last(s: Seq<char>, c: char) -> Seq<char>
    decreases s.len(),
{
    if s.len() == 0 {
        Seq::empty()
    } else if s.last() == c {
        Seq::empty()
    } else {
        after_last(s.drop_last(), c).push(s.last())
    }
}

/// The last item of `s.split(c)`.
pub fn after_last_char(s: &str, c: char) -> (r: String)
    ensures
        r@ == after_last(s@, c),
{
    let cs = to_chars(s);
    let n = cs.len();
    let mut i: usize = n;
    assert(s@.subrange(0, n as int) =~= s@);
    assert(after_last(s@, c) =~= after_last(s@.subrange(0, n as int), c) + s@.subrange(n as int, n as int));
    while i > 0 && cs[i - 1] != c
        invariant
            cs@ == s@,
            n == cs@.len(),
            i <= n,
            after_last(s@, c) == after_last(s@.subrange(0, i as int), c) + s@.subrange(i as int, n as int),
            forall|j: int| i <= j < n ==> s@[j] != c,
        decreases i,
    {
        let ghost pre = s@.subrange(0, i as int);
        assert(pre.drop_last() =~= s@.subrange(0, i - 1));
        assert(pre.last() == cs@[i - 1]);
        assert(s@.subrange(i - 1, n as int) =~= seq![cs@[i - 1]] + s@.subrange(i as int, n as int));
        assert(after_last(s@.subrange(0, i - 1), c).push(cs@[i - 1]) + s@.subrange(i as int, n as int)
            =~= after_last(s@.subrange(0, i - 1), c) + s@.subrange(i - 1, n as int));
        i = i - 1;
    }
    proof {
        if i == 0 {
            assert(s@.subrange(0, 0) =~= Seq::<char>::empty());
        } else {
            assert(s@.subrange(0, i as int).last() == c);
        }
    }
    assert(after_last(s@, c) =~= s@.subrange(i as int, n as int));
    String::from_str(s.substring_char(i, n))
}

/// Parses `s` as `str::parse::<u32>` does.
pub fn parse_u32(s: &str) -> (r: Option<u32>)
    ensures
        r == spec_parse_u32(s@),
{
    let cs = to_chars(s);
    let n = cs.len();
    let start: usize = if n > 0 && cs[0] == '+' { 1 } else { 0 };
    let ghost body = if s@.len() > 0 && s@[0] == '+' { s@.drop_first() } else { s@ };
    assert(body =~= s@.subrange(start as int, n as int));
    if start == n {
        return None;
    }
    let mut acc: u64 = 0;
    let mut i: usize = start;
    while i < n
        invariant
            cs@ == s@,
            n == cs@.len(),
            start <= i <= n,
            start < n,
            body == s@.subrange(start as int, n as int),
            body == (if s@.len() > 0 && s@[0] == '+' { s@.drop_first() } else { s@ }),
            all_digits(body.subrange(0, i - start)),
            acc == digits_value(body.subrange(0, i - start)),
            acc <= 4294967295,
        decreases n - i,
    {
        let c = cs[i];
        if !('0' <= c && c <= '9') {
            assert(body[i - start] == c);
            assert(!all_digits(body));
            return None;
        }
        let d = (c as u64) - ('0' as u64);
        let next = acc * 10 + d;
        let ghost p = body.subrange(0, i - start + 1);
        assert(p.drop_last() =~= body.subrange(0, i - start));
        assert(p.last() == c);
        assert(all_digits(p));
        i = i + 1;
        if next > 4294967295 {
            assert(digits_value(p) > 4294967295);
            proof {
                if all_digits(body) {
                    lemma_digits_value_prefix(body, i - start);
                }
            }
            return None;
        }
        acc = next;
    }
    assert(body.subrange(0, n - start) =~= body);
    Some(acc as u32)
}

/// Whether `s` ends with `p`.
pub open spec fn ends_with(s: Seq<char>, p: Seq<char>) -> bool {
    p.len() <= s.len() && s.subrange(s.len() - p.len(), s.len() as int) == p
}

/// `str::ends_with` with a string pattern.
pub fn ends_with_str(s: &str, p: &str) -> (b: bool)
    ensures
        b == ends_with(s@, p@),
{
    let sc = to_chars(s);
    let pc = to_chars(p);
    if pc.len() > sc.len() {
        return false;
    }
    let n = sc.len();
    let off = n - pc.len();
    let mut j: usize = 0;
    while j < pc.len()
        invariant
            n == sc@.len(),
            sc@ == s@,
            pc@ == p@,
            pc@.len() <= sc@.len(),
            off == sc@.len() - pc@.len(),
            off + pc@.len() == sc@.len(),
            j <= pc@.len(),
            forall|k: int| 0 <= k < j ==> s@[off + k] == p@[k],
        decreases pc.len() - j,
    {
        let k: usize = off + j;
        if sc[k] != pc[j] {
            assert(s@.subrange(off as int, s@.len() as int)[j as int] != p@[j as int]);
            return false;
        }
        j = j + 1;
    }
    assert(s@.subrange(off as int, s@.len() as int) =~= p@);
    true
}

/// `s` without the suffix `p`, when it ends with it.
pub fn strip_suffix_str(s: &str, p: &str) -> (r: Option<String>)
    ensures
        ends_with(s@, p@) ==> (r matches Some(t) && t@ == s@.subrange(0, s@.len() - p@.len())),
        !ends_with(s@, p@) ==> r is None,
{
    if ends_with_str(s, p) {
        let n = s.unicode_len();
        let m = p.unicode_len();
        Some(String::from_str(s.substring_char(0, n - m)))
    } else {
        None
    }
}

} // verus!
