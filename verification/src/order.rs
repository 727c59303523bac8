//! Stages picked, in order, from a fixed sequence: what is picked keeps the
//! order of the sequence.
use vstd::prelude::*;

verus! {

/// The elements of `s` that `keep` holds of, in order.
pub open spec fn select<T>(s: Seq<T>, keep: spec_fn(T) -> bool) -> Seq<T>
    decreases s.len(),
{
    if s.len() == 0 {
        Seq::empty()
    } else if keep(s.last()) {
        select(s.drop_last(), keep).push(s.last())
    } else {
        select(s.drop_last(), keep)
    }
}

/// Whether the elements of `s` come in strictly increasing `place`.
pub open spec fn ordered_by<T>(s: Seq<T>, place: spec_fn(T) -> int) -> bool {
    forall|i: int, j: int| 0 <= i < j < s.len() ==> place(#[trigger] s[i]) < place(#[trigger] s[j])
}

pub proof fn lemma_select_contains<T>(s: Seq<T>, keep: spec_fn(T) -> bool, x: T)
    ensures
        select(s, keep).contains(x) <==> (s.contains(x) && keep(x)),
    decreases s.len(),
{
    if s.len() > 0 {
        let p = s.drop_last();
        lemma_select_contains(p, keep, x);
        let q = select(p, keep);
        if s.contains(x) && !p.contains(x) {
            let k = choose|k: int| 0 <= k < s.len() && s[k] == x;
            if k < p.len() {
                assert(p[k] == x);
            }
        }
        if p.contains(x) {
            let k = choose|k: int| 0 <= k < p.len() && p[k] == x;
            assert(s[k] == x);
        }
        assert(s[s.len() - 1] == s.last());
        if keep(s.last()) {
            let q1 = q.push(s.last());
            if q1.contains(x) {
                let k = choose|k: int| 0 <= k < q1.len() && q1[k] == x;
                if k < q.len() {
                    assert(q[k] == x);
                }
            }
            if q.contains(x) {
                let k = choose|k: int| 0 <= k < q.len() && q[k] == x;
                assert(q1[k] == x);
            }
            assert(q1[q.len() as int] == s.last());
        }
    }
}

pub proof fn lemma_select_ordered<T>(s: Seq<T>, keep: spec_fn(T) -> bool, place: spec_fn(T) -> int)
    requires
        ordered_by(s, place),
    ensures
        ordered_by(select(s, keep), place),
    decreases s.len(),
{
    if s.len() > 0 {
        let p = s.drop_last();
        assert(ordered_by(p, place)) by {
            assert forall|i: int, j: int| 0 <= i < j < p.len() implies place(#[trigger] p[i]) < place(#[trigger] p[j]) by {
                assert(p[i] == s[i]);
                assert(p[j] == s[j]);
            }
        }
        lemma_select_ordered(p, keep, place);
        if keep(s.last()) {
            let q = select(p, keep);
            let q1 = q.push(s.last());
            assert forall|i: int, j: int| 0 <= i < j < q1.len() implies place(#[trigger] q1[i]) < place(#[trigger] q1[j]) by {
                if j < q.len() {
                    assert(q1[i] == q[i]);
                    assert(q1[j] == q[j]);
                } else {
                    assert(q1[j] == s.last());
                    assert(q1[i] == q[i]);
                    lemma_select_contains(p, keep, q[i]);
                    assert(q.contains(q[i]));
                    let k = choose|k: int| 0 <= k < p.len() && p[k] == q[i];
                    assert(s[k] == p[k]);
                    assert(s[s.len() - 1] == s.last());
                }
            }
        }
    }
}

/// Elements of a sequence ordered by a place are distinct, and one with a
/// smaller place comes first.
pub proof fn lemma_ordered_facts<T>(s: Seq<T>, place: spec_fn(T) -> int)
    requires
        ordered_by(s, place),
    ensures
        s.no_duplicates(),
        forall|i: int, j: int| 0 <= i < s.len() && 0 <= j < s.len() && place(s[i]) < place(s[j]) ==> i < j,
{
    assert forall|i: int, j: int| 0 <= i < s.len() && 0 <= j < s.len() && i != j implies s[i] != s[j] by {
        if i < j {
            assert(place(s[i]) < place(s[j]));
        } else {
            assert(place(s[j]) < place(s[i]));
        }
    }
    assert forall|i: int, j: int| 0 <= i < s.len() && 0 <= j < s.len() && place(s[i]) < place(s[j]) implies i < j by {
        if j < i {
            assert(place(s[j]) < place(s[i]));
        }
    }
}

} // verus!
