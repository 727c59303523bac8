//! Names of the tasks the plans hand to the executor.
use vstd::prelude::*;

verus! {

/// Identifies one task: the command it belongs to, its own name and the host
/// it runs for.
#[derive(Debug)]
pub struct TaskId {
    pub cmd: String,
    pub task: String,
    pub host: String,
}

pub struct TaskIdView {
    pub cmd: Seq<char>,
    pub task: Seq<char>,
    pub host: Seq<char>,
}

impl View for TaskId {
    type V = TaskIdView;

    open spec fn view(&self) -> TaskIdView {
        TaskIdView { cmd: self.cmd@, task: self.task@, host: self.host@ }
    }
}

impl TaskId {
    pub fn new(cmd: &str, task: &str, host: &str) -> (r: TaskId)
        ensures
            r@ == (TaskIdView { cmd: cmd@, task: task@, host: host@ }),
    {
        TaskId { cmd: String::from_str(cmd), task: String::from_str(task), host: String::from_str(host) }
    }
}


/// The cluster subcommand a task was built for.
#[derive(Debug)]
pub enum SubCommand {
    Start,
    Stop { force: bool },
    Status,
    Launch,
    Install,
    Remove,
    /// Any other subcommand, by name.
    Other(String),
}

pub open spec fn spec_command_name(c: SubCommand) -> Seq<char> {
    match c {
        SubCommand::Start => "start"@,
        SubCommand::Stop { .. } => "stop"@,
        SubCommand::Status => "status"@,
        SubCommand::Launch => "launch"@,
        SubCommand::Install => "install"@,
        SubCommand::Remove => "remove"@,
        SubCommand::Other(n) => n@,
    }
}

impl SubCommand {
    /// The name the subcommand is given on the command line.
    pub fn name(&self) -> (r: &str)
        ensures
            r@ == spec_command_name(*self),
    {
        match self {
            SubCommand::Start => "start",
            SubCommand::Stop { .. } => "stop",
            SubCommand::Status => "status",
            SubCommand::Launch => "launch",
            SubCommand::Install => "install",
            SubCommand::Remove => "remove",
            SubCommand::Other(n) => n.as_str(),
        }
    }
}


/// A value a task reports under a key.
pub enum TaskArgValue {
    Str(String),
    Number(i32),
}

pub enum ArgView {
    Str(Seq<char>),
    Number(i32),
}

impl View for TaskArgValue {
    type V = ArgView;

    open spec fn view(&self) -> ArgView {
        match self {
            TaskArgValue::Str(s) => ArgView::Str(s@),
            TaskArgValue::Number(n) => ArgView::Number(*n),
        }
    }
}

/// Decimal text of an integer, with a leading `-` when negative.
pub open spec fn int_text(n: int) -> Seq<char> {
    if n < 0 {
        "-"@ + crate::text::decimal((-n) as nat)
    } else {
        crate::text::decimal(n as nat)
    }
}

/// The text of a value.
pub open spec fn arg_text(v: ArgView) -> Seq<char> {
    match v {
        ArgView::Str(s) => s,
        ArgView::Number(n) => int_text(n as int),
    }
}

pub fn i32_text(n: i32) -> (r: String)
    ensures
        r@ == int_text(n as int),
{
    if n < 0 {
        let m: i64 = -(n as i64);
        let mut s = String::from_str("-");
        let d = crate::text::u64_to_string(m as u64);
        s.append(d.as_str());
        s
    } else {
        crate::text::u64_to_string(n as u64)
    }
}

impl TaskArgValue {
    pub fn duplicate(&self) -> (r: TaskArgValue)
        ensures
            r@ == self@,
    {
        match self {
            TaskArgValue::Str(s) => TaskArgValue::Str(s.clone()),
            TaskArgValue::Number(n) => TaskArgValue::Number(*n),
        }
    }

    /// The value as text.
    pub fn text(&self) -> (r: String)
        ensures
            r@ == arg_text(self@),
    {
        match self {
            TaskArgValue::Str(s) => s.clone(),
            TaskArgValue::Number(n) => i32_text(*n),
        }
    }
}

pub open spec fn result_views(v: Seq<(String, TaskArgValue)>) -> Seq<(Seq<char>, ArgView)> {
    v.map_values(|e: (String, TaskArgValue)| (e.0@, e.1@))
}

/// Whether two task names are the same.
pub fn same_task(a: &TaskId, b: &TaskId) -> (r: bool)
    ensures
        r == (a@ == b@),
{
    a.cmd == b.cmd && a.task == b.task && a.host == b.host
}

pub open spec fn task_views(v: Seq<TaskId>) -> Seq<TaskIdView> {
    v.map_values(|t: TaskId| t@)
}

/// The places in `ids` of the tasks `done` does not name, in order.
pub open spec fn pending_places(ids: Seq<TaskIdView>, done: Seq<TaskIdView>) -> Seq<int>
    decreases ids.len(),
{
    if ids.len() == 0 {
        Seq::empty()
    } else if done.contains(ids.last()) {
        pending_places(ids.drop_last(), done)
    } else {
        pending_places(ids.drop_last(), done).push(ids.len() - 1)
    }
}

/// The tasks still to run when the tasks `done` already succeeded: the
/// places in `ids` of the others, in order.
pub fn pending_tasks(ids: &Vec<TaskId>, done: &Vec<TaskId>) -> (r: Vec<usize>)
    ensures
        r@.map_values(|i: usize| i as int) == pending_places(task_views(ids@), task_views(done@)),
{
    let ghost iv = task_views(ids@);
    let ghost dv = task_views(done@);
    let mut r: Vec<usize> = Vec::new();
    let mut i: usize = 0;
    while i < ids.len()
        invariant
            i <= ids.len(),
            iv == task_views(ids@),
            dv == task_views(done@),
            r@.map_values(|i: usize| i as int) == pending_places(iv.subrange(0, i as int), dv),
        decreases ids.len() - i,
    {
        let ghost pre1 = iv.subrange(0, i + 1);
        assert(pre1.drop_last() =~= iv.subrange(0, i as int));
        assert(pre1.last() == ids@[i as int]@);
        let mut found = false;
        let mut j: usize = 0;
        while j < done.len()
            invariant
                j <= done.len(),
                i < ids.len(),
                dv == task_views(done@),
                found == dv.subrange(0, j as int).contains(ids@[i as int]@),
            decreases done.len() - j,
        {
            proof {
                let q = dv.subrange(0, j as int);
                let q1 = dv.subrange(0, j + 1);
                let x = ids@[i as int]@;
                if q.contains(x) {
                    let k = choose|k: int| 0 <= k < q.len() && q[k] == x;
                    assert(q1[k] == x);
                }
                if q1.contains(x) {
                    let k = choose|k: int| 0 <= k < q1.len() && q1[k] == x;
                    if k < j {
                        assert(q[k] == x);
                    }
                }
                assert(q1[j as int] == done@[j as int]@);
            }
            if same_task(&ids[i], &done[j]) {
                found = true;
            }
            j = j + 1;
        }
        assert(dv.subrange(0, done.len() as int) =~= dv);
        if !found {
            let ghost before = r@.map_values(|i: usize| i as int);
            r.push(i);
            assert(r@.map_values(|i: usize| i as int) =~= before.push(i as int));
        }
        i = i + 1;
    }
    assert(iv.subrange(0, ids.len() as int) =~= iv);
    r
}

} // verus!
