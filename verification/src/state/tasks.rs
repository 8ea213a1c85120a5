//! Task metadata and the compact task table injected into the prompt.
//!
//! A `.task` file holds two datums: a metadata association list and a body
//! string. The datums arrive here already read; this module interprets them,
//! works out which tasks are blocked, and renders the summary table.

use vstd::prelude::*;
use vstd::hash_map::StringHashMap;

use crate::error::{ErrorKind, ToolError};
use crate::text::{
    lines_of, split_lines,
    copy_str, decimal, from_chars, join_strings,
    join_with, pad_right, push_decimal, push_padded, push_str, str_eq, to_chars,
    has_prefix, slice_chars, starts_with_chars,
};

verus! {

/// Task metadata from the first datum of a `.task` file.
#[derive(Debug, Clone, PartialEq)]
pub struct TaskMeta {
    pub id: String,
    pub status: String,
    pub priority: String,
    pub depends_on: Vec<String>,
    pub assigned_to: Option<String>,
    /// VFS path relative to the tasks root (e.g. `"epic/login.task"`); flock
    /// tasks carry a `" (flock:name)"` suffix.
    pub path: String,
    /// First line of the body datum; empty when the body is absent or empty.
    pub summary_line: String,
}

/// The mathematical form of task metadata.
pub struct TaskView {
    pub id: Seq<char>,
    pub status: Seq<char>,
    pub priority: Seq<char>,
    pub depends_on: Seq<Seq<char>>,
    pub assigned_to: Option<Seq<char>>,
    pub path: Seq<char>,
    pub summary_line: Seq<char>,
}

/// The character sequences of a vector of strings.
pub open spec fn strings_view(v: Seq<String>) -> Seq<Seq<char>> {
    v.map_values(|s: String| s@)
}

impl View for TaskMeta {
    type V = TaskView;

    open spec fn view(&self) -> TaskView {
        TaskView {
            id: self.id@,
            status: self.status@,
            priority: self.priority@,
            depends_on: strings_view(self.depends_on@),
            assigned_to: match self.assigned_to {
                Some(a) => Some(a@),
                None => None,
            },
            path: self.path@,
            summary_line: self.summary_line@,
        }
    }
}

/// The views of a sequence of tasks.
pub open spec fn tasks_view(v: Seq<TaskMeta>) -> Seq<TaskView> {
    v.map_values(|t: TaskMeta| t@)
}

// ---------------------------------------------------------------------------
// Blocked tasks
// ---------------------------------------------------------------------------

/// Each task id's status; where ids repeat, the later task's status wins.
pub open spec fn status_map(ts: Seq<TaskView>) -> Map<Seq<char>, Seq<char>>
    decreases ts.len(),
{
    if ts.len() == 0 {
        Map::empty()
    } else {
        status_map(ts.drop_last()).insert(ts.last().id, ts.last().status)
    }
}

/// A dependency is satisfied when a task with its id has status `done`;
/// unknown ids are not.
pub open spec fn dep_done(ts: Seq<TaskView>, dep: Seq<char>) -> bool {
    status_map(ts).contains_key(dep) && status_map(ts)[dep] == "done"@
}

/// The dependencies in `deps` that are not satisfied, in order.
pub open spec fn blockers_of(ts: Seq<TaskView>, deps: Seq<Seq<char>>) -> Seq<Seq<char>> {
    deps.filter(|d: Seq<char>| !dep_done(ts, d))
}

/// The blocked tasks among `prefix` (tasks of `ts`): each id with unmet
/// dependencies, mapped to them; where ids repeat, the later blocked task
/// wins.
pub open spec fn blocked_map(ts: Seq<TaskView>, prefix: Seq<TaskView>) -> Map<
    Seq<char>,
    Seq<Seq<char>>,
>
    decreases prefix.len(),
{
    if prefix.len() == 0 {
        Map::empty()
    } else {
        let m = blocked_map(ts, prefix.drop_last());
        let b = blockers_of(ts, prefix.last().depends_on);
        if b.len() > 0 {
            m.insert(prefix.last().id, b)
        } else {
            m
        }
    }
}

/// The blocked tasks of `ts`.
pub open spec fn blocked_of(ts: Seq<TaskView>) -> Map<Seq<char>, Seq<Seq<char>>> {
    blocked_map(ts, ts)
}

/// A map held by a `StringHashMap` of string vectors, seen with its values
/// as character sequences, equals `m`.
pub open spec fn holds_map(
    h: Map<Seq<char>, Vec<String>>,
    m: Map<Seq<char>, Seq<Seq<char>>>,
) -> bool {
    &&& h.dom() == m.dom()
    &&& forall|k: Seq<char>| #[trigger] h.contains_key(k) ==> strings_view(h[k]@) == m[k]
}

/// Each id's status, as a map from id to status.
fn status_table(tasks: &[TaskMeta]) -> (r: StringHashMap<String>)
    ensures
        r@.dom() == status_map(tasks_view(tasks@)).dom(),
        forall|k: Seq<char>| #[trigger] r@.contains_key(k) ==> r@[k]@ == status_map(
            tasks_view(tasks@),
        )[k],
{
    let ghost ts = tasks_view(tasks@);
    let mut m: StringHashMap<String> = StringHashMap::new();
    let n = tasks.len();
    let mut i: usize = 0;
    while i < n
        invariant
            n == tasks@.len(),
            ts == tasks_view(tasks@),
            i <= n,
            m@.dom() =~= status_map(ts.take(i as int)).dom(),
            forall|k: Seq<char>| #[trigger] m@.contains_key(k) ==> m@[k]@ == status_map(
                ts.take(i as int),
            )[k],
        decreases n - i,
    {
        let t = &tasks[i];
        assert(ts.take(i + 1).drop_last() =~= ts.take(i as int));
        assert(ts.take(i + 1).last() == t@);
        m.insert(copy_str(t.id.as_str()), copy_str(t.status.as_str()));
        i = i + 1;
    }
    assert(ts.take(n as int) =~= ts);
    m
}

/// The dependencies of one task that are not satisfied.
fn unmet_dependencies(status: &StringHashMap<String>, deps: &Vec<String>, Ghost(ts): Ghost<
    Seq<TaskView>,
>) -> (r: Vec<String>)
    requires
        status@.dom() == status_map(ts).dom(),
        forall|k: Seq<char>| #[trigger] status@.contains_key(k) ==> status@[k]@ == status_map(ts)[k],
    ensures
        strings_view(r@) == blockers_of(ts, strings_view(deps@)),
{
    let ghost ds = strings_view(deps@);
    let mut out: Vec<String> = Vec::new();
    let n = deps.len();
    let mut i: usize = 0;
    proof {
        reveal(Seq::filter);
        assert(ds.take(0) =~= Seq::<Seq<char>>::empty());
    }
    while i < n
        invariant
            n == deps@.len(),
            ds == strings_view(deps@),
            i <= n,
            status@.dom() == status_map(ts).dom(),
            forall|k: Seq<char>| #[trigger] status@.contains_key(k) ==> status@[k]@ == status_map(
                ts,
            )[k],
            strings_view(out@) =~= blockers_of(ts, ds.take(i as int)),
        decreases n - i,
    {
        proof {
            reveal(Seq::filter);
        }
        let d = &deps[i];
        assert(ds.take(i + 1).drop_last() =~= ds.take(i as int));
        assert(ds.take(i + 1).last() == d@);
        let done = match status.get(d.as_str()) {
            Some(st) => str_eq(st.as_str(), "done"),
            None => false,
        };
        let ghost before = strings_view(out@);
        if !done {
            out.push(copy_str(d.as_str()));
            assert(strings_view(out@) =~= before.push(d@));
        }
        i = i + 1;
    }
    assert(ds.take(n as int) =~= ds);
    out
}

/// Which tasks are blocked: each task id whose dependencies are not all
/// `done` (unknown dependencies included), mapped to its unmet dependencies
/// in order. Tasks with no unmet dependency are absent.
pub fn compute_blocked(tasks: &[TaskMeta]) -> (r: StringHashMap<Vec<String>>)
    ensures
        holds_map(r@, blocked_of(tasks_view(tasks@))),
{
    let ghost ts = tasks_view(tasks@);
    let status = status_table(tasks);
    let mut blocked: StringHashMap<Vec<String>> = StringHashMap::new();
    let n = tasks.len();
    let mut i: usize = 0;
    while i < n
        invariant
            n == tasks@.len(),
            ts == tasks_view(tasks@),
            i <= n,
            status@.dom() == status_map(ts).dom(),
            forall|k: Seq<char>| #[trigger] status@.contains_key(k) ==> status@[k]@ == status_map(
                ts,
            )[k],
            holds_map(blocked@, blocked_map(ts, ts.take(i as int))),
        decreases n - i,
    {
        let t = &tasks[i];
        assert(ts.take(i + 1).drop_last() =~= ts.take(i as int));
        assert(ts.take(i + 1).last() == t@);
        if t.depends_on.len() > 0 {
            let blockers = unmet_dependencies(&status, &t.depends_on, Ghost(ts));
            if blockers.len() > 0 {
                let ghost bv = strings_view(blockers@);
                let ghost prev = blocked@;
                blocked.insert(copy_str(t.id.as_str()), blockers);
                assert(blocked@.dom() =~= blocked_map(ts, ts.take(i + 1)).dom());
                assert forall|k: Seq<char>| #[trigger] blocked@.contains_key(k) implies strings_view(
                    blocked@[k]@,
                ) == blocked_map(ts, ts.take(i + 1))[k] by {
                    if k != t@.id {
                        assert(prev.contains_key(k));
                    }
                }
            }
        } else {
            assert(blockers_of(ts, t@.depends_on) =~= Seq::<Seq<char>>::empty()) by {
                reveal(Seq::filter);
            }
        }
        i = i + 1;
    }
    assert(ts.take(n as int) =~= ts);
    blocked
}

// ---------------------------------------------------------------------------
// Summary table
// ---------------------------------------------------------------------------

/// A path as the table shows it: paths longer than 20 characters are cut to
/// their first 19 characters followed by `…`.
pub open spec fn path_display(p: Seq<char>) -> Seq<char> {
    if p.len() > 20 {
        p.take(19) + "…"@
    } else {
        p
    }
}

/// One row of the table: five left-aligned columns of widths 8, 12, 10 and
/// 20 and a last free column.
pub open spec fn row_text(
    id: Seq<char>,
    status: Seq<char>,
    priority: Seq<char>,
    path: Seq<char>,
    summary: Seq<char>,
) -> Seq<char> {
    pad_right(id, 8) + " "@ + pad_right(status, 12) + " "@ + pad_right(priority, 10) + " "@
        + pad_right(path, 20) + " "@ + summary + "\n"@
}

/// The summary column of a task: its summary line, followed by its unmet
/// dependencies when its id is blocked.
pub open spec fn task_summary(ts: Seq<TaskView>, t: TaskView) -> Seq<char> {
    if blocked_of(ts).contains_key(t.id) {
        t.summary_line + " (blocked by: "@ + join_with(blocked_of(ts)[t.id], ", "@) + ")"@
    } else {
        t.summary_line
    }
}

/// The row of one task.
pub open spec fn task_row(ts: Seq<TaskView>, t: TaskView) -> Seq<char> {
    row_text(t.id, t.status, t.priority, path_display(t.path), task_summary(ts, t))
}

/// The rows of the tasks in `prefix`, in order.
pub open spec fn task_rows(ts: Seq<TaskView>, prefix: Seq<TaskView>) -> Seq<char>
    decreases prefix.len(),
{
    if prefix.len() == 0 {
        Seq::empty()
    } else {
        task_rows(ts, prefix.drop_last()) + task_row(ts, prefix.last())
    }
}

/// The number of tasks in `prefix` whose status is `done`.
pub open spec fn done_count(prefix: Seq<TaskView>) -> nat
    decreases prefix.len(),
{
    if prefix.len() == 0 {
        0
    } else {
        done_count(prefix.drop_last()) + if prefix.last().status == "done"@ {
            1nat
        } else {
            0nat
        }
    }
}

/// The closing line: active and done counts, and the number of blocked ids
/// when there are any.
pub open spec fn footer_text(active: nat, blocked: nat, done: nat) -> Seq<char> {
    if blocked > 0 {
        "--- "@ + decimal(active) + " active ("@ + decimal(blocked) + " blocked), "@ + decimal(done)
            + " done ---\n"@
    } else {
        "--- "@ + decimal(active) + " active, "@ + decimal(done) + " done ---\n"@
    }
}

/// The task table: empty for no tasks; else a title line, a header row, one
/// row per task and the closing line of counts.
pub open spec fn summary_table(ts: Seq<TaskView>) -> Seq<char> {
    if ts.len() == 0 {
        Seq::empty()
    } else {
        "--- tasks ---\n"@ + row_text("id"@, "status"@, "priority"@, "path"@, "summary"@)
            + task_rows(ts, ts) + footer_text(
            (ts.len() - done_count(ts)) as nat,
            blocked_of(ts).len(),
            done_count(ts),
        )
    }
}

/// Appends one row of the table.
fn push_row(out: &mut String, id: &str, status: &str, priority: &str, path: &str, summary: &str)
    ensures
        final(out)@ == old(out)@ + row_text(id@, status@, priority@, path@, summary@),
{
    push_padded(out, id, 8);
    push_str(out, " ");
    push_padded(out, status, 12);
    push_str(out, " ");
    push_padded(out, priority, 10);
    push_str(out, " ");
    push_padded(out, path, 20);
    push_str(out, " ");
    push_str(out, summary);
    push_str(out, "\n");
}

/// A path as the table shows it.
fn display_path(p: &str) -> (r: String)
    ensures
        r@ == path_display(p@),
{
    let cs = to_chars(p);
    if cs.len() > 20 {
        let head = slice_chars(cs.as_slice(), 0, 19);
        let mut r = from_chars(head.as_slice());
        push_str(&mut r, "…");
        proof {
            assert(cs@.subrange(0, 19) =~= p@.take(19));
        }
        r
    } else {
        copy_str(p)
    }
}

/// Build the task table injected into the prompt: empty when there are no
/// tasks (nothing is injected); else a `--- tasks ---` title, a header row,
/// one row per task with its unmet dependencies appended to blocked ones,
/// and a closing line counting active, blocked and done tasks.
pub fn build_summary_table(tasks: &[TaskMeta]) -> (r: String)
    ensures
        r@ == summary_table(tasks_view(tasks@)),
{
    let ghost ts = tasks_view(tasks@);
    if tasks.len() == 0 {
        return String::new();
    }
    let blocked = compute_blocked(tasks);
    let mut out = copy_str("--- tasks ---\n");
    push_row(&mut out, "id", "status", "priority", "path", "summary");
    let ghost head = out@;
    let mut active: usize = 0;
    let mut done: usize = 0;
    let n = tasks.len();
    let mut i: usize = 0;
    while i < n
        invariant
            n == tasks@.len(),
            ts == tasks_view(tasks@),
            i <= n,
            holds_map(blocked@, blocked_of(ts)),
            out@ == head + task_rows(ts, ts.take(i as int)),
            done == done_count(ts.take(i as int)),
            active + done == i,
        decreases n - i,
    {
        let t = &tasks[i];
        let ghost tv = t@;
        assert(ts.take(i + 1).drop_last() =~= ts.take(i as int));
        assert(ts.take(i + 1).last() == tv);
        if str_eq(t.status.as_str(), "done") {
            done = done + 1;
        } else {
            active = active + 1;
        }
        let summary = match blocked.get(t.id.as_str()) {
            Some(blockers) => {
                let mut s = copy_str(t.summary_line.as_str());
                push_str(&mut s, " (blocked by: ");
                let joined = join_strings(blockers, ", ");
                push_str(&mut s, joined.as_str());
                push_str(&mut s, ")");
                s
            },
            None => copy_str(t.summary_line.as_str()),
        };
        assert(summary@ == task_summary(ts, tv));
        let path = display_path(t.path.as_str());
        push_row(
            &mut out,
            t.id.as_str(),
            t.status.as_str(),
            t.priority.as_str(),
            path.as_str(),
            summary.as_str(),
        );
        i = i + 1;
    }
    assert(ts.take(n as int) =~= ts);
    let blocked_count = blocked.len();
    assert(blocked@.dom() == blocked_of(ts).dom());
    push_str(&mut out, "--- ");
    push_decimal(&mut out, active as u64);
    if blocked_count > 0 {
        push_str(&mut out, " active (");
        push_decimal(&mut out, blocked_count as u64);
        push_str(&mut out, " blocked), ");
    } else {
        push_str(&mut out, " active, ");
    }
    push_decimal(&mut out, done as u64);
    push_str(&mut out, " done ---\n");
    out
}

// ---------------------------------------------------------------------------
// Task metadata from datums
// ---------------------------------------------------------------------------

/// A datum of a `.task` file, as far as the metadata reader looks into it.
#[derive(Debug)]
pub enum Sexp {
    Symbol(String),
    Str(String),
    /// A proper list `(a b ...)`.
    List(Vec<Sexp>),
    /// A dotted list `(a b ... . tail)`: its heads and its tail.
    DottedList(Vec<Sexp>, Box<Sexp>),
    /// Any other datum (numbers, booleans, characters, vectors, ...).
    Other,
}

/// The symbol a datum is, if it is one.
pub open spec fn sexp_symbol(s: Sexp) -> Option<Seq<char>> {
    match s {
        Sexp::Symbol(x) => Some(x@),
        _ => None,
    }
}

/// The string a datum is, if it is one.
pub open spec fn sexp_string(s: Sexp) -> Option<Seq<char>> {
    match s {
        Sexp::Str(x) => Some(x@),
        _ => None,
    }
}

/// An association-list entry split into its key and its values: a dotted
/// pair `(key . value)` has one value, a list `(key v1 v2 ...)` the rest;
/// anything else is not an entry.
pub open spec fn entry_parts(e: Sexp) -> Option<(Sexp, Seq<Sexp>)> {
    match e {
        Sexp::DottedList(heads, tail) => if heads@.len() == 1 {
            Some((heads@[0], seq![*tail]))
        } else {
            None
        },
        Sexp::List(items) => if items@.len() >= 2 {
            Some((items@[0], items@.skip(1)))
        } else {
            None
        },
        _ => None,
    }
}

/// The strings among `vs`, in order.
pub open spec fn strings_in(vs: Seq<Sexp>) -> Seq<Seq<char>>
    decreases vs.len(),
{
    if vs.len() == 0 {
        Seq::empty()
    } else {
        match sexp_string(vs.last()) {
            Some(x) => strings_in(vs.drop_last()).push(x),
            None => strings_in(vs.drop_last()),
        }
    }
}

/// The metadata fields gathered so far.
pub struct TaskFields {
    pub id: Seq<char>,
    pub status: Seq<char>,
    pub priority: Seq<char>,
    pub depends_on: Seq<Seq<char>>,
    pub assigned_to: Option<Seq<char>>,
}

/// The fields before any entry is read: priority defaults to `medium`.
pub open spec fn initial_fields() -> TaskFields {
    TaskFields {
        id: Seq::empty(),
        status: Seq::empty(),
        priority: "medium"@,
        depends_on: Seq::empty(),
        assigned_to: None,
    }
}

/// The fields after reading an entry with key `key` and values `vs`: `id`
/// and `assigned-to` take a string, `status` and `priority` a symbol,
/// `depends-on` every string value; other keys, and values of the wrong
/// kind, change nothing.
pub open spec fn apply_entry_key(f: TaskFields, key: Seq<char>, vs: Seq<Sexp>) -> TaskFields {
    let first = if vs.len() > 0 {
        Some(vs[0])
    } else {
        None
    };
    let first_string = match first {
        Some(v) => sexp_string(v),
        None => None,
    };
    let first_symbol = match first {
        Some(v) => sexp_symbol(v),
        None => None,
    };
    if key == "id"@ {
        match first_string {
            Some(v) => TaskFields { id: v, ..f },
            None => f,
        }
    } else if key == "status"@ {
        match first_symbol {
            Some(v) => TaskFields { status: v, ..f },
            None => f,
        }
    } else if key == "priority"@ {
        match first_symbol {
            Some(v) => TaskFields { priority: v, ..f },
            None => f,
        }
    } else if key == "assigned-to"@ {
        match first_string {
            Some(v) => TaskFields { assigned_to: Some(v), ..f },
            None => f,
        }
    } else if key == "depends-on"@ {
        TaskFields { depends_on: strings_in(vs), ..f }
    } else {
        f
    }
}

/// The fields after reading one entry; entries that are not a key with
/// values, or whose key is not a symbol, change nothing.
pub open spec fn apply_entry(f: TaskFields, e: Sexp) -> TaskFields {
    match entry_parts(e) {
        None => f,
        Some((k, vs)) => match sexp_symbol(k) {
            None => f,
            Some(key) => apply_entry_key(f, key, vs),
        },
    }
}

/// The fields after reading the entries in order.
pub open spec fn read_entries(entries: Seq<Sexp>) -> TaskFields
    decreases entries.len(),
{
    if entries.len() == 0 {
        initial_fields()
    } else {
        apply_entry(read_entries(entries.drop_last()), entries.last())
    }
}

/// The first line of a text, empty when it has none.
pub open spec fn first_line(s: Seq<char>) -> Seq<char> {
    if split_lines(s).len() > 0 {
        split_lines(s)[0]
    } else {
        Seq::empty()
    }
}

/// The task the datums of a `.task` file describe, or the message of the
/// error they give: the first datum must be a list, and it must name an id
/// and a status. The summary line is the first line of the second datum,
/// when that is a string.
pub open spec fn task_of_datums(datums: Seq<Sexp>, path: Seq<char>) -> Result<TaskView, Seq<char>> {
    if datums.len() == 0 || !(datums[0] is List) {
        Err("first datum must be a list"@)
    } else {
        let f = read_entries(datums[0]->List_0@);
        if f.id.len() == 0 {
            Err("task missing id field"@)
        } else if f.status.len() == 0 {
            Err("task missing status field"@)
        } else {
            Ok(
                TaskView {
                    id: f.id,
                    status: f.status,
                    priority: f.priority,
                    depends_on: f.depends_on,
                    assigned_to: f.assigned_to,
                    path,
                    summary_line: if datums.len() > 1 {
                        match sexp_string(datums[1]) {
                            Some(b) => first_line(b),
                            None => Seq::empty(),
                        }
                    } else {
                        Seq::empty()
                    },
                },
            )
        }
    }
}

/// The executable fields gathered so far.
struct Fields {
    id: String,
    status: String,
    priority: String,
    depends_on: Vec<String>,
    assigned_to: Option<String>,
}

/// The view of executable fields.
spec fn fields_view(f: Fields) -> TaskFields {
    TaskFields {
        id: f.id@,
        status: f.status@,
        priority: f.priority@,
        depends_on: strings_view(f.depends_on@),
        assigned_to: match f.assigned_to {
            Some(a) => Some(a@),
            None => None,
        },
    }
}

/// The strings among `vs`.
fn collect_strings(vs: &[Sexp]) -> (r: Vec<String>)
    ensures
        strings_view(r@) == strings_in(vs@),
{
    let mut out: Vec<String> = Vec::new();
    let n = vs.len();
    let mut i: usize = 0;
    while i < n
        invariant
            n == vs@.len(),
            i <= n,
            strings_view(out@) =~= strings_in(vs@.take(i as int)),
        decreases n - i,
    {
        assert(vs@.take(i + 1).drop_last() =~= vs@.take(i as int));
        let ghost before = strings_view(out@);
        match &vs[i] {
            Sexp::Str(x) => {
                out.push(copy_str(x.as_str()));
                assert(strings_view(out@) =~= before.push(x@));
            },
            _ => {},
        }
        i = i + 1;
    }
    assert(vs@.take(n as int) =~= vs@);
    out
}

/// Reads one entry with key `k` into the fields, given its values `vs`
/// through their first element and the strings among them.
fn apply_key(
    f: &mut Fields,
    k: &String,
    first: Option<&Sexp>,
    strings: Vec<String>,
    Ghost(vs): Ghost<Seq<Sexp>>,
)
    requires
        match first {
            Some(x) => vs.len() > 0 && vs[0] == *x,
            None => vs.len() == 0,
        },
        strings_view(strings@) == strings_in(vs),
    ensures
        fields_view(*final(f)) == apply_entry_key(fields_view(*old(f)), k@, vs),
{
    let first_string: Option<&String> = match first {
        Some(Sexp::Str(x)) => Some(x),
        _ => None,
    };
    let first_symbol: Option<&String> = match first {
        Some(Sexp::Symbol(x)) => Some(x),
        _ => None,
    };
    if str_eq(k.as_str(), "id") {
        if let Some(v) = first_string {
            f.id = copy_str(v.as_str());
        }
    } else if str_eq(k.as_str(), "status") {
        if let Some(v) = first_symbol {
            f.status = copy_str(v.as_str());
        }
    } else if str_eq(k.as_str(), "priority") {
        if let Some(v) = first_symbol {
            f.priority = copy_str(v.as_str());
        }
    } else if str_eq(k.as_str(), "assigned-to") {
        if let Some(v) = first_string {
            f.assigned_to = Some(copy_str(v.as_str()));
        }
    } else if str_eq(k.as_str(), "depends-on") {
        f.depends_on = strings;
    }
}

/// Reads one association-list entry into the fields.
fn apply_entry_exec(f: &mut Fields, e: &Sexp)
    ensures
        fields_view(*final(f)) == apply_entry(fields_view(*old(f)), *e),
{
    match e {
        Sexp::DottedList(heads, tail) => {
            if heads.len() != 1 {
                return;
            }
            if let Sexp::Symbol(k) = &heads[0] {
                let t: &Sexp = &**tail;
                let ghost vs = seq![*t];
                let mut strings: Vec<String> = Vec::new();
                if let Sexp::Str(x) = t {
                    strings.push(copy_str(x.as_str()));
                }
                assert(vs.drop_last() =~= Seq::<Sexp>::empty());
                assert(vs.last() == *t);
                assert(strings_in(vs.drop_last()) =~= Seq::<Seq<char>>::empty());
                assert(strings_view(strings@) =~= strings_in(vs));
                apply_key(f, k, Some(t), strings, Ghost(vs));
            }
        },
        Sexp::List(items) => {
            if items.len() < 2 {
                return;
            }
            if let Sexp::Symbol(k) = &items[0] {
                let values = slice_tail(items.as_slice());
                let strings = collect_strings(values);
                apply_key(f, k, Some(&values[0]), strings, Ghost(values@));
            }
        },
        _ => {},
    }
}

/// All but the first element of a non-empty slice.
fn slice_tail(items: &[Sexp]) -> (r: &[Sexp])
    requires
        items@.len() >= 1,
    ensures
        r@ == items@.skip(1),
{
    let (_, rest) = items.split_at(1);
    assert(rest@ =~= items@.skip(1));
    rest
}

/// The task metadata that the datums of a `.task` file describe: the first
/// datum is the metadata association list, the optional second datum the
/// body, whose first line becomes the summary line. Fails with
/// `InvalidData` when the first datum is not a list or names no id or no
/// status.
pub fn task_meta_from_datums(datums: &[Sexp], relative_path: &str) -> (r: Result<
    TaskMeta,
    ToolError,
>)
    ensures
        match r {
            Ok(t) => task_of_datums(datums@, relative_path@) == Ok::<TaskView, Seq<char>>(t@),
            Err(e) => e.kind == ErrorKind::InvalidData && task_of_datums(datums@, relative_path@)
                == Err::<TaskView, Seq<char>>(e.message@),
        },
{
    let alist = if datums.len() > 0 {
        match &datums[0] {
            Sexp::List(items) => Some(items),
            _ => None,
        }
    } else {
        None
    };
    let items = match alist {
        Some(items) => items,
        None => {
            return Err(ToolError::new(ErrorKind::InvalidData, copy_str("first datum must be a list")));
        },
    };
    let mut f = Fields {
        id: String::new(),
        status: String::new(),
        priority: copy_str("medium"),
        depends_on: Vec::new(),
        assigned_to: None,
    };
    assert(fields_view(f) == initial_fields()) by {
        assert(strings_view(f.depends_on@) =~= Seq::<Seq<char>>::empty());
    }
    let n = items.len();
    let mut i: usize = 0;
    while i < n
        invariant
            n == items@.len(),
            i <= n,
            fields_view(f) == read_entries(items@.take(i as int)),
        decreases n - i,
    {
        assert(items@.take(i + 1).drop_last() =~= items@.take(i as int));
        apply_entry_exec(&mut f, &items[i]);
        i = i + 1;
    }
    assert(items@.take(n as int) =~= items@);
    if f.id.as_str().is_empty() {
        return Err(ToolError::new(ErrorKind::InvalidData, copy_str("task missing id field")));
    }
    if f.status.as_str().is_empty() {
        return Err(ToolError::new(ErrorKind::InvalidData, copy_str("task missing status field")));
    }
    let summary_line = if datums.len() > 1 {
        match &datums[1] {
            Sexp::Str(body) => {
                let cs = to_chars(body.as_str());
                let lines = lines_of(cs.as_slice());
                if lines.len() > 0 {
                    from_chars(lines[0].as_slice())
                } else {
                    String::new()
                }
            },
            _ => String::new(),
        }
    } else {
        String::new()
    };
    Ok(
        TaskMeta {
            id: f.id,
            status: f.status,
            priority: f.priority,
            depends_on: f.depends_on,
            assigned_to: f.assigned_to,
            path: copy_str(relative_path),
            summary_line,
        },
    )
}

// ---------------------------------------------------------------------------
// Where tasks are found
// ---------------------------------------------------------------------------

/// The task directories of a context, each with what is appended to the
/// paths shown for its tasks: the context's own (`/home/<ctx>/tasks`,
/// nothing appended), then each of its flocks' (`/flocks/<flock>/tasks`,
/// ` (flock:<flock>)` appended).
pub open spec fn task_roots_of(context_name: Seq<char>, flocks: Seq<Seq<char>>) -> Seq<
    (Seq<char>, Seq<char>),
> {
    seq![("/home/"@ + context_name + "/tasks"@, Seq::<char>::empty())] + flocks.map_values(
        |f: Seq<char>| ("/flocks/"@ + f + "/tasks"@, " (flock:"@ + f + ")"@),
    )
}

/// The task directories of a context (see `task_roots_of`).
pub fn task_roots(context_name: &str, flocks: &[String]) -> (r: Vec<(String, String)>)
    ensures
        r@.map_values(|p: (String, String)| (p.0@, p.1@)) == task_roots_of(
            context_name@,
            flocks@.map_values(|f: String| f@),
        ),
{
    proof {
        reveal_strlit("");
        assert(""@ =~= Seq::<char>::empty());
    }
    let mut out: Vec<(String, String)> = Vec::new();
    let mut home = copy_str("/home/");
    push_str(&mut home, context_name);
    push_str(&mut home, "/tasks");
    out.push((home, String::new()));
    let ghost fv = flocks@.map_values(|f: String| f@);
    let n = flocks.len();
    let mut i: usize = 0;
    while i < n
        invariant
            n == flocks@.len(),
            fv == flocks@.map_values(|f: String| f@),
            i <= n,
            out@.map_values(|p: (String, String)| (p.0@, p.1@)) =~= task_roots_of(
                context_name@,
                fv.take(i as int),
            ),
        decreases n - i,
    {
        let f = flocks[i].as_str();
        let mut root = copy_str("/flocks/");
        push_str(&mut root, f);
        push_str(&mut root, "/tasks");
        let mut tag = copy_str(" (flock:");
        push_str(&mut tag, f);
        push_str(&mut tag, ")");
        let ghost before = out@.map_values(|p: (String, String)| (p.0@, p.1@));
        out.push((root, tag));
        assert(out@.map_values(|p: (String, String)| (p.0@, p.1@)) =~= before.push(
            ("/flocks/"@ + fv[i as int] + "/tasks"@, " (flock:"@ + fv[i as int] + ")"@),
        ));
        assert(fv.take(i + 1) =~= fv.take(i as int).push(fv[i as int]));
        i = i + 1;
    }
    assert(fv.take(n as int) =~= fv);
    out
}

/// `s` without the trailing `c`s.
pub open spec fn trim_end_char(s: Seq<char>, c: char) -> Seq<char>
    decreases s.len(),
{
    if s.len() > 0 && s.last() == c {
        trim_end_char(s.drop_last(), c)
    } else {
        s
    }
}

/// `s` without the leading `c`s.
pub open spec fn trim_start_char(s: Seq<char>, c: char) -> Seq<char>
    decreases s.len(),
{
    if s.len() > 0 && s[0] == c {
        trim_start_char(s.drop_first(), c)
    } else {
        s
    }
}

/// The path shown for the task file `full_path` (named `name`) found under
/// the task directory `root`: the part of the path after the root (the
/// root taken without its trailing slashes), or the name when the path
/// does not start with the root, without leading slashes, then `suffix`.
pub open spec fn task_display_path_of(
    root: Seq<char>,
    full_path: Seq<char>,
    name: Seq<char>,
    suffix: Seq<char>,
) -> Seq<char> {
    let r = trim_end_char(root, '/');
    let rel = if has_prefix(full_path, r) {
        full_path.skip(r.len() as int)
    } else {
        name
    };
    trim_start_char(rel, '/') + suffix
}

/// The path shown for a task file (see `task_display_path_of`).
pub fn task_display_path(root: &str, full_path: &str, name: &str, suffix: &str) -> (r: String)
    ensures
        r@ == task_display_path_of(root@, full_path@, name@, suffix@),
{
    let rc = to_chars(root);
    let mut end = rc.len();
    assert(rc@.take(end as int) =~= rc@);
    while end > 0 && rc[end - 1] == '/'
        invariant
            end <= rc@.len(),
            rc@ == root@,
            trim_end_char(root@, '/') == trim_end_char(rc@.take(end as int), '/'),
        decreases end,
    {
        assert(rc@.take(end as int).drop_last() =~= rc@.take(end - 1));
        end = end - 1;
    }
    let trimmed_root = slice_chars(rc.as_slice(), 0, end);
    assert(trimmed_root@ =~= rc@.take(end as int));
    assert(trim_end_char(root@, '/') == trimmed_root@);
    let fc = to_chars(full_path);
    let rel: Vec<char> = if starts_with_chars(fc.as_slice(), trimmed_root.as_slice()) {
        slice_chars(fc.as_slice(), trimmed_root.len(), fc.len())
    } else {
        to_chars(name)
    };
    let ghost relv = rel@;
    let mut start: usize = 0;
    assert(relv.skip(0) =~= relv);
    while start < rel.len() && rel[start] == '/'
        invariant
            start <= rel@.len(),
            relv == rel@,
            trim_start_char(relv, '/') == trim_start_char(relv.skip(start as int), '/'),
        decreases rel@.len() - start,
    {
        assert(relv.skip(start as int).drop_first() =~= relv.skip(start + 1));
        start = start + 1;
    }
    let kept = slice_chars(rel.as_slice(), start, rel.len());
    assert(kept@ =~= relv.skip(start as int));
    let mut out = from_chars(kept.as_slice());
    push_str(&mut out, suffix);
    out
}

} // verus!
