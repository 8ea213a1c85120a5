//! Built-in tools: their declarative definitions, the predicates that sort
//! tool names into groups, the registry that holds tools at runtime, and the
//! pure parts of the tools' execution.

pub mod agent_tools;
pub mod builtin;
pub mod coding_tools;
pub mod dir_listing;
pub mod eval;
pub mod file_tools;
pub mod flow;
pub mod fs_read;
pub mod fs_write;
pub mod hooks;
pub mod index;
pub mod mcp;
pub mod memory;
pub mod network;
pub mod registration;
pub mod registry;
pub mod schema;
pub mod shell;
pub mod vfs_tools;

use vstd::prelude::*;

verus! {

/// Property definition for a tool parameter.
pub struct ToolPropertyDef {
    pub name: &'static str,
    pub prop_type: &'static str,
    pub description: &'static str,
    /// Optional default value (integer defaults only).
    pub default: Option<i64>,
}

/// Built-in tool definition for the declarative tool tables.
pub struct BuiltinToolDef {
    pub name: &'static str,
    pub description: &'static str,
    pub properties: Vec<ToolPropertyDef>,
    pub required: Vec<&'static str>,
    /// Parameter names whose values should appear in tool-call notices.
    pub summary_params: Vec<&'static str>,
}

/// The parts of a tool definition that the tool logic reads.
#[verifier::ext_equal]
pub struct DefSummary {
    pub name: Seq<char>,
    pub required: Seq<Seq<char>>,
    pub summary_params: Seq<Seq<char>>,
    pub property_names: Seq<Seq<char>>,
}

/// The character sequences of a list of string slices.
pub open spec fn strs_view(v: Seq<&'static str>) -> Seq<Seq<char>> {
    v.map_values(|s: &'static str| s@)
}

/// The summary of one definition.
pub open spec fn def_summary(d: BuiltinToolDef) -> DefSummary {
    DefSummary {
        name: d.name@,
        required: strs_view(d.required@),
        summary_params: strs_view(d.summary_params@),
        property_names: d.properties@.map_values(|p: ToolPropertyDef| p.name@),
    }
}

/// The summaries of a table of definitions.
pub open spec fn table_of(defs: Seq<BuiltinToolDef>) -> Seq<DefSummary> {
    defs.map_values(|d: BuiltinToolDef| def_summary(d))
}

/// The names in a table of definition summaries.
pub open spec fn table_names(t: Seq<DefSummary>) -> Seq<Seq<char>> {
    t.map_values(|d: DefSummary| d.name)
}

/// The position of the first definition named `name` in `defs`.
pub fn position_of(defs: &Vec<BuiltinToolDef>, name: &str) -> (r: Option<usize>)
    ensures
        match r {
            Some(i) => i < defs@.len() && defs@[i as int].name@ == name@ && forall|j: int|
                0 <= j < i ==> #[trigger] defs@[j].name@ != name@,
            None => forall|j: int| 0 <= j < defs@.len() ==> #[trigger] defs@[j].name@ != name@,
        },
{
    let n = defs.len();
    let mut i: usize = 0;
    while i < n
        invariant
            n == defs@.len(),
            i <= n,
            forall|j: int| 0 <= j < i ==> #[trigger] defs@[j].name@ != name@,
        decreases n - i,
    {
        if crate::text::str_eq(defs[i].name, name) {
            return Some(i);
        }
        i = i + 1;
    }
    None
}

/// Whether some definition in `defs` is named `name`.
pub fn has_def_named(defs: &Vec<BuiltinToolDef>, name: &str) -> (r: bool)
    ensures
        r == table_names(table_of(defs@)).contains(name@),
{
    let p = position_of(defs, name);
    proof {
        let names = table_names(table_of(defs@));
        assert(names.len() == defs@.len());
        assert forall|j: int| 0 <= j < defs@.len() implies names[j] == #[trigger] defs@[j].name@ by {
        }
        if let Some(i) = p {
            assert(names[i as int] == name@);
        }
    }
    p.is_some()
}

/// The first summary named `name` in `t`, if any.
pub open spec fn lookup(t: Seq<DefSummary>, name: Seq<char>) -> Option<DefSummary>
    decreases t.len(),
{
    if t.len() == 0 {
        None
    } else if t[0].name == name {
        Some(t[0])
    } else {
        lookup(t.drop_first(), name)
    }
}

/// A table has an entry named `name` exactly when looking it up succeeds.
pub proof fn lemma_lookup_contains(t: Seq<DefSummary>, name: Seq<char>)
    ensures
        lookup(t, name) is Some <==> table_names(t).contains(name),
    decreases t.len(),
{
    if t.len() > 0 {
        lemma_lookup_contains(t.drop_first(), name);
        let names = table_names(t);
        let rest = table_names(t.drop_first());
        assert(rest =~= names.drop_first());
        if t[0].name == name {
            assert(names[0] == name);
        }
        if names.contains(name) && t[0].name != name {
            let i = choose|i: int| 0 <= i < names.len() && names[i] == name;
            assert(rest[i - 1] == name);
        }
        if rest.contains(name) {
            let i = choose|i: int| 0 <= i < rest.len() && rest[i] == name;
            assert(names[i + 1] == name);
        }
    } else {
        assert(table_names(t).len() == 0);
    }
}

/// Looking up in a table whose first `i` entries are named otherwise.
proof fn lemma_lookup_at(t: Seq<DefSummary>, name: Seq<char>, i: int)
    requires
        0 <= i < t.len(),
        t[i].name == name,
        forall|j: int| 0 <= j < i ==> #[trigger] t[j].name != name,
    ensures
        lookup(t, name) == Some(t[i]),
    decreases i,
{
    if i > 0 {
        let r = t.drop_first();
        assert forall|j: int| 0 <= j < i - 1 implies #[trigger] r[j].name != name by {
            assert(r[j] == t[j + 1]);
        }
        lemma_lookup_at(r, name, i - 1);
    }
}

/// Looking up a name that no entry carries.
proof fn lemma_lookup_none(t: Seq<DefSummary>, name: Seq<char>)
    requires
        forall|j: int| 0 <= j < t.len() ==> #[trigger] t[j].name != name,
    ensures
        lookup(t, name) is None,
    decreases t.len(),
{
    if t.len() > 0 {
        let r = t.drop_first();
        assert forall|j: int| 0 <= j < r.len() implies #[trigger] r[j].name != name by {
            assert(r[j] == t[j + 1]);
        }
        lemma_lookup_none(r, name);
    }
}

/// The first definition in `defs` named `name`, taken out of the table.
pub fn take_def_named(defs: Vec<BuiltinToolDef>, name: &str) -> (r: Option<BuiltinToolDef>)
    ensures
        match r {
            Some(d) => lookup(table_of(defs@), name@) == Some(def_summary(d)),
            None => lookup(table_of(defs@), name@) is None,
        },
{
    let ghost t = table_of(defs@);
    let p = position_of(&defs, name);
    match p {
        Some(i) => {
            proof {
                assert forall|j: int| 0 <= j < i implies #[trigger] t[j].name != name@ by {
                    assert(t[j].name == defs@[j].name@);
                }
                lemma_lookup_at(t, name@, i as int);
            }
            let mut defs = defs;
            let d = defs.remove(i);
            Some(d)
        },
        None => {
            proof {
                assert forall|j: int| 0 <= j < t.len() implies #[trigger] t[j].name != name@ by {
                    assert(t[j].name == defs@[j].name@);
                }
                lemma_lookup_none(t, name@);
            }
            None
        },
    }
}

/// The tables of `a` then `b`.
pub fn concat_defs(a: Vec<BuiltinToolDef>, b: Vec<BuiltinToolDef>) -> (r: Vec<BuiltinToolDef>)
    ensures
        table_of(r@) == table_of(a@) + table_of(b@),
{
    let ghost a0 = a@;
    let ghost b0 = b@;
    let mut a = a;
    let mut b = b;
    a.append(&mut b);
    assert(table_of(a@) =~= table_of(a0) + table_of(b0));
    a
}

// === All built-in tool names ===

/// Every built-in tool group, in the order the runtime registers them.
pub open spec fn builtin_table() -> Seq<DefSummary> {
    memory::memory_table() + fs_read::fs_read_table() + fs_write::fs_write_table()
        + shell::shell_table() + network::network_table() + index::index_table()
        + flow::flow_table() + vfs_tools::vfs_table() + eval::eval_table()
}

/// The names of all built-in tools across all groups: memory, fs_read,
/// fs_write, shell, network, index, flow, vfs and eval, in that order.
pub fn builtin_tool_names() -> (r: Vec<&'static str>)
    ensures
        strs_view(r@) == table_names(builtin_table()),
{
    let mut defs = memory::memory_tool_defs();
    defs = concat_defs(defs, fs_read::fs_read_tool_defs());
    defs = concat_defs(defs, fs_write::fs_write_tool_defs());
    defs = concat_defs(defs, shell::shell_tool_defs());
    defs = concat_defs(defs, network::network_tool_defs());
    defs = concat_defs(defs, index::index_tool_defs());
    defs = concat_defs(defs, flow::flow_tool_defs());
    defs = concat_defs(defs, vfs_tools::vfs_tool_defs());
    defs = concat_defs(defs, eval::eval_tool_defs());
    let ghost t = table_of(defs@);
    assert(t == builtin_table());
    let mut names: Vec<&'static str> = Vec::new();
    let n = defs.len();
    let mut i: usize = 0;
    while i < n
        invariant
            n == defs@.len(),
            t == table_of(defs@),
            i <= n,
            strs_view(names@) =~= table_names(t).subrange(0, i as int),
        decreases n - i,
    {
        assert(t[i as int].name == defs@[i as int].name@);
        let ghost before = names@;
        names.push(defs[i].name);
        assert(strs_view(names@) =~= strs_view(before).push(defs@[i as int].name@));
        assert(table_names(t).subrange(0, i + 1) =~= table_names(t).subrange(0, i as int).push(
            table_names(t)[i as int],
        ));
        i = i + 1;
    }
    assert(table_names(t).subrange(0, n as int) =~= table_names(t));
    names
}

/// The position of a built-in tool name among all of them.
spec fn builtin_name_pos(x: Seq<char>) -> int {
    let s = seq!["update_reflection"@, "update_goals"@, "read_context"@, "flock_join"@, "flock_leave"@, "file_head"@, "file_tail"@, "file_lines"@, "file_grep"@, "dir_list"@, "glob_files"@, "grep_files"@, "write_file"@, "file_edit"@, "shell_exec"@, "fetch_url"@, "index_update"@, "index_query"@, "index_status"@, "send_message"@, "call_user"@, "model_info"@, "spawn_agent"@, "summarize_content"@, "vfs_list"@, "scheme_eval"@];
    if x == s[0] { 0 } else if x == s[1] { 1 } else if x == s[2] { 2 } else if x == s[3] { 3 } else if x == s[4] { 4 } else if x == s[5] { 5 } else if x == s[6] { 6 } else if x == s[7] { 7 } else if x == s[8] { 8 } else if x == s[9] { 9 } else if x == s[10] { 10 } else if x == s[11] { 11 } else if x == s[12] { 12 } else if x == s[13] { 13 } else if x == s[14] { 14 } else if x == s[15] { 15 } else if x == s[16] { 16 } else if x == s[17] { 17 } else if x == s[18] { 18 } else if x == s[19] { 19 } else if x == s[20] { 20 } else if x == s[21] { 21 } else if x == s[22] { 22 } else if x == s[23] { 23 } else if x == s[24] { 24 } else { 25 }
}

/// No two built-in tools share a name.
pub proof fn law_builtin_names_distinct()
    ensures
        table_names(builtin_table()).no_duplicates(),
{
    reveal_strlit("update_reflection");
    reveal_strlit("update_goals");
    reveal_strlit("read_context");
    reveal_strlit("flock_join");
    reveal_strlit("flock_leave");
    reveal_strlit("file_head");
    reveal_strlit("file_tail");
    reveal_strlit("file_lines");
    reveal_strlit("file_grep");
    reveal_strlit("dir_list");
    reveal_strlit("glob_files");
    reveal_strlit("grep_files");
    reveal_strlit("write_file");
    reveal_strlit("file_edit");
    reveal_strlit("shell_exec");
    reveal_strlit("fetch_url");
    reveal_strlit("index_update");
    reveal_strlit("index_query");
    reveal_strlit("index_status");
    reveal_strlit("send_message");
    reveal_strlit("call_user");
    reveal_strlit("model_info");
    reveal_strlit("spawn_agent");
    reveal_strlit("summarize_content");
    reveal_strlit("vfs_list");
    reveal_strlit("scheme_eval");
    let s = seq!["update_reflection"@, "update_goals"@, "read_context"@, "flock_join"@, "flock_leave"@, "file_head"@, "file_tail"@, "file_lines"@, "file_grep"@, "dir_list"@, "glob_files"@, "grep_files"@, "write_file"@, "file_edit"@, "shell_exec"@, "fetch_url"@, "index_update"@, "index_query"@, "index_status"@, "send_message"@, "call_user"@, "model_info"@, "spawn_agent"@, "summarize_content"@, "vfs_list"@, "scheme_eval"@];
    assert(table_names(builtin_table()) =~= s);
    assert(s[0].len() != s[1].len());
    assert(s[0].len() != s[2].len());
    assert(s[1][0] != s[2][0]);
    assert(s[0].len() != s[3].len());
    assert(s[1].len() != s[3].len());
    assert(s[2].len() != s[3].len());
    assert(s[0].len() != s[4].len());
    assert(s[1].len() != s[4].len());
    assert(s[2].len() != s[4].len());
    assert(s[3].len() != s[4].len());
    assert(s[0].len() != s[5].len());
    assert(s[1].len() != s[5].len());
    assert(s[2].len() != s[5].len());
    assert(s[3].len() != s[5].len());
    assert(s[4].len() != s[5].len());
    assert(s[0].len() != s[6].len());
    assert(s[1].len() != s[6].len());
    assert(s[2].len() != s[6].len());
    assert(s[3].len() != s[6].len());
    assert(s[4].len() != s[6].len());
    assert(s[5][5] != s[6][5]);
    assert(s[0].len() != s[7].len());
    assert(s[1].len() != s[7].len());
    assert(s[2].len() != s[7].len());
    assert(s[3][1] != s[7][1]);
    assert(s[4].len() != s[7].len());
    assert(s[5].len() != s[7].len());
    assert(s[6].len() != s[7].len());
    assert(s[0].len() != s[8].len());
    assert(s[1].len() != s[8].len());
    assert(s[2].len() != s[8].len());
    assert(s[3].len() != s[8].len());
    assert(s[4].len() != s[8].len());
    assert(s[5][5] != s[8][5]);
    assert(s[6][5] != s[8][5]);
    assert(s[7].len() != s[8].len());
    assert(s[0].len() != s[9].len());
    assert(s[1].len() != s[9].len());
    assert(s[2].len() != s[9].len());
    assert(s[3].len() != s[9].len());
    assert(s[4].len() != s[9].len());
    assert(s[5].len() != s[9].len());
    assert(s[6].len() != s[9].len());
    assert(s[7].len() != s[9].len());
    assert(s[8].len() != s[9].len());
    assert(s[0].len() != s[10].len());
    assert(s[1].len() != s[10].len());
    assert(s[2].len() != s[10].len());
    assert(s[3][0] != s[10][0]);
    assert(s[4].len() != s[10].len());
    assert(s[5].len() != s[10].len());
    assert(s[6].len() != s[10].len());
    assert(s[7][0] != s[10][0]);
    assert(s[8].len() != s[10].len());
    assert(s[9].len() != s[10].len());
    assert(s[0].len() != s[11].len());
    assert(s[1].len() != s[11].len());
    assert(s[2].len() != s[11].len());
    assert(s[3][0] != s[11][0]);
    assert(s[4].len() != s[11].len());
    assert(s[5].len() != s[11].len());
    assert(s[6].len() != s[11].len());
    assert(s[7][0] != s[11][0]);
    assert(s[8].len() != s[11].len());
    assert(s[9].len() != s[11].len());
    assert(s[10][1] != s[11][1]);
    assert(s[0].len() != s[12].len());
    assert(s[1].len() != s[12].len());
    assert(s[2].len() != s[12].len());
    assert(s[3][0] != s[12][0]);
    assert(s[4].len() != s[12].len());
    assert(s[5].len() != s[12].len());
    assert(s[6].len() != s[12].len());
    assert(s[7][0] != s[12][0]);
    assert(s[8].len() != s[12].len());
    assert(s[9].len() != s[12].len());
    assert(s[10][0] != s[12][0]);
    assert(s[11][0] != s[12][0]);
    assert(s[0].len() != s[13].len());
    assert(s[1].len() != s[13].len());
    assert(s[2].len() != s[13].len());
    assert(s[3].len() != s[13].len());
    assert(s[4].len() != s[13].len());
    assert(s[5][5] != s[13][5]);
    assert(s[6][5] != s[13][5]);
    assert(s[7].len() != s[13].len());
    assert(s[8][5] != s[13][5]);
    assert(s[9].len() != s[13].len());
    assert(s[10].len() != s[13].len());
    assert(s[11].len() != s[13].len());
    assert(s[12].len() != s[13].len());
    assert(s[0].len() != s[14].len());
    assert(s[1].len() != s[14].len());
    assert(s[2].len() != s[14].len());
    assert(s[3][0] != s[14][0]);
    assert(s[4].len() != s[14].len());
    assert(s[5].len() != s[14].len());
    assert(s[6].len() != s[14].len());
    assert(s[7][0] != s[14][0]);
    assert(s[8].len() != s[14].len());
    assert(s[9].len() != s[14].len());
    assert(s[10][0] != s[14][0]);
    assert(s[11][0] != s[14][0]);
    assert(s[12][0] != s[14][0]);
    assert(s[13].len() != s[14].len());
    assert(s[0].len() != s[15].len());
    assert(s[1].len() != s[15].len());
    assert(s[2].len() != s[15].len());
    assert(s[3].len() != s[15].len());
    assert(s[4].len() != s[15].len());
    assert(s[5][1] != s[15][1]);
    assert(s[6][1] != s[15][1]);
    assert(s[7].len() != s[15].len());
    assert(s[8][1] != s[15][1]);
    assert(s[9].len() != s[15].len());
    assert(s[10].len() != s[15].len());
    assert(s[11].len() != s[15].len());
    assert(s[12].len() != s[15].len());
    assert(s[13][1] != s[15][1]);
    assert(s[14].len() != s[15].len());
    assert(s[0].len() != s[16].len());
    assert(s[1][0] != s[16][0]);
    assert(s[2][0] != s[16][0]);
    assert(s[3].len() != s[16].len());
    assert(s[4].len() != s[16].len());
    assert(s[5].len() != s[16].len());
    assert(s[6].len() != s[16].len());
    assert(s[7].len() != s[16].len());
    assert(s[8].len() != s[16].len());
    assert(s[9].len() != s[16].len());
    assert(s[10].len() != s[16].len());
    assert(s[11].len() != s[16].len());
    assert(s[12].len() != s[16].len());
    assert(s[13].len() != s[16].len());
    assert(s[14].len() != s[16].len());
    assert(s[15].len() != s[16].len());
    assert(s[0].len() != s[17].len());
    assert(s[1].len() != s[17].len());
    assert(s[2].len() != s[17].len());
    assert(s[3].len() != s[17].len());
    assert(s[4][0] != s[17][0]);
    assert(s[5].len() != s[17].len());
    assert(s[6].len() != s[17].len());
    assert(s[7].len() != s[17].len());
    assert(s[8].len() != s[17].len());
    assert(s[9].len() != s[17].len());
    assert(s[10].len() != s[17].len());
    assert(s[11].len() != s[17].len());
    assert(s[12].len() != s[17].len());
    assert(s[13].len() != s[17].len());
    assert(s[14].len() != s[17].len());
    assert(s[15].len() != s[17].len());
    assert(s[16].len() != s[17].len());
    assert(s[0].len() != s[18].len());
    assert(s[1][0] != s[18][0]);
    assert(s[2][0] != s[18][0]);
    assert(s[3].len() != s[18].len());
    assert(s[4].len() != s[18].len());
    assert(s[5].len() != s[18].len());
    assert(s[6].len() != s[18].len());
    assert(s[7].len() != s[18].len());
    assert(s[8].len() != s[18].len());
    assert(s[9].len() != s[18].len());
    assert(s[10].len() != s[18].len());
    assert(s[11].len() != s[18].len());
    assert(s[12].len() != s[18].len());
    assert(s[13].len() != s[18].len());
    assert(s[14].len() != s[18].len());
    assert(s[15].len() != s[18].len());
    assert(s[16][6] != s[18][6]);
    assert(s[17].len() != s[18].len());
    assert(s[0].len() != s[19].len());
    assert(s[1][0] != s[19][0]);
    assert(s[2][0] != s[19][0]);
    assert(s[3].len() != s[19].len());
    assert(s[4].len() != s[19].len());
    assert(s[5].len() != s[19].len());
    assert(s[6].len() != s[19].len());
    assert(s[7].len() != s[19].len());
    assert(s[8].len() != s[19].len());
    assert(s[9].len() != s[19].len());
    assert(s[10].len() != s[19].len());
    assert(s[11].len() != s[19].len());
    assert(s[12].len() != s[19].len());
    assert(s[13].len() != s[19].len());
    assert(s[14].len() != s[19].len());
    assert(s[15].len() != s[19].len());
    assert(s[16][0] != s[19][0]);
    assert(s[17].len() != s[19].len());
    assert(s[18][0] != s[19][0]);
    assert(s[0].len() != s[20].len());
    assert(s[1].len() != s[20].len());
    assert(s[2].len() != s[20].len());
    assert(s[3].len() != s[20].len());
    assert(s[4].len() != s[20].len());
    assert(s[5][0] != s[20][0]);
    assert(s[6][0] != s[20][0]);
    assert(s[7].len() != s[20].len());
    assert(s[8][0] != s[20][0]);
    assert(s[9].len() != s[20].len());
    assert(s[10].len() != s[20].len());
    assert(s[11].len() != s[20].len());
    assert(s[12].len() != s[20].len());
    assert(s[13][0] != s[20][0]);
    assert(s[14].len() != s[20].len());
    assert(s[15][0] != s[20][0]);
    assert(s[16].len() != s[20].len());
    assert(s[17].len() != s[20].len());
    assert(s[18].len() != s[20].len());
    assert(s[19].len() != s[20].len());
    assert(s[0].len() != s[21].len());
    assert(s[1].len() != s[21].len());
    assert(s[2].len() != s[21].len());
    assert(s[3][0] != s[21][0]);
    assert(s[4].len() != s[21].len());
    assert(s[5].len() != s[21].len());
    assert(s[6].len() != s[21].len());
    assert(s[7][0] != s[21][0]);
    assert(s[8].len() != s[21].len());
    assert(s[9].len() != s[21].len());
    assert(s[10][0] != s[21][0]);
    assert(s[11][0] != s[21][0]);
    assert(s[12][0] != s[21][0]);
    assert(s[13].len() != s[21].len());
    assert(s[14][0] != s[21][0]);
    assert(s[15].len() != s[21].len());
    assert(s[16].len() != s[21].len());
    assert(s[17].len() != s[21].len());
    assert(s[18].len() != s[21].len());
    assert(s[19].len() != s[21].len());
    assert(s[20].len() != s[21].len());
    assert(s[0].len() != s[22].len());
    assert(s[1].len() != s[22].len());
    assert(s[2].len() != s[22].len());
    assert(s[3].len() != s[22].len());
    assert(s[4][0] != s[22][0]);
    assert(s[5].len() != s[22].len());
    assert(s[6].len() != s[22].len());
    assert(s[7].len() != s[22].len());
    assert(s[8].len() != s[22].len());
    assert(s[9].len() != s[22].len());
    assert(s[10].len() != s[22].len());
    assert(s[11].len() != s[22].len());
    assert(s[12].len() != s[22].len());
    assert(s[13].len() != s[22].len());
    assert(s[14].len() != s[22].len());
    assert(s[15].len() != s[22].len());
    assert(s[16].len() != s[22].len());
    assert(s[17][0] != s[22][0]);
    assert(s[18].len() != s[22].len());
    assert(s[19].len() != s[22].len());
    assert(s[20].len() != s[22].len());
    assert(s[21].len() != s[22].len());
    assert(s[0][0] != s[23][0]);
    assert(s[1].len() != s[23].len());
    assert(s[2].len() != s[23].len());
    assert(s[3].len() != s[23].len());
    assert(s[4].len() != s[23].len());
    assert(s[5].len() != s[23].len());
    assert(s[6].len() != s[23].len());
    assert(s[7].len() != s[23].len());
    assert(s[8].len() != s[23].len());
    assert(s[9].len() != s[23].len());
    assert(s[10].len() != s[23].len());
    assert(s[11].len() != s[23].len());
    assert(s[12].len() != s[23].len());
    assert(s[13].len() != s[23].len());
    assert(s[14].len() != s[23].len());
    assert(s[15].len() != s[23].len());
    assert(s[16].len() != s[23].len());
    assert(s[17].len() != s[23].len());
    assert(s[18].len() != s[23].len());
    assert(s[19].len() != s[23].len());
    assert(s[20].len() != s[23].len());
    assert(s[21].len() != s[23].len());
    assert(s[22].len() != s[23].len());
    assert(s[0].len() != s[24].len());
    assert(s[1].len() != s[24].len());
    assert(s[2].len() != s[24].len());
    assert(s[3].len() != s[24].len());
    assert(s[4].len() != s[24].len());
    assert(s[5].len() != s[24].len());
    assert(s[6].len() != s[24].len());
    assert(s[7].len() != s[24].len());
    assert(s[8].len() != s[24].len());
    assert(s[9][0] != s[24][0]);
    assert(s[10].len() != s[24].len());
    assert(s[11].len() != s[24].len());
    assert(s[12].len() != s[24].len());
    assert(s[13].len() != s[24].len());
    assert(s[14].len() != s[24].len());
    assert(s[15].len() != s[24].len());
    assert(s[16].len() != s[24].len());
    assert(s[17].len() != s[24].len());
    assert(s[18].len() != s[24].len());
    assert(s[19].len() != s[24].len());
    assert(s[20].len() != s[24].len());
    assert(s[21].len() != s[24].len());
    assert(s[22].len() != s[24].len());
    assert(s[23].len() != s[24].len());
    assert(s[0].len() != s[25].len());
    assert(s[1].len() != s[25].len());
    assert(s[2].len() != s[25].len());
    assert(s[3].len() != s[25].len());
    assert(s[4][0] != s[25][0]);
    assert(s[5].len() != s[25].len());
    assert(s[6].len() != s[25].len());
    assert(s[7].len() != s[25].len());
    assert(s[8].len() != s[25].len());
    assert(s[9].len() != s[25].len());
    assert(s[10].len() != s[25].len());
    assert(s[11].len() != s[25].len());
    assert(s[12].len() != s[25].len());
    assert(s[13].len() != s[25].len());
    assert(s[14].len() != s[25].len());
    assert(s[15].len() != s[25].len());
    assert(s[16].len() != s[25].len());
    assert(s[17][0] != s[25][0]);
    assert(s[18].len() != s[25].len());
    assert(s[19].len() != s[25].len());
    assert(s[20].len() != s[25].len());
    assert(s[21].len() != s[25].len());
    assert(s[22][1] != s[25][1]);
    assert(s[23].len() != s[25].len());
    assert(s[24].len() != s[25].len());
    assert forall|k: int| 0 <= k < 26 implies builtin_name_pos(#[trigger] s[k]) == k by {}
    assert forall|i: int, j: int| 0 <= i < j < 26 implies s[i] != s[j] by {
        assert(builtin_name_pos(s[i]) == i);
        assert(builtin_name_pos(s[j]) == j);
    }
}

// === Tool metadata ===

/// Metadata for tool behaviour in the agentic loop.
#[derive(Debug, Clone, Copy, PartialEq, Eq, Structural)]
pub struct ToolMetadata {
    /// Can this tool run in parallel with others?
    pub parallel: bool,
    /// Is this a flow control tool?
    pub flow_control: bool,
    /// If flow_control, does invoking it end the turn?
    pub ends_turn: bool,
}

/// The metadata of a regular tool: parallel, not flow control.
pub open spec fn default_metadata() -> ToolMetadata {
    ToolMetadata { parallel: true, flow_control: false, ends_turn: false }
}

impl ToolMetadata {
    /// Default metadata for regular tools.
    pub fn new() -> (m: ToolMetadata)
        ensures
            m == default_metadata(),
    {
        ToolMetadata { parallel: true, flow_control: false, ends_turn: false }
    }
}

} // verus!
