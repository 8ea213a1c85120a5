//! Registering the built-in tool groups. Each definition of a group
//! becomes a built-in tool of the group's category; the runtime keeps each
//! group's handler under the names of its tools.

use vstd::prelude::*;

use crate::json::json_view;
use super::eval::{eval_table, eval_tool_defs};
use super::flow::{flow_table, flow_tool_defs, flow_tool_metadata, spec_flow_tool_metadata};
use super::fs_read::{fs_read_table, fs_read_tool_defs};
use super::fs_write::{fs_write_table, fs_write_tool_defs};
use super::index::{index_table, index_tool_defs};
use super::memory::{memory_table, memory_tool_defs};
use super::network::{network_table, network_tool_defs};
use super::registry::{
    key_position, keyed_by_name, keys_distinct, registered, Tool, ToolCategory,
    ToolRegistry,
};
use super::schema::schema_json;
use super::shell::{shell_table, shell_tool_defs};
use super::vfs_tools::{vfs_table, vfs_tool_defs};
use super::{default_metadata, strs_view, table_of, BuiltinToolDef, DefSummary, ToolMetadata};

verus! {

/// `t` is the built-in tool made from the definition `d` in `category`,
/// with `metadata`: the definition's name, description, parameter schema
/// and summary parameters, and no hooks.
pub open spec fn tool_made_from(
    t: Tool,
    d: BuiltinToolDef,
    category: ToolCategory,
    metadata: ToolMetadata,
) -> bool {
    &&& t.name@ == d.name@
    &&& t.description@ == d.description@
    &&& json_view(t.parameters) == schema_json(d)
    &&& t.hooks@.len() == 0
    &&& t.metadata == metadata
    &&& t.summary_params@.map_values(|x: String| x@) == strs_view(d.summary_params@)
    &&& t.implementation is Builtin
    &&& t.category == category
}

/// The registry entries after registering each of `tools` in turn.
pub open spec fn registered_all(es: Seq<(Seq<char>, Tool)>, tools: Seq<Tool>) -> Seq<
    (Seq<char>, Tool),
>
    decreases tools.len(),
{
    if tools.len() == 0 {
        es
    } else {
        registered(registered_all(es, tools.drop_last()), tools.last())
    }
}

/// The metadata a group gives the tool of definition `d`: a flow tool's
/// own (`flow`), else the regular one.
pub open spec fn group_metadata(d: BuiltinToolDef, flow: bool) -> ToolMetadata {
    if flow {
        spec_flow_tool_metadata(d.name@)
    } else {
        default_metadata()
    }
}

/// The registry after registering the group `defs` in `category`.
pub open spec fn group_registered(
    before: Seq<(Seq<char>, Tool)>,
    after: Seq<(Seq<char>, Tool)>,
    table: Seq<DefSummary>,
    category: ToolCategory,
    flow: bool,
) -> bool {
    exists|defs: Seq<BuiltinToolDef>, tools: Seq<Tool>|
        #![trigger table_of(defs), registered_all(before, tools)]
        {
            &&& table_of(defs) == table
            &&& tools.len() == defs.len()
            &&& forall|i: int|
                0 <= i < tools.len() ==> tool_made_from(
                    #[trigger] tools[i],
                    defs[i],
                    category,
                    group_metadata(defs[i], flow),
                )
            &&& after == registered_all(before, tools)
        }
}

/// Registers the tools of the definitions `defs` in `category`, in order.
fn register_defs(
    registry: &mut ToolRegistry,
    defs: &Vec<BuiltinToolDef>,
    category: ToolCategory,
    flow: bool,
) -> (made: Ghost<Seq<Tool>>)
    ensures
        made@.len() == defs@.len(),
        forall|i: int|
            0 <= i < made@.len() ==> tool_made_from(
                #[trigger] made@[i],
                defs@[i],
                category,
                group_metadata(defs@[i], flow),
            ),
        final(registry)@ == registered_all(old(registry)@, made@),
{
    let ghost mut tools: Seq<Tool> = Seq::empty();
    let n = defs.len();
    let mut i: usize = 0;
    while i < n
        invariant
            n == defs@.len(),
            i <= n,
            tools.len() == i,
            forall|k: int|
                0 <= k < i ==> tool_made_from(
                    #[trigger] tools[k],
                    defs@[k],
                    category,
                    group_metadata(defs@[k], flow),
                ),
            registry@ == registered_all(old(registry)@, tools),
        decreases n - i,
    {
        let d = &defs[i];
        let mut t = Tool::from_builtin_def(d, category);
        if flow {
            t.metadata = flow_tool_metadata(d.name);
        }
        proof {
            assert(tools.push(t).drop_last() =~= tools);
            tools = tools.push(t);
        }
        registry.register(t);
        i = i + 1;
    }
    Ghost(tools)
}

/// Registers the memory tools.
pub fn register_memory_tools(registry: &mut ToolRegistry)
    ensures
        group_registered(old(registry)@, final(registry)@, memory_table(), ToolCategory::Memory, false),
{
    let defs = memory_tool_defs();
    let made = register_defs(registry, &defs, ToolCategory::Memory, false);
    assert(table_of(defs@) == memory_table());
    assert(registered_all(old(registry)@, made@) == registry@);
}

/// Registers the fs_read tools.
pub fn register_fs_read_tools(registry: &mut ToolRegistry)
    ensures
        group_registered(old(registry)@, final(registry)@, fs_read_table(), ToolCategory::FsRead, false),
{
    let defs = fs_read_tool_defs();
    let made = register_defs(registry, &defs, ToolCategory::FsRead, false);
    assert(table_of(defs@) == fs_read_table());
    assert(registered_all(old(registry)@, made@) == registry@);
}

/// Registers the fs_write tools.
pub fn register_fs_write_tools(registry: &mut ToolRegistry)
    ensures
        group_registered(
            old(registry)@,
            final(registry)@,
            fs_write_table(),
            ToolCategory::FsWrite,
            false,
        ),
{
    let defs = fs_write_tool_defs();
    let made = register_defs(registry, &defs, ToolCategory::FsWrite, false);
    assert(table_of(defs@) == fs_write_table());
    assert(registered_all(old(registry)@, made@) == registry@);
}

/// Registers the shell tools.
pub fn register_shell_tools(registry: &mut ToolRegistry)
    ensures
        group_registered(old(registry)@, final(registry)@, shell_table(), ToolCategory::Shell, false),
{
    let defs = shell_tool_defs();
    let made = register_defs(registry, &defs, ToolCategory::Shell, false);
    assert(table_of(defs@) == shell_table());
    assert(registered_all(old(registry)@, made@) == registry@);
}

/// Registers the network tools.
pub fn register_network_tools(registry: &mut ToolRegistry)
    ensures
        group_registered(
            old(registry)@,
            final(registry)@,
            network_table(),
            ToolCategory::Network,
            false,
        ),
{
    let defs = network_tool_defs();
    let made = register_defs(registry, &defs, ToolCategory::Network, false);
    assert(table_of(defs@) == network_table());
    assert(registered_all(old(registry)@, made@) == registry@);
}

/// Registers the index tools.
pub fn register_index_tools(registry: &mut ToolRegistry)
    ensures
        group_registered(old(registry)@, final(registry)@, index_table(), ToolCategory::Index, false),
{
    let defs = index_tool_defs();
    let made = register_defs(registry, &defs, ToolCategory::Index, false);
    assert(table_of(defs@) == index_table());
    assert(registered_all(old(registry)@, made@) == registry@);
}

/// Registers the VFS tools.
pub fn register_vfs_tools(registry: &mut ToolRegistry)
    ensures
        group_registered(old(registry)@, final(registry)@, vfs_table(), ToolCategory::Vfs, false),
{
    let defs = vfs_tool_defs();
    let made = register_defs(registry, &defs, ToolCategory::Vfs, false);
    assert(table_of(defs@) == vfs_table());
    assert(registered_all(old(registry)@, made@) == registry@);
}

/// Registers the flow tools, each with its own metadata (`call_user` ends
/// the turn and controls the flow, `spawn_agent` is not run in parallel).
pub fn register_flow_tools(registry: &mut ToolRegistry)
    ensures
        group_registered(old(registry)@, final(registry)@, flow_table(), ToolCategory::Flow, true),
{
    let defs = flow_tool_defs();
    let made = register_defs(registry, &defs, ToolCategory::Flow, true);
    assert(table_of(defs@) == flow_table());
    assert(registered_all(old(registry)@, made@) == registry@);
}

/// The metadata of `scheme_eval`: calls for one context would share its
/// Scheme session, so they are never run in parallel.
pub open spec fn eval_metadata() -> ToolMetadata {
    ToolMetadata { parallel: false, flow_control: false, ends_turn: false }
}

/// Registers the eval tool, not to be run in parallel.
pub fn register_eval_tools(registry: &mut ToolRegistry)
    ensures
        exists|d: BuiltinToolDef, t: Tool|
            #![trigger registered(old(registry)@, t), table_of(seq![d])]
            {
                &&& table_of(seq![d]) == eval_table()
                &&& tool_made_from(t, d, ToolCategory::Eval, eval_metadata())
                &&& final(registry)@ == registered(old(registry)@, t)
            },
{
    let defs = eval_tool_defs();
    assert(table_of(defs@) == eval_table());
    assert(table_of(defs@).len() == defs@.len());
    assert(eval_table().len() == 1);
    assert(defs@.len() == 1);
    let mut t = Tool::from_builtin_def(&defs[0], ToolCategory::Eval);
    t.metadata = ToolMetadata { parallel: false, flow_control: false, ends_turn: false };
    let ghost tv = t;
    assert(defs@ =~= seq![defs@[0]]);
    registry.register(t);
    assert(registered(old(registry)@, tv) == registry@);
    assert(table_of(seq![defs@[0]]) == eval_table());
}

// ---------------------------------------------------------------------------
// Finding registered tools
// ---------------------------------------------------------------------------

/// Registering keeps the keys distinct and each entry keyed by its tool's
/// name.
proof fn lemma_registered_wf(es: Seq<(Seq<char>, Tool)>, t: Tool)
    requires
        keys_distinct(es),
        keyed_by_name(es),
    ensures
        keys_distinct(registered(es, t)),
        keyed_by_name(registered(es, t)),
        key_position(registered(es, t), t.name@) is Some,
        registered(es, t)[key_position(registered(es, t), t.name@)->0].1 == t,
        forall|k: Seq<char>|
            k != t.name@ ==> (#[trigger] key_position(registered(es, t), k) is Some <==> key_position(
                es,
                k,
            ) is Some),
        forall|k: Seq<char>|
            k != t.name@ && key_position(es, k) is Some ==> registered(es, t)[key_position(
                registered(es, t),
                k,
            )->0] == es[key_position(es, k)->0],
{
    let r = registered(es, t);
    match key_position(es, t.name@) {
        Some(i) => {
            assert forall|a: int, b: int|
                0 <= a < r.len() && 0 <= b < r.len() && a != b implies r[a].0 != r[b].0 by {
                if a != i && b != i {
                    assert(r[a] == es[a] && r[b] == es[b]);
                }
            }
            super::registry::lemma_position_unique(r, t.name@, i);
            assert forall|k: Seq<char>| k != t.name@ implies (#[trigger] key_position(r, k) is Some
                <==> key_position(es, k) is Some) by {
                if key_position(es, k) is Some {
                    let j = key_position(es, k)->0;
                    super::registry::lemma_key_position(es, k);
                    assert(r[j] == es[j]);
                    super::registry::lemma_position_unique(r, k, j);
                }
                if key_position(r, k) is Some {
                    let j = key_position(r, k)->0;
                    super::registry::lemma_key_position(r, k);
                    assert(r[j] == es[j]);
                    super::registry::lemma_position_unique(es, k, j);
                }
            }
            assert forall|k: Seq<char>| k != t.name@ && key_position(es, k) is Some implies r[key_position(
                r,
                k,
            )->0] == es[key_position(es, k)->0] by {
                let j = key_position(es, k)->0;
                super::registry::lemma_key_position(es, k);
                assert(r[j] == es[j]);
                super::registry::lemma_position_unique(r, k, j);
            }
        },
        None => {
            super::registry::lemma_key_position(es, t.name@);
            assert forall|a: int, b: int|
                0 <= a < r.len() && 0 <= b < r.len() && a != b implies r[a].0 != r[b].0 by {
                if a < es.len() && b < es.len() {
                    assert(r[a] == es[a] && r[b] == es[b]);
                }
            }
            super::registry::lemma_position_unique(r, t.name@, es.len() as int);
            assert forall|k: Seq<char>| k != t.name@ implies (#[trigger] key_position(r, k) is Some
                <==> key_position(es, k) is Some) by {
                if key_position(es, k) is Some {
                    let j = key_position(es, k)->0;
                    super::registry::lemma_key_position(es, k);
                    assert(r[j] == es[j]);
                    super::registry::lemma_position_unique(r, k, j);
                }
                if key_position(r, k) is Some {
                    let j = key_position(r, k)->0;
                    super::registry::lemma_key_position(r, k);
                    assert(j < es.len());
                    assert(r[j] == es[j]);
                    super::registry::lemma_position_unique(es, k, j);
                }
            }
            assert forall|k: Seq<char>| k != t.name@ && key_position(es, k) is Some implies r[key_position(
                r,
                k,
            )->0] == es[key_position(es, k)->0] by {
                let j = key_position(es, k)->0;
                super::registry::lemma_key_position(es, k);
                assert(r[j] == es[j]);
                super::registry::lemma_position_unique(r, k, j);
            }
        },
    }
}

/// After a group of tools is registered, each of them can be found by its
/// name: the entry under a name is the last tool of that name in the
/// group.
pub proof fn law_registered_group_found(es: Seq<(Seq<char>, Tool)>, tools: Seq<Tool>, i: int)
    requires
        keys_distinct(es),
        keyed_by_name(es),
        0 <= i < tools.len(),
        forall|j: int| i < j < tools.len() ==> (#[trigger] tools[j]).name@ != tools[i].name@,
    ensures
        key_position(registered_all(es, tools), tools[i].name@) is Some,
        registered_all(es, tools)[key_position(registered_all(es, tools), tools[i].name@)->0].1
            == tools[i],
        keys_distinct(registered_all(es, tools)),
        keyed_by_name(registered_all(es, tools)),
    decreases tools.len(),
{
    let last = tools.last();
    let init = tools.drop_last();
    if i == tools.len() - 1 {
        lemma_registered_all_wf(es, init);
        lemma_registered_wf(registered_all(es, init), last);
    } else {
        assert forall|j: int| i < j < init.len() implies (#[trigger] init[j]).name@ != init[i].name@ by {
            assert(init[j] == tools[j]);
        }
        law_registered_group_found(es, init, i);
        assert(init[i] == tools[i]);
        assert(last == tools[tools.len() - 1]);
        lemma_registered_wf(registered_all(es, init), last);
    }
}

/// Registering a group keeps the keys distinct and each entry keyed by its
/// tool's name.
proof fn lemma_registered_all_wf(es: Seq<(Seq<char>, Tool)>, tools: Seq<Tool>)
    requires
        keys_distinct(es),
        keyed_by_name(es),
    ensures
        keys_distinct(registered_all(es, tools)),
        keyed_by_name(registered_all(es, tools)),
    decreases tools.len(),
{
    if tools.len() > 0 {
        lemma_registered_all_wf(es, tools.drop_last());
        lemma_registered_wf(registered_all(es, tools.drop_last()), tools.last());
    }
}

} // verus!
