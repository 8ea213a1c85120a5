//! The core built-in tools: the memory and flow groups seen as one set, and
//! the `call_agent` definition that lookups find besides them.

use vstd::prelude::*;

use super::coding_tools::{coding_table, coding_tool_defs};
use super::file_tools::{file_table, file_tool_defs};
use super::flow::{
    flow_table, flow_tool_defs, flow_tool_metadata, is_flow_tool, spec_flow_tool_metadata,
    CALL_AGENT_TOOL_NAME,
};
use super::memory::{memory_table, memory_tool_defs, REFLECTION_TOOL_NAME};
use super::schema::def_api_json;
use super::vfs_tools::{vfs_table, vfs_tool_defs};
use crate::json::{jsons_view, Json, JsonView};
use crate::text::str_eq;
use super::{
    concat_defs, def_summary, has_def_named, lookup, strs_view, table_names, take_def_named,
    table_of, BuiltinToolDef, DefSummary, ToolMetadata, ToolPropertyDef,
};

verus! {

/// The summary of the `call_agent` definition.
pub open spec fn call_agent_table() -> Seq<DefSummary> {
    seq![
        DefSummary {
            name: "call_agent"@,
            required: Seq::<Seq<char>>::empty(),
            summary_params: Seq::<Seq<char>>::empty(),
            property_names: seq!["prompt"@],
        },
    ]
}

/// The definition of `call_agent`: the hand-off that keeps the agent
/// working. It is kept for the fallback and hook mechanisms and for lookups
/// here; it is not offered to the model (it is in none of the tool groups
/// and none of the API lists).
pub fn call_agent_tool_defs() -> (r: Vec<BuiltinToolDef>)
    ensures
        table_of(r@) == call_agent_table(),
{
    let r = vec![
        BuiltinToolDef {
            name: "call_agent",
            description: "Hand control back to the agent and continue processing with the given prompt, instead of ending the turn.",
            properties: vec![
                ToolPropertyDef {
                    name: "prompt",
                    prop_type: "string",
                    description: "Prompt to continue with.",
                    default: None,
                },
            ],
            required: Vec::new(),
            summary_params: Vec::new(),
        },
    ];
    proof {
        reveal_strlit("call_agent");
        reveal_strlit("prompt");
        assert(r@[0].properties@.map_values(|p: ToolPropertyDef| p.name@) =~= seq!["prompt"@]);
        assert(strs_view(r@[0].required@) =~= Seq::<Seq<char>>::empty());
        assert(strs_view(r@[0].summary_params@) =~= Seq::<Seq<char>>::empty());
        assert(table_of(r@) =~= call_agent_table());
    }
    r
}

/// The definitions searched by the builtin lookups, in order: the memory
/// group, the flow group, then `call_agent`.
pub open spec fn builtin_lookup_table() -> Seq<DefSummary> {
    memory_table() + flow_table() + call_agent_table()
}

/// Check if a tool name is a core builtin tool: a memory or flow tool, or
/// `call_agent`.
pub fn is_builtin_tool(name: &str) -> (r: bool)
    ensures
        r == (table_names(memory_table()).contains(name@) || table_names(flow_table()).contains(
            name@,
        ) || name@ == CALL_AGENT_TOOL_NAME@),
{
    has_def_named(&memory_tool_defs(), name) || is_flow_tool(name) || str_eq(
        name,
        CALL_AGENT_TOOL_NAME,
    )
}

/// Look up a builtin tool definition by name in the memory and flow groups
/// and `call_agent`.
pub fn get_builtin_tool_def(name: &str) -> (r: Option<BuiltinToolDef>)
    ensures
        match r {
            Some(d) => lookup(builtin_lookup_table(), name@) == Some(def_summary(d)),
            None => lookup(builtin_lookup_table(), name@) is None,
        },
{
    take_def_named(
        concat_defs(concat_defs(memory_tool_defs(), flow_tool_defs()), call_agent_tool_defs()),
        name,
    )
}

/// Get metadata for builtin tools (the flow tools' metadata).
pub fn builtin_tool_metadata(name: &str) -> (m: ToolMetadata)
    ensures
        m == spec_flow_tool_metadata(name@),
{
    flow_tool_metadata(name)
}

/// The groups searched, in order, for summary parameters.
pub open spec fn summary_search_table() -> Seq<super::DefSummary> {
    memory_table() + flow_table() + file_table() + coding_table() + vfs_table()
}

/// Look up summary_params for a built-in tool by name across the memory,
/// flow, file, coding and vfs groups. Empty when the tool is not found.
pub fn builtin_summary_params(name: &str) -> (r: Vec<&'static str>)
    ensures
        strs_view(r@) == match lookup(summary_search_table(), name@) {
            Some(d) => d.summary_params,
            None => Seq::empty(),
        },
{
    let all = concat_defs(
        concat_defs(
            concat_defs(concat_defs(memory_tool_defs(), flow_tool_defs()), file_tool_defs()),
            coding_tool_defs(),
        ),
        vfs_tool_defs(),
    );
    match take_def_named(all, name) {
        Some(d) => d.summary_params,
        None => {
            let r: Vec<&'static str> = Vec::new();
            assert(strs_view(r@) =~= Seq::<Seq<char>>::empty());
            r
        },
    }
}

/// Whether a definition is offered: everything, or everything but the
/// reflection tool.
pub open spec fn offered(d: BuiltinToolDef, include_reflection: bool) -> bool {
    include_reflection || d.name@ != REFLECTION_TOOL_NAME@
}

/// The API forms of the offered definitions, in order.
pub open spec fn offered_api_jsons(defs: Seq<BuiltinToolDef>, include_reflection: bool) -> Seq<
    JsonView,
>
    decreases defs.len(),
{
    if defs.len() == 0 {
        Seq::empty()
    } else {
        let rest = offered_api_jsons(defs.drop_last(), include_reflection);
        if offered(defs.last(), include_reflection) {
            rest.push(def_api_json(defs.last()))
        } else {
            rest
        }
    }
}

/// Appends the API forms of the offered definitions of `defs` to `out`.
fn push_offered(out: &mut Vec<Json>, defs: &Vec<BuiltinToolDef>, include_reflection: bool)
    ensures
        jsons_view(final(out)@) == jsons_view(old(out)@) + offered_api_jsons(
            defs@,
            include_reflection,
        ),
{
    let ghost start = jsons_view(out@);
    let n = defs.len();
    let mut i: usize = 0;
    while i < n
        invariant
            n == defs@.len(),
            i <= n,
            jsons_view(out@) =~= start + offered_api_jsons(defs@.take(i as int), include_reflection),
        decreases n - i,
    {
        let d = &defs[i];
        assert(defs@.take(i + 1).drop_last() =~= defs@.take(i as int));
        assert(defs@.take(i + 1).last() == *d);
        let ghost before = jsons_view(out@);
        let ghost prev = offered_api_jsons(defs@.take(i as int), include_reflection);
        if include_reflection || !str_eq(d.name, REFLECTION_TOOL_NAME) {
            let j = d.to_api_format();
            out.push(j);
            assert(jsons_view(out@) =~= before.push(def_api_json(*d)));
            assert(offered_api_jsons(defs@.take(i + 1), include_reflection) == prev.push(
                def_api_json(*d),
            ));
        } else {
            assert(offered_api_jsons(defs@.take(i + 1), include_reflection) == prev);
        }
        i = i + 1;
    }
    assert(defs@.take(n as int) =~= defs@);
}

/// The memory and flow tools in API form.
pub fn all_builtin_tools_to_api_format() -> (r: Vec<Json>)
    ensures
        exists|m: Seq<BuiltinToolDef>, f: Seq<BuiltinToolDef>|
            table_of(m) == memory_table() && table_of(f) == flow_table() && jsons_view(r@)
                == offered_api_jsons(m, true) + offered_api_jsons(f, true),
{
    builtin_tools_to_api_format(true)
}

/// The memory and flow tools in API form; without `include_reflection` the
/// reflection tool is left out.
pub fn builtin_tools_to_api_format(include_reflection: bool) -> (r: Vec<Json>)
    ensures
        exists|m: Seq<BuiltinToolDef>, f: Seq<BuiltinToolDef>|
            table_of(m) == memory_table() && table_of(f) == flow_table() && jsons_view(r@)
                == offered_api_jsons(m, include_reflection) + offered_api_jsons(f, true),
{
    let m = memory_tool_defs();
    let f = flow_tool_defs();
    let mut out: Vec<Json> = Vec::new();
    push_offered(&mut out, &m, include_reflection);
    push_offered(&mut out, &f, true);
    assert(jsons_view(Seq::<Json>::empty()) =~= Seq::<JsonView>::empty());
    assert(table_of(m@) == memory_table() && table_of(f@) == flow_table());
    out
}

} // verus!
