//! Agent tools: `spawn_agent` and `summarize_content` as one group, for
//! callers that address them together.

use vstd::prelude::*;

use super::{
    def_summary, has_def_named, lookup, table_names, table_of, take_def_named, BuiltinToolDef,
    DefSummary, ToolPropertyDef,
};
use crate::json::{jsons_view, Json};
use crate::tools::flow::{flow_api_json, flow_tools_to_api_format, spec_is_url};

verus! {

pub const SPAWN_AGENT_TOOL_NAME: &'static str = "spawn_agent";
pub const SUMMARIZE_CONTENT_TOOL_NAME: &'static str = "summarize_content";

/// The summaries of the agent tool definitions.
pub open spec fn agent_table() -> Seq<DefSummary> {
    seq![
        DefSummary {
            name: "spawn_agent"@,
            required: seq!["system_prompt"@, "input"@],
            summary_params: Seq::<Seq<char>>::empty(),
            property_names: seq!["system_prompt"@, "input"@, "model"@, "temperature"@, "max_tokens"@, "preset"@],
        },
        DefSummary {
            name: "summarize_content"@,
            required: seq!["source"@, "instructions"@],
            summary_params: seq!["source"@],
            property_names: seq!["source"@, "instructions"@, "model"@, "temperature"@, "max_tokens"@],
        },
    ]
}

/// All agent tool definitions.
pub fn agent_tool_defs() -> (r: Vec<BuiltinToolDef>)
    ensures
        table_of(r@) == agent_table(),
{
    let r = vec![
        BuiltinToolDef {
            name: "spawn_agent",
            description: "Spawn a sub-agent with a custom system prompt to process input. Returns the sub-agent's response. Use for analysis, summarization, translation, or any task benefiting from a focused system prompt.",
            properties: vec![
                ToolPropertyDef {
                    name: "system_prompt",
                    prop_type: "string",
                    description: "System prompt for the sub-agent",
                    default: None,
                },
                ToolPropertyDef {
                    name: "input",
                    prop_type: "string",
                    description: "Content for the sub-agent to process",
                    default: None,
                },
                ToolPropertyDef {
                    name: "model",
                    prop_type: "string",
                    description: "Model override (defaults to parent's model)",
                    default: None,
                },
                ToolPropertyDef {
                    name: "temperature",
                    prop_type: "number",
                    description: "Temperature override for the sub-agent",
                    default: None,
                },
                ToolPropertyDef {
                    name: "max_tokens",
                    prop_type: "integer",
                    description: "Max tokens override for the sub-agent",
                    default: None,
                },
                ToolPropertyDef {
                    name: "preset",
                    prop_type: "string",
                    description: "PRESET_DESCRIPTION_PLACEHOLDER",
                    default: None,
                },
            ],
            required: vec!["system_prompt", "input"],
            summary_params: Vec::new(),
        },
        BuiltinToolDef {
            name: "summarize_content",
            description: "Read a file or fetch a URL, then summarize or process the content through a sub-agent with your instructions. Use for summarizing documents, extracting information, or analyzing content.",
            properties: vec![
                ToolPropertyDef {
                    name: "source",
                    prop_type: "string",
                    description: "File path or URL to read",
                    default: None,
                },
                ToolPropertyDef {
                    name: "instructions",
                    prop_type: "string",
                    description: "How to process/summarize the content",
                    default: None,
                },
                ToolPropertyDef {
                    name: "model",
                    prop_type: "string",
                    description: "Model override (defaults to parent's model)",
                    default: None,
                },
                ToolPropertyDef {
                    name: "temperature",
                    prop_type: "number",
                    description: "Temperature override for the sub-agent",
                    default: None,
                },
                ToolPropertyDef {
                    name: "max_tokens",
                    prop_type: "integer",
                    description: "Max tokens override for the sub-agent",
                    default: None,
                },
            ],
            required: vec!["source", "instructions"],
            summary_params: vec!["source"],
        },
    ];
    assert(table_of(r@) =~~= agent_table());
    r
}


/// Check if a tool name is an agent tool.
pub fn is_agent_tool(name: &str) -> (r: bool)
    ensures
        r == table_names(agent_table()).contains(name@),
{
    has_def_named(&agent_tool_defs(), name)
}

/// Look up a specific agent tool definition by name.
pub fn get_agent_tool_def(name: &str) -> (r: Option<BuiltinToolDef>)
    ensures
        match r {
            Some(d) => lookup(agent_table(), name@) == Some(def_summary(d)),
            None => lookup(agent_table(), name@) is None,
        },
{
    take_def_named(agent_tool_defs(), name)
}

/// Check if a source string is a URL (http:// or https://).
pub fn is_url(source: &str) -> (r: bool)
    ensures
        r == spec_is_url(source@),
{
    crate::tools::flow::is_url(source)
}


/// All of the agent tools in API form; `spawn_agent`'s `preset` parameter is
/// described for the given capabilities.
pub fn all_agent_tools_to_api_format(preset_capabilities: &[&str]) -> (r: Vec<Json>)
    ensures
        exists|defs: Seq<BuiltinToolDef>|
            table_of(defs) == agent_table() && jsons_view(r@) == defs.map_values(
                |d: BuiltinToolDef| flow_api_json(d, preset_capabilities@.map_values(|c: &str| c@)),
            ),
{
    let defs = agent_tool_defs();
    let r = flow_tools_to_api_format(&defs, preset_capabilities);
    assert(table_of(defs@) == agent_table());
    r
}

} // verus!
