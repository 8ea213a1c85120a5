//! Index tools: codebase index management.
//! index_update, index_query, index_status.

use vstd::prelude::*;
use super::schema::{def_api_json, defs_to_api_format};
use crate::json::{jsons_view, Json};

use super::{has_def_named, table_names, table_of, BuiltinToolDef, DefSummary, ToolPropertyDef};

verus! {

pub const INDEX_UPDATE_TOOL_NAME: &'static str = "index_update";
pub const INDEX_QUERY_TOOL_NAME: &'static str = "index_query";
pub const INDEX_STATUS_TOOL_NAME: &'static str = "index_status";

/// The summaries of the index tool definitions.
pub open spec fn index_table() -> Seq<DefSummary> {
    seq![
        DefSummary {
            name: "index_update"@,
            required: Seq::<Seq<char>>::empty(),
            summary_params: Seq::<Seq<char>>::empty(),
            property_names: seq!["force"@],
        },
        DefSummary {
            name: "index_query"@,
            required: Seq::<Seq<char>>::empty(),
            summary_params: seq!["name"@, "kind"@],
            property_names: seq!["name"@, "kind"@, "file"@, "refs_to"@, "limit"@],
        },
        DefSummary {
            name: "index_status"@,
            required: Seq::<Seq<char>>::empty(),
            summary_params: Seq::<Seq<char>>::empty(),
            property_names: Seq::<Seq<char>>::empty(),
        },
    ]
}

/// All index tool definitions.
pub fn index_tool_defs() -> (r: Vec<BuiltinToolDef>)
    ensures
        table_of(r@) == index_table(),
{
    let r = vec![
        BuiltinToolDef {
            name: "index_update",
            description: "Trigger a codebase index update. Walks the project tree, detects changed files, and dispatches to language plugins for symbol extraction. Returns a summary of what was indexed.",
            properties: vec![
                ToolPropertyDef {
                    name: "force",
                    prop_type: "string",
                    description: "Force re-index of all files, ignoring change detection (\"true\"/\"false\", default: \"false\")",
                    default: None,
                },
            ],
            required: Vec::new(),
            summary_params: Vec::new(),
        },
        BuiltinToolDef {
            name: "index_query",
            description: "Search the codebase index for symbols or references. Use `name`/`kind`/`file` to query symbols, or `refs_to` to find references to a name. Returns formatted results.",
            properties: vec![
                ToolPropertyDef {
                    name: "name",
                    prop_type: "string",
                    description: "Filter symbols by name (substring match, case-insensitive)",
                    default: None,
                },
                ToolPropertyDef {
                    name: "kind",
                    prop_type: "string",
                    description: "Filter symbols by kind (exact match, e.g. \"function\", \"struct\")",
                    default: None,
                },
                ToolPropertyDef {
                    name: "file",
                    prop_type: "string",
                    description: "Filter symbols by file path (substring match)",
                    default: None,
                },
                ToolPropertyDef {
                    name: "refs_to",
                    prop_type: "string",
                    description: "Find references to this name (substring match). When set, name/kind/file are ignored.",
                    default: None,
                },
                ToolPropertyDef {
                    name: "limit",
                    prop_type: "integer",
                    description: "Maximum number of results to return (default: 50)",
                    default: Some(50),
                },
            ],
            required: Vec::new(),
            summary_params: vec!["name", "kind"],
        },
        BuiltinToolDef {
            name: "index_status",
            description: "Show a summary of the codebase index: file counts, language breakdown, symbol and reference totals.",
            properties: Vec::new(),
            required: Vec::new(),
            summary_params: Vec::new(),
        },
    ];
    assert(table_of(r@) =~~= index_table());
    r
}


/// Check if a tool name belongs to the index group.
pub fn is_index_tool(name: &str) -> (r: bool)
    ensures
        r == table_names(index_table()).contains(name@),
{
    has_def_named(&index_tool_defs(), name)
}


/// All of the index tools in API form, in the order of their definitions.
pub fn all_index_tools_to_api_format() -> (r: Vec<Json>)
    ensures
        exists|defs: Seq<BuiltinToolDef>|
            table_of(defs) == index_table() && jsons_view(r@) == defs.map_values(
                |d: BuiltinToolDef| def_api_json(d),
            ),
{
    let defs = index_tool_defs();
    let r = defs_to_api_format(&defs);
    assert(table_of(defs@) == index_table());
    r
}

} // verus!
