//! File tools: file reading, cache listing and file writing as one group,
//! for callers that address them together.

use vstd::prelude::*;
use super::schema::{def_api_json, defs_to_api_format};
use crate::json::{jsons_view, Json};

use super::{
    def_summary, has_def_named, lookup, table_names, table_of, take_def_named, BuiltinToolDef,
    DefSummary, ToolPropertyDef,
};

verus! {

pub const FILE_HEAD_TOOL_NAME: &'static str = "file_head";
pub const FILE_TAIL_TOOL_NAME: &'static str = "file_tail";
pub const FILE_LINES_TOOL_NAME: &'static str = "file_lines";
pub const FILE_GREP_TOOL_NAME: &'static str = "file_grep";
pub const CACHE_LIST_TOOL_NAME: &'static str = "cache_list";
pub const WRITE_FILE_TOOL_NAME: &'static str = "write_file";

/// The summaries of the file tool definitions.
pub open spec fn file_table() -> Seq<DefSummary> {
    seq![
        DefSummary {
            name: "file_head"@,
            required: Seq::<Seq<char>>::empty(),
            summary_params: seq!["path"@],
            property_names: seq!["cache_id"@, "path"@, "lines"@],
        },
        DefSummary {
            name: "file_tail"@,
            required: Seq::<Seq<char>>::empty(),
            summary_params: seq!["path"@],
            property_names: seq!["cache_id"@, "path"@, "lines"@],
        },
        DefSummary {
            name: "file_lines"@,
            required: seq!["start"@, "end"@],
            summary_params: seq!["path"@],
            property_names: seq!["cache_id"@, "path"@, "start"@, "end"@],
        },
        DefSummary {
            name: "file_grep"@,
            required: seq!["pattern"@],
            summary_params: seq!["pattern"@, "path"@],
            property_names: seq!["cache_id"@, "path"@, "pattern"@, "context_before"@, "context_after"@],
        },
        DefSummary {
            name: "cache_list"@,
            required: Seq::<Seq<char>>::empty(),
            summary_params: Seq::<Seq<char>>::empty(),
            property_names: Seq::<Seq<char>>::empty(),
        },
        DefSummary {
            name: "write_file"@,
            required: seq!["path"@, "content"@],
            summary_params: seq!["path"@],
            property_names: seq!["path"@, "content"@],
        },
    ]
}

/// All file tool definitions.
pub fn file_tool_defs() -> (r: Vec<BuiltinToolDef>)
    ensures
        table_of(r@) == file_table(),
{
    let r = vec![
        BuiltinToolDef {
            name: "file_head",
            description: "Read the first N lines from a cached tool output or file. Use this to examine the beginning of large outputs.",
            properties: vec![
                ToolPropertyDef {
                    name: "cache_id",
                    prop_type: "string",
                    description: "ID of a cached tool output (from [Output cached: ID] messages)",
                    default: None,
                },
                ToolPropertyDef {
                    name: "path",
                    prop_type: "string",
                    description: "Path to a file (if not using cache_id)",
                    default: None,
                },
                ToolPropertyDef {
                    name: "lines",
                    prop_type: "integer",
                    description: "Number of lines to read (default: 50)",
                    default: Some(50),
                },
            ],
            required: Vec::new(),
            summary_params: vec!["path"],
        },
        BuiltinToolDef {
            name: "file_tail",
            description: "Read the last N lines from a cached tool output or file. Use this to examine the end of large outputs.",
            properties: vec![
                ToolPropertyDef {
                    name: "cache_id",
                    prop_type: "string",
                    description: "ID of a cached tool output (from [Output cached: ID] messages)",
                    default: None,
                },
                ToolPropertyDef {
                    name: "path",
                    prop_type: "string",
                    description: "Path to a file (if not using cache_id)",
                    default: None,
                },
                ToolPropertyDef {
                    name: "lines",
                    prop_type: "integer",
                    description: "Number of lines to read (default: 50)",
                    default: Some(50),
                },
            ],
            required: Vec::new(),
            summary_params: vec!["path"],
        },
        BuiltinToolDef {
            name: "file_lines",
            description: "Read a specific range of lines from a cached tool output or file. Lines are 1-indexed.",
            properties: vec![
                ToolPropertyDef {
                    name: "cache_id",
                    prop_type: "string",
                    description: "ID of a cached tool output (from [Output cached: ID] messages)",
                    default: None,
                },
                ToolPropertyDef {
                    name: "path",
                    prop_type: "string",
                    description: "Path to a file (if not using cache_id)",
                    default: None,
                },
                ToolPropertyDef {
                    name: "start",
                    prop_type: "integer",
                    description: "First line number (1-indexed)",
                    default: None,
                },
                ToolPropertyDef {
                    name: "end",
                    prop_type: "integer",
                    description: "Last line number (1-indexed, inclusive)",
                    default: None,
                },
            ],
            required: vec!["start", "end"],
            summary_params: vec!["path"],
        },
        BuiltinToolDef {
            name: "file_grep",
            description: "Search for a pattern in a cached tool output or file. Returns matching lines with optional context.",
            properties: vec![
                ToolPropertyDef {
                    name: "cache_id",
                    prop_type: "string",
                    description: "ID of a cached tool output (from [Output cached: ID] messages)",
                    default: None,
                },
                ToolPropertyDef {
                    name: "path",
                    prop_type: "string",
                    description: "Path to a file (if not using cache_id)",
                    default: None,
                },
                ToolPropertyDef {
                    name: "pattern",
                    prop_type: "string",
                    description: "Regular expression pattern to search for",
                    default: None,
                },
                ToolPropertyDef {
                    name: "context_before",
                    prop_type: "integer",
                    description: "Number of lines to show before each match (default: 2)",
                    default: Some(2),
                },
                ToolPropertyDef {
                    name: "context_after",
                    prop_type: "integer",
                    description: "Number of lines to show after each match (default: 2)",
                    default: Some(2),
                },
            ],
            required: vec!["pattern"],
            summary_params: vec!["pattern", "path"],
        },
        BuiltinToolDef {
            name: "cache_list",
            description: "List all cached tool outputs for this context. Shows cache IDs, tool names, sizes, and timestamps.",
            properties: Vec::new(),
            required: Vec::new(),
            summary_params: Vec::new(),
        },
        BuiltinToolDef {
            name: "write_file",
            description: "Write content to a file. Creates the file if it doesn't exist, overwrites if it does. Requires user permission.",
            properties: vec![
                ToolPropertyDef {
                    name: "path",
                    prop_type: "string",
                    description: "Absolute or relative path to write to",
                    default: None,
                },
                ToolPropertyDef {
                    name: "content",
                    prop_type: "string",
                    description: "Content to write to the file",
                    default: None,
                },
            ],
            required: vec!["path", "content"],
            summary_params: vec!["path"],
        },
    ];
    assert(table_of(r@) =~~= file_table());
    r
}


/// Check if a tool name is a file tool.
pub fn is_file_tool(name: &str) -> (r: bool)
    ensures
        r == table_names(file_table()).contains(name@),
{
    has_def_named(&file_tool_defs(), name)
}

/// Look up a specific file tool definition by name.
pub fn get_file_tool_def(name: &str) -> (r: Option<BuiltinToolDef>)
    ensures
        match r {
            Some(d) => lookup(file_table(), name@) == Some(def_summary(d)),
            None => lookup(file_table(), name@) is None,
        },
{
    take_def_named(file_tool_defs(), name)
}


/// All of the file tools in API form, in the order of their definitions.
pub fn all_file_tools_to_api_format() -> (r: Vec<Json>)
    ensures
        exists|defs: Seq<BuiltinToolDef>|
            table_of(defs) == file_table() && jsons_view(r@) == defs.map_values(
                |d: BuiltinToolDef| def_api_json(d),
            ),
{
    let defs = file_tool_defs();
    let r = defs_to_api_format(&defs);
    assert(table_of(defs@) == file_table());
    r
}

} // verus!
