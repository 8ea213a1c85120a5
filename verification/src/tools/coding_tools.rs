//! Coding tools: shell, directory, search, edit, index and fetch tools as one
//! group, for callers that address them together.

use vstd::prelude::*;
use super::schema::{def_api_json, defs_to_api_format};
use crate::json::{jsons_view, Json};

use super::{has_def_named, table_names, table_of, BuiltinToolDef, DefSummary, ToolPropertyDef};
use crate::text::{has_prefix, push_str, str_starts_with, to_chars};

verus! {

pub const SHELL_EXEC_TOOL_NAME: &'static str = "shell_exec";
pub const DIR_LIST_TOOL_NAME: &'static str = "dir_list";
pub const GLOB_FILES_TOOL_NAME: &'static str = "glob_files";
pub const GREP_FILES_TOOL_NAME: &'static str = "grep_files";
pub const FILE_EDIT_TOOL_NAME: &'static str = "file_edit";
pub const INDEX_UPDATE_TOOL_NAME: &'static str = "index_update";
pub const INDEX_QUERY_TOOL_NAME: &'static str = "index_query";
pub const INDEX_STATUS_TOOL_NAME: &'static str = "index_status";
pub const FETCH_URL_TOOL_NAME: &'static str = "fetch_url";

/// The summaries of the coding tool definitions.
pub open spec fn coding_table() -> Seq<DefSummary> {
    seq![
        DefSummary {
            name: "shell_exec"@,
            required: seq!["command"@],
            summary_params: seq!["command"@],
            property_names: seq!["command"@, "timeout_secs"@],
        },
        DefSummary {
            name: "dir_list"@,
            required: seq!["path"@],
            summary_params: seq!["path"@],
            property_names: seq!["path"@, "depth"@, "show_hidden"@],
        },
        DefSummary {
            name: "glob_files"@,
            required: seq!["pattern"@],
            summary_params: seq!["pattern"@],
            property_names: seq!["pattern"@, "path"@, "max_results"@],
        },
        DefSummary {
            name: "grep_files"@,
            required: seq!["pattern"@],
            summary_params: seq!["pattern"@, "path"@],
            property_names: seq!["pattern"@, "path"@, "file_pattern"@, "context_lines"@, "max_results"@],
        },
        DefSummary {
            name: "file_edit"@,
            required: seq!["path"@, "operation"@],
            summary_params: seq!["path"@],
            property_names: seq!["path"@, "operation"@, "line_start"@, "line_end"@, "content"@, "find"@, "replace"@],
        },
        DefSummary {
            name: "index_update"@,
            required: Seq::<Seq<char>>::empty(),
            summary_params: Seq::<Seq<char>>::empty(),
            property_names: seq!["force"@],
        },
        DefSummary {
            name: "index_query"@,
            required: Seq::<Seq<char>>::empty(),
            summary_params: seq!["name"@, "kind"@],
            property_names: seq!["name"@, "kind"@, "file"@, "refs_to"@, "limit"@],
        },
        DefSummary {
            name: "index_status"@,
            required: Seq::<Seq<char>>::empty(),
            summary_params: Seq::<Seq<char>>::empty(),
            property_names: Seq::<Seq<char>>::empty(),
        },
        DefSummary {
            name: "fetch_url"@,
            required: seq!["url"@],
            summary_params: seq!["url"@],
            property_names: seq!["url"@, "max_bytes"@, "timeout_secs"@],
        },
    ]
}

/// All coding tool definitions.
pub fn coding_tool_defs() -> (r: Vec<BuiltinToolDef>)
    ensures
        table_of(r@) == coding_table(),
{
    let r = vec![
        BuiltinToolDef {
            name: "shell_exec",
            description: "Execute a shell command and return stdout, stderr, exit code, and whether it timed out. Commands run via `sh -c`. Use for build, test, and general shell tasks.",
            properties: vec![
                ToolPropertyDef {
                    name: "command",
                    prop_type: "string",
                    description: "Shell command to execute",
                    default: None,
                },
                ToolPropertyDef {
                    name: "timeout_secs",
                    prop_type: "integer",
                    description: "Timeout in seconds before the process is killed (default: 30)",
                    default: Some(30),
                },
            ],
            required: vec!["command"],
            summary_params: vec!["command"],
        },
        BuiltinToolDef {
            name: "dir_list",
            description: "List a directory tree with file sizes and type indicators. Respects depth limit. Paths are relative to project_root unless absolute.",
            properties: vec![
                ToolPropertyDef {
                    name: "path",
                    prop_type: "string",
                    description: "Directory to list (default: project root)",
                    default: None,
                },
                ToolPropertyDef {
                    name: "depth",
                    prop_type: "integer",
                    description: "Maximum recursion depth (default: 1)",
                    default: Some(1),
                },
                ToolPropertyDef {
                    name: "show_hidden",
                    prop_type: "string",
                    description: "Include hidden files and directories (\"true\"/\"false\", default: \"false\")",
                    default: None,
                },
            ],
            required: vec!["path"],
            summary_params: vec!["path"],
        },
        BuiltinToolDef {
            name: "glob_files",
            description: "Find files matching a glob pattern under a directory, honouring .gitignore. Returns relative paths, one per line.",
            properties: vec![
                ToolPropertyDef {
                    name: "pattern",
                    prop_type: "string",
                    description: "Glob pattern to match (e.g. \"**/*.rs\")",
                    default: None,
                },
                ToolPropertyDef {
                    name: "path",
                    prop_type: "string",
                    description: "Root directory to search in (default: \".\")",
                    default: None,
                },
                ToolPropertyDef {
                    name: "max_results",
                    prop_type: "integer",
                    description: "Maximum number of paths to return (default: 100)",
                    default: Some(100),
                },
            ],
            required: vec!["pattern"],
            summary_params: vec!["pattern"],
        },
        BuiltinToolDef {
            name: "grep_files",
            description: "Search files for a regex pattern, honouring .gitignore. Output format: `file:line: content` with optional context lines.",
            properties: vec![
                ToolPropertyDef {
                    name: "pattern",
                    prop_type: "string",
                    description: "Regular expression pattern to search for",
                    default: None,
                },
                ToolPropertyDef {
                    name: "path",
                    prop_type: "string",
                    description: "Root directory to search in (default: \".\")",
                    default: None,
                },
                ToolPropertyDef {
                    name: "file_pattern",
                    prop_type: "string",
                    description: "Optional glob to restrict which files are searched (e.g. \"*.rs\")",
                    default: None,
                },
                ToolPropertyDef {
                    name: "context_lines",
                    prop_type: "integer",
                    description: "Lines of context to show before and after each match (default: 2)",
                    default: Some(2),
                },
                ToolPropertyDef {
                    name: "max_results",
                    prop_type: "integer",
                    description: "Maximum number of matches to return (default: 50)",
                    default: Some(50),
                },
            ],
            required: vec!["pattern"],
            summary_params: vec!["pattern", "path"],
        },
        BuiltinToolDef {
            name: "file_edit",
            description: "Edit a file using structured operations: replace_lines, insert_before, insert_after, delete_lines, replace_string. All line numbers are 1-indexed. Writes are atomic.",
            properties: vec![
                ToolPropertyDef {
                    name: "path",
                    prop_type: "string",
                    description: "Path to the file to edit",
                    default: None,
                },
                ToolPropertyDef {
                    name: "operation",
                    prop_type: "string",
                    description: "Edit operation: replace_lines | insert_before | insert_after | delete_lines | replace_string",
                    default: None,
                },
                ToolPropertyDef {
                    name: "line_start",
                    prop_type: "integer",
                    description: "First line number (1-indexed, required for line operations)",
                    default: None,
                },
                ToolPropertyDef {
                    name: "line_end",
                    prop_type: "integer",
                    description: "Last line number (1-indexed, inclusive, required for replace_lines and delete_lines)",
                    default: None,
                },
                ToolPropertyDef {
                    name: "content",
                    prop_type: "string",
                    description: "Text to insert or use as replacement (required for replace_lines, insert_before, insert_after)",
                    default: None,
                },
                ToolPropertyDef {
                    name: "find",
                    prop_type: "string",
                    description: "Exact string to find (required for replace_string)",
                    default: None,
                },
                ToolPropertyDef {
                    name: "replace",
                    prop_type: "string",
                    description: "Replacement string (required for replace_string)",
                    default: None,
                },
            ],
            required: vec!["path", "operation"],
            summary_params: vec!["path"],
        },
        BuiltinToolDef {
            name: "index_update",
            description: "Trigger a codebase index update. Walks the project tree, detects changed files, and dispatches to language plugins for symbol extraction. Returns a summary of what was indexed.",
            properties: vec![
                ToolPropertyDef {
                    name: "force",
                    prop_type: "string",
                    description: "Force re-index of all files, ignoring change detection (\"true\"/\"false\", default: \"false\")",
                    default: None,
                },
            ],
            required: Vec::new(),
            summary_params: Vec::new(),
        },
        BuiltinToolDef {
            name: "index_query",
            description: "Search the codebase index for symbols or references. Use `name`/`kind`/`file` to query symbols, or `refs_to` to find references to a name. Returns formatted results.",
            properties: vec![
                ToolPropertyDef {
                    name: "name",
                    prop_type: "string",
                    description: "Filter symbols by name (substring match, case-insensitive)",
                    default: None,
                },
                ToolPropertyDef {
                    name: "kind",
                    prop_type: "string",
                    description: "Filter symbols by kind (exact match, e.g. \"function\", \"struct\")",
                    default: None,
                },
                ToolPropertyDef {
                    name: "file",
                    prop_type: "string",
                    description: "Filter symbols by file path (substring match)",
                    default: None,
                },
                ToolPropertyDef {
                    name: "refs_to",
                    prop_type: "string",
                    description: "Find references to this name (substring match). When set, name/kind/file are ignored.",
                    default: None,
                },
                ToolPropertyDef {
                    name: "limit",
                    prop_type: "integer",
                    description: "Maximum number of results to return (default: 50)",
                    default: Some(50),
                },
            ],
            required: Vec::new(),
            summary_params: vec!["name", "kind"],
        },
        BuiltinToolDef {
            name: "index_status",
            description: "Show a summary of the codebase index: file counts, language breakdown, symbol and reference totals.",
            properties: Vec::new(),
            required: Vec::new(),
            summary_params: Vec::new(),
        },
        BuiltinToolDef {
            name: "fetch_url",
            description: "Fetch content from a URL via HTTP GET and return the response body. Follows redirects. Use for retrieving web pages, API responses, or raw file content.",
            properties: vec![
                ToolPropertyDef {
                    name: "url",
                    prop_type: "string",
                    description: "URL to fetch (must start with http:// or https://)",
                    default: None,
                },
                ToolPropertyDef {
                    name: "max_bytes",
                    prop_type: "integer",
                    description: "Maximum response body size in bytes (default: 1048576 = 1MB)",
                    default: Some(1048576),
                },
                ToolPropertyDef {
                    name: "timeout_secs",
                    prop_type: "integer",
                    description: "Request timeout in seconds (default: 30)",
                    default: Some(30),
                },
            ],
            required: vec!["url"],
            summary_params: vec!["url"],
        },
    ];
    assert(table_of(r@) =~~= coding_table());
    r
}


/// Check if a tool name belongs to the coding tool set.
pub fn is_coding_tool(name: &str) -> (r: bool)
    ensures
        r == table_names(coding_table()).contains(name@),
{
    has_def_named(&coding_tool_defs(), name)
}

/// `path` joined onto `base` as `Path::join` does for Unix paths: an
/// absolute `path` replaces `base`; otherwise a `'/'` separates the two
/// unless `base` is empty or already ends with one.
pub open spec fn spec_join_path(base: Seq<char>, path: Seq<char>) -> Seq<char> {
    if has_prefix(path, "/"@) {
        path
    } else if base.len() == 0 || base.last() == '/' {
        base + path
    } else {
        base + "/"@ + path
    }
}

/// Resolve a path string relative to `project_root`: absolute paths are
/// returned as-is, relative paths are joined with `project_root`.
pub fn resolve_path(project_root: &str, path_str: &str) -> (r: String)
    ensures
        r@ == spec_join_path(project_root@, path_str@),
{
    let mut out = String::new();
    if str_starts_with(path_str, "/") {
        push_str(&mut out, path_str);
        return out;
    }
    push_str(&mut out, project_root);
    let root = to_chars(project_root);
    if root.len() > 0 && root[root.len() - 1] != '/' {
        push_str(&mut out, "/");
    }
    push_str(&mut out, path_str);
    out
}


/// All of the coding tools in API form, in the order of their definitions.
pub fn all_coding_tools_to_api_format() -> (r: Vec<Json>)
    ensures
        exists|defs: Seq<BuiltinToolDef>|
            table_of(defs) == coding_table() && jsons_view(r@) == defs.map_values(
                |d: BuiltinToolDef| def_api_json(d),
            ),
{
    let defs = coding_tool_defs();
    let r = defs_to_api_format(&defs);
    assert(table_of(defs@) == coding_table());
    r
}

} // verus!
