use chibi_core::tools::agent_tools::{
    agent_tool_defs, get_agent_tool_def, is_agent_tool, SPAWN_AGENT_TOOL_NAME,
    SUMMARIZE_CONTENT_TOOL_NAME,
};
use chibi_core::tools::agent_tools::is_url as agent_is_url;
use chibi_core::tools::builtin::{builtin_summary_params, builtin_tool_metadata, get_builtin_tool_def, is_builtin_tool};
use chibi_core::tools::coding_tools::{
    coding_tool_defs, is_coding_tool, resolve_path, DIR_LIST_TOOL_NAME, FETCH_URL_TOOL_NAME,
    FILE_EDIT_TOOL_NAME, GLOB_FILES_TOOL_NAME, GREP_FILES_TOOL_NAME, INDEX_QUERY_TOOL_NAME,
    INDEX_STATUS_TOOL_NAME, INDEX_UPDATE_TOOL_NAME, SHELL_EXEC_TOOL_NAME,
};
use chibi_core::tools::eval::eval_tool_defs;
use chibi_core::tools::file_tools::{
    file_tool_defs, get_file_tool_def, is_file_tool, CACHE_LIST_TOOL_NAME, FILE_GREP_TOOL_NAME,
    FILE_HEAD_TOOL_NAME, FILE_LINES_TOOL_NAME, FILE_TAIL_TOOL_NAME, WRITE_FILE_TOOL_NAME,
};
use chibi_core::tools::fs_read;
use chibi_core::tools::fs_write;
use chibi_core::tools::index;
use chibi_core::tools::memory::{
    memory_tool_defs, GOALS_TOOL_NAME, READ_CONTEXT_TOOL_NAME, REFLECTION_TOOL_NAME,
};
use chibi_core::tools::network;

// === agent tools ===

#[test]
fn test_agent_tool_registry_contains_all_tools() {
    let defs = agent_tool_defs();
    assert_eq!(defs.len(), 2);
    let names: Vec<_> = defs.iter().map(|d| d.name).collect();
    assert!(names.contains(&SPAWN_AGENT_TOOL_NAME));
    assert!(names.contains(&SUMMARIZE_CONTENT_TOOL_NAME));
}

#[test]
fn agent_tools_test_tool_constants() {
    assert_eq!(SPAWN_AGENT_TOOL_NAME, "spawn_agent");
    assert_eq!(SUMMARIZE_CONTENT_TOOL_NAME, "summarize_content");
}

#[test]
fn test_is_agent_tool() {
    assert!(is_agent_tool(SPAWN_AGENT_TOOL_NAME));
    assert!(is_agent_tool(SUMMARIZE_CONTENT_TOOL_NAME));
    assert!(!is_agent_tool("file_head"));
    assert!(!is_agent_tool("other_tool"));
}

#[test]
fn test_get_agent_tool_def() {
    assert!(get_agent_tool_def(SPAWN_AGENT_TOOL_NAME).is_some());
    assert!(get_agent_tool_def(SUMMARIZE_CONTENT_TOOL_NAME).is_some());
    assert!(get_agent_tool_def("nonexistent").is_none());
}

#[test]
fn agent_tools_test_is_url() {
    assert!(agent_is_url("http://example.com"));
    assert!(agent_is_url("https://example.com/path"));
    assert!(!agent_is_url("/home/user/file.txt"));
    assert!(!agent_is_url("~/file.txt"));
    assert!(!agent_is_url("relative/path"));
}

// === builtin facade ===

#[test]
fn test_builtin_tool_metadata_call_agent() {
    let meta = builtin_tool_metadata("call_agent");
    assert!(!meta.parallel);
    assert!(meta.flow_control);
    assert!(!meta.ends_turn);
}

#[test]
fn test_builtin_tool_metadata_call_user() {
    let meta = builtin_tool_metadata("call_user");
    assert!(!meta.parallel);
    assert!(meta.flow_control);
    assert!(meta.ends_turn);
}

#[test]
fn test_builtin_tool_metadata_spawn_agent() {
    let meta = builtin_tool_metadata("spawn_agent");
    assert!(!meta.parallel);
    assert!(!meta.flow_control);
    assert!(!meta.ends_turn);
}

#[test]
fn test_builtin_tool_metadata_other() {
    let meta = builtin_tool_metadata("update_todos");
    assert!(meta.parallel);
    assert!(!meta.flow_control);
    assert!(!meta.ends_turn);
}

#[test]
fn test_is_builtin_tool() {
    assert!(is_builtin_tool("update_reflection"));
    assert!(is_builtin_tool("call_agent"));
    assert!(is_builtin_tool("send_message"));
    assert!(is_builtin_tool("spawn_agent"));
    assert!(!is_builtin_tool("shell_exec"));
    assert!(!is_builtin_tool("file_head"));
}

#[test]
fn test_get_builtin_tool_def_finds_all_groups() {
    assert!(get_builtin_tool_def("update_reflection").is_some());
    assert!(get_builtin_tool_def("read_context").is_some());
    assert!(get_builtin_tool_def("call_agent").is_some());
    assert!(get_builtin_tool_def("spawn_agent").is_some());
    assert!(get_builtin_tool_def("nonexistent_tool").is_none());
}

#[test]
fn test_call_agent_tool_api_format() {
    let tool = get_builtin_tool_def("call_agent")
        .expect("tool should exist in registry")
        .to_api_format();
    assert_eq!(tool.get("type").and_then(|t| t.as_str()).cloned(), Some("function".to_string()));
    let name = tool.get("function").and_then(|f| f.get("name")).and_then(|n| n.as_str()).cloned();
    assert_eq!(name, Some("call_agent".to_string()));
}

#[test]
fn call_agent_is_looked_up_but_not_offered() {
    assert_eq!(get_builtin_tool_def("spawn_agent").unwrap().name, "spawn_agent");
    assert!(!chibi_core::tools::flow::is_flow_tool("call_agent"));
    let names: Vec<String> = chibi_core::tools::builtin::all_builtin_tools_to_api_format()
        .iter()
        .map(|t| t.get("function").and_then(|f| f.get("name")).and_then(|n| n.as_str()).cloned().unwrap())
        .collect();
    assert!(!names.contains(&"call_agent".to_string()));
}

#[test]
fn builtin_summary_params_of_unknown_tool_is_empty() {
    assert!(builtin_summary_params("no_such_tool").is_empty());
    assert_eq!(builtin_summary_params("file_head"), vec!["path"]);
}

// === coding tools ===

#[test]
fn test_is_coding_tool() {
    assert!(is_coding_tool(SHELL_EXEC_TOOL_NAME));
    assert!(is_coding_tool(DIR_LIST_TOOL_NAME));
    assert!(is_coding_tool(GLOB_FILES_TOOL_NAME));
    assert!(is_coding_tool(GREP_FILES_TOOL_NAME));
    assert!(is_coding_tool(FILE_EDIT_TOOL_NAME));
    assert!(is_coding_tool(INDEX_UPDATE_TOOL_NAME));
    assert!(is_coding_tool(INDEX_QUERY_TOOL_NAME));
    assert!(is_coding_tool(INDEX_STATUS_TOOL_NAME));
    assert!(is_coding_tool(FETCH_URL_TOOL_NAME));
    assert!(!is_coding_tool("file_head"));
    assert!(!is_coding_tool("unknown_tool"));
}

#[test]
fn test_coding_tool_registry_contains_all_tools() {
    let defs = coding_tool_defs();
    assert_eq!(defs.len(), 9);
    let names: Vec<_> = defs.iter().map(|d| d.name).collect();
    assert!(names.contains(&SHELL_EXEC_TOOL_NAME));
    assert!(names.contains(&DIR_LIST_TOOL_NAME));
    assert!(names.contains(&GLOB_FILES_TOOL_NAME));
    assert!(names.contains(&GREP_FILES_TOOL_NAME));
    assert!(names.contains(&FILE_EDIT_TOOL_NAME));
    assert!(names.contains(&INDEX_UPDATE_TOOL_NAME));
    assert!(names.contains(&INDEX_QUERY_TOOL_NAME));
    assert!(names.contains(&INDEX_STATUS_TOOL_NAME));
    assert!(names.contains(&FETCH_URL_TOOL_NAME));
}

#[test]
fn test_resolve_path_absolute() {
    let result = resolve_path("/some/root", "/absolute/path");
    assert_eq!(result, "/absolute/path");
}

#[test]
fn test_resolve_path_relative() {
    let result = resolve_path("/some/root", "relative/path");
    assert_eq!(result, "/some/root/relative/path");
}

#[test]
fn resolve_path_root_with_trailing_separator() {
    assert_eq!(resolve_path("/some/root/", "x"), "/some/root/x");
    assert_eq!(resolve_path("", "x"), "x");
}

// === eval ===

#[test]
fn test_tool_def() {
    let defs = eval_tool_defs();
    assert_eq!(defs[0].name, "scheme_eval");
    assert_eq!(defs[0].required, vec!["code"]);
}

// === file tools ===

#[test]
fn test_is_file_tool() {
    assert!(is_file_tool(FILE_HEAD_TOOL_NAME));
    assert!(is_file_tool(FILE_TAIL_TOOL_NAME));
    assert!(is_file_tool(FILE_LINES_TOOL_NAME));
    assert!(is_file_tool(FILE_GREP_TOOL_NAME));
    assert!(is_file_tool(CACHE_LIST_TOOL_NAME));
    assert!(is_file_tool(WRITE_FILE_TOOL_NAME));
    assert!(!is_file_tool("other_tool"));
}

#[test]
fn file_tools_test_tool_constants() {
    assert_eq!(FILE_HEAD_TOOL_NAME, "file_head");
    assert_eq!(FILE_TAIL_TOOL_NAME, "file_tail");
    assert_eq!(FILE_LINES_TOOL_NAME, "file_lines");
    assert_eq!(FILE_GREP_TOOL_NAME, "file_grep");
    assert_eq!(CACHE_LIST_TOOL_NAME, "cache_list");
    assert_eq!(WRITE_FILE_TOOL_NAME, "write_file");
}

#[test]
fn test_file_tool_registry_contains_all_tools() {
    let defs = file_tool_defs();
    assert_eq!(defs.len(), 6);
    let names: Vec<_> = defs.iter().map(|d| d.name).collect();
    assert!(names.contains(&FILE_HEAD_TOOL_NAME));
    assert!(names.contains(&FILE_TAIL_TOOL_NAME));
    assert!(names.contains(&FILE_LINES_TOOL_NAME));
    assert!(names.contains(&FILE_GREP_TOOL_NAME));
    assert!(names.contains(&CACHE_LIST_TOOL_NAME));
    assert!(names.contains(&WRITE_FILE_TOOL_NAME));
}

#[test]
fn test_get_file_tool_def() {
    assert!(get_file_tool_def(FILE_HEAD_TOOL_NAME).is_some());
    assert!(get_file_tool_def("nonexistent_tool").is_none());
}

// === fs_read, fs_write, index, memory, network ===

#[test]
fn test_is_fs_read_tool() {
    assert!(fs_read::is_fs_read_tool(fs_read::FILE_HEAD_TOOL_NAME));
    assert!(fs_read::is_fs_read_tool(fs_read::FILE_TAIL_TOOL_NAME));
    assert!(fs_read::is_fs_read_tool(fs_read::FILE_LINES_TOOL_NAME));
    assert!(fs_read::is_fs_read_tool(fs_read::FILE_GREP_TOOL_NAME));
    assert!(fs_read::is_fs_read_tool(fs_read::DIR_LIST_TOOL_NAME));
    assert!(fs_read::is_fs_read_tool(fs_read::GLOB_FILES_TOOL_NAME));
    assert!(fs_read::is_fs_read_tool(fs_read::GREP_FILES_TOOL_NAME));
    assert!(!fs_read::is_fs_read_tool("write_file"));
    assert!(!fs_read::is_fs_read_tool("shell_exec"));
    assert!(!fs_read::is_fs_read_tool("unknown_tool"));
}

#[test]
fn test_fs_read_tool_registry_count() {
    assert_eq!(fs_read::fs_read_tool_defs().len(), 7);
}

#[test]
fn fs_read_test_tool_constants() {
    assert_eq!(fs_read::FILE_HEAD_TOOL_NAME, "file_head");
    assert_eq!(fs_read::FILE_TAIL_TOOL_NAME, "file_tail");
    assert_eq!(fs_read::FILE_LINES_TOOL_NAME, "file_lines");
    assert_eq!(fs_read::FILE_GREP_TOOL_NAME, "file_grep");
    assert_eq!(fs_read::DIR_LIST_TOOL_NAME, "dir_list");
    assert_eq!(fs_read::GLOB_FILES_TOOL_NAME, "glob_files");
    assert_eq!(fs_read::GREP_FILES_TOOL_NAME, "grep_files");
}

#[test]
fn test_is_fs_write_tool() {
    assert!(fs_write::is_fs_write_tool(fs_write::WRITE_FILE_TOOL_NAME));
    assert!(fs_write::is_fs_write_tool(fs_write::FILE_EDIT_TOOL_NAME));
    assert!(!fs_write::is_fs_write_tool("file_head"));
    assert!(!fs_write::is_fs_write_tool("shell_exec"));
    assert!(!fs_write::is_fs_write_tool("unknown"));
}

#[test]
fn test_fs_write_tool_registry_count() {
    assert_eq!(fs_write::fs_write_tool_defs().len(), 2);
}

#[test]
fn fs_write_test_tool_constants() {
    assert_eq!(fs_write::WRITE_FILE_TOOL_NAME, "write_file");
    assert_eq!(fs_write::FILE_EDIT_TOOL_NAME, "file_edit");
}

#[test]
fn test_is_index_tool() {
    assert!(index::is_index_tool(index::INDEX_UPDATE_TOOL_NAME));
    assert!(index::is_index_tool(index::INDEX_QUERY_TOOL_NAME));
    assert!(index::is_index_tool(index::INDEX_STATUS_TOOL_NAME));
    assert!(!index::is_index_tool("shell_exec"));
    assert!(!index::is_index_tool("file_head"));
}

#[test]
fn index_test_tool_constants() {
    assert_eq!(index::INDEX_UPDATE_TOOL_NAME, "index_update");
    assert_eq!(index::INDEX_QUERY_TOOL_NAME, "index_query");
    assert_eq!(index::INDEX_STATUS_TOOL_NAME, "index_status");
}

#[test]
fn test_memory_tool_constants() {
    assert_eq!(REFLECTION_TOOL_NAME, "update_reflection");
    assert_eq!(GOALS_TOOL_NAME, "update_goals");
    assert_eq!(READ_CONTEXT_TOOL_NAME, "read_context");
}

#[test]
fn test_memory_defs_count() {
    assert_eq!(memory_tool_defs().len(), 5);
}

#[test]
fn test_is_network_tool() {
    assert!(network::is_network_tool(network::FETCH_URL_TOOL_NAME));
    assert!(!network::is_network_tool("shell_exec"));
    assert!(!network::is_network_tool("file_head"));
}

#[test]
fn test_tool_constant() {
    assert_eq!(network::FETCH_URL_TOOL_NAME, "fetch_url");
}
