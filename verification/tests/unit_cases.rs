use chibi_core::json::{parse_json, Json, JsonNumber};
use chibi_core::state::app::ContextEntry;
use chibi_core::state::entries::{
    create_assistant_message_entry, create_tool_call_entry, create_tool_result_entry,
    create_user_message_entry, TranscriptEntry, ENTRY_TYPE_TOOL_CALL, ENTRY_TYPE_TOOL_RESULT,
};
use chibi_core::state::app::ContextState;
use chibi_core::state::messages::{entries_to_messages, messages_to_entries};
use chibi_core::tools::agent_tools::{all_agent_tools_to_api_format, get_agent_tool_def};
use chibi_core::tools::builtin::{
    all_builtin_tools_to_api_format, builtin_tools_to_api_format, get_builtin_tool_def,
};
use chibi_core::tools::coding_tools::{all_coding_tools_to_api_format, coding_tool_defs};
use chibi_core::tools::file_tools::{
    all_file_tools_to_api_format,
    get_file_tool_def, CACHE_LIST_TOOL_NAME, FILE_GREP_TOOL_NAME, FILE_HEAD_TOOL_NAME,
    FILE_LINES_TOOL_NAME, FILE_TAIL_TOOL_NAME, WRITE_FILE_TOOL_NAME,
};
use chibi_core::tools::flow::{
    all_flow_tools_to_api_format, flow_request, flow_tool_defs, flow_tool_metadata,
    pre_spawn_reply, summarize_step, FlowRequest, SummarizeStep, CALL_AGENT_TOOL_NAME,
    CALL_USER_TOOL_NAME, SEND_MESSAGE_TOOL_NAME, SPAWN_AGENT_TOOL_NAME,
    SUMMARIZE_CONTENT_TOOL_NAME,
};
use chibi_core::tools::fs_read::{all_fs_read_tools_to_api_format, fs_read_tool_defs};
use chibi_core::tools::fs_write::{
    all_fs_write_tools_to_api_format, apply_edit, fs_write_tool_defs, parse_edit_operation,
};
use chibi_core::tools::hooks::{hook_metadata, HookPoint};
use chibi_core::tools::index::{all_index_tools_to_api_format, index_tool_defs};
use chibi_core::tools::mcp::{is_mcp_tool, mcp_tool_from_info};
use chibi_core::tools::memory::{memory_tool_defs, GOALS_TOOL_NAME, REFLECTION_TOOL_NAME};
use chibi_core::tools::network::{all_network_tools_to_api_format, network_tool_defs};
use chibi_core::tools::registry::{Tool, ToolCategory, ToolImpl, ToolRegistry};
use chibi_core::tools::schema::{get_tool_metadata, tool_call_summary};
use chibi_core::tools::{BuiltinToolDef, ToolMetadata};
use chibi_core::error::ErrorKind;

// === helpers ===

fn at<'a>(j: &'a Json, path: &[&str]) -> &'a Json {
    let mut cur = j;
    for key in path {
        cur = cur.get(key).unwrap_or_else(|| panic!("missing member {key}"));
    }
    cur
}

fn text_at(j: &Json, path: &[&str]) -> String {
    at(j, path).as_str().expect("a string").clone()
}

fn strings_at(j: &Json, path: &[&str]) -> Vec<String> {
    match at(j, path) {
        Json::Array(items) => items
            .iter()
            .map(|i| i.as_str().expect("a string").clone())
            .collect(),
        _ => panic!("not an array"),
    }
}

fn json(text: &str) -> Json {
    parse_json(text).expect("valid JSON")
}

fn tool(name: &str, category: ToolCategory, implementation: ToolImpl) -> Tool {
    Tool {
        name: name.to_string(),
        description: "test".to_string(),
        parameters: Json::Object(vec![]),
        hooks: vec![],
        metadata: ToolMetadata::new(),
        summary_params: vec![],
        implementation,
        category,
    }
}

fn synth_tool(name: &str, vfs_path: &str) -> Tool {
    tool(
        name,
        ToolCategory::Synthesised,
        ToolImpl::Synthesised {
            vfs_path: vfs_path.to_string(),
            exec_binding: "tool-execute".to_string(),
        },
    )
}

fn names(reg: &ToolRegistry) -> Vec<String> {
    reg.all().iter().map(|t| t.name.clone()).collect()
}

fn def_named(defs: Vec<BuiltinToolDef>, name: &str) -> BuiltinToolDef {
    defs.into_iter()
        .find(|d| d.name == name)
        .expect("tool should exist in registry")
}

fn file_tool_api(name: &str) -> Json {
    get_file_tool_def(name)
        .expect("tool should exist in registry")
        .to_api_format()
}

// === registry ===

#[test]
fn test_registry_unregister() {
    let mut reg = ToolRegistry::new();
    reg.register(tool("rm_me", ToolCategory::Plugin, ToolImpl::Builtin));
    assert!(reg.get("rm_me").is_some());
    let removed = reg.unregister("rm_me");
    assert!(removed.is_some());
    assert!(reg.get("rm_me").is_none());
}

#[test]
fn test_registry_preserves_insertion_order() {
    let mut reg = ToolRegistry::new();
    for name in ["charlie", "alice", "bob"] {
        reg.register(tool(name, ToolCategory::Plugin, ToolImpl::Builtin));
    }
    assert_eq!(names(&reg), vec!["charlie", "alice", "bob"]);
}

#[test]
fn test_registry_unregister_preserves_order_of_remaining() {
    let mut reg = ToolRegistry::new();
    for name in ["a", "b", "c", "d"] {
        reg.register(tool(name, ToolCategory::Plugin, ToolImpl::Builtin));
    }
    reg.unregister("b");
    assert_eq!(names(&reg), vec!["a", "c", "d"]);
}

#[test]
fn test_registry_filter() {
    let mut reg = ToolRegistry::new();
    reg.register(tool("read1", ToolCategory::FsRead, ToolImpl::Builtin));
    reg.register(tool("write1", ToolCategory::FsWrite, ToolImpl::Builtin));
    reg.register(tool("read2", ToolCategory::FsRead, ToolImpl::Builtin));
    let reads: Vec<&str> = reg
        .filter(|t| t.category == ToolCategory::FsRead)
        .iter()
        .map(|t| t.name.as_str())
        .collect();
    assert_eq!(reads, vec!["read1", "read2"]);
}

fn registry_with_synth_tool(name: &str, vfs_path: &str) -> ToolRegistry {
    let mut reg = ToolRegistry::new();
    reg.register(synth_tool(name, vfs_path));
    reg
}

#[test]
fn test_visibility_shared_visible_to_all() {
    let reg = registry_with_synth_tool("shared_tool", "/tools/shared/tool.scm");
    assert!(reg.is_tool_visible("shared_tool", "alice", &[]));
    assert!(reg.is_tool_visible("shared_tool", "bob", &[]));
}

#[test]
fn test_visibility_home_only_owner() {
    let reg = registry_with_synth_tool("alice_tool", "/tools/home/alice/tool.scm");
    assert!(reg.is_tool_visible("alice_tool", "alice", &[]));
    assert!(!reg.is_tool_visible("alice_tool", "bob", &[]));
}

#[test]
fn test_visibility_flock_members_only() {
    let reg = registry_with_synth_tool("flock_tool", "/tools/flocks/dev/tool.scm");
    assert!(reg.is_tool_visible("flock_tool", "alice", &["dev".to_string()]));
    assert!(!reg.is_tool_visible("flock_tool", "bob", &[]));
}

#[test]
fn test_visibility_builtin_always_visible() {
    let mut reg = ToolRegistry::new();
    reg.register(tool("builtin_tool", ToolCategory::Shell, ToolImpl::Builtin));
    assert!(reg.is_tool_visible("builtin_tool", "anyone", &[]));
}

#[test]
fn test_visibility_missing_tool_returns_true() {
    let reg = ToolRegistry::new();
    assert!(reg.is_tool_visible("nonexistent", "alice", &[]));
}

// === tool metadata and call summaries ===

#[test]
fn test_get_tool_metadata_from_plugin() {
    let mut reg = ToolRegistry::new();
    let mut t = tool(
        "custom_flow",
        ToolCategory::Plugin,
        ToolImpl::Plugin("/bin/custom".to_string()),
    );
    t.description = "A custom flow control tool".to_string();
    t.metadata = ToolMetadata {
        parallel: false,
        flow_control: true,
        ends_turn: true,
    };
    reg.register(t);
    let meta = get_tool_metadata(&reg, "custom_flow");
    assert!(!meta.parallel);
    assert!(meta.flow_control);
    assert!(meta.ends_turn);
}

#[test]
fn test_get_tool_metadata_fallback_to_builtin() {
    let reg = ToolRegistry::new();
    let agent_meta = get_tool_metadata(&reg, CALL_AGENT_TOOL_NAME);
    assert!(agent_meta.flow_control);
    assert!(!agent_meta.ends_turn);
    let user_meta = get_tool_metadata(&reg, CALL_USER_TOOL_NAME);
    assert!(user_meta.flow_control);
    assert!(user_meta.ends_turn);
}

#[test]
fn test_get_tool_metadata_unknown_tool() {
    let reg = ToolRegistry::new();
    let meta = get_tool_metadata(&reg, "unknown_tool");
    assert!(meta.parallel);
    assert!(!meta.flow_control);
    assert!(!meta.ends_turn);
}

#[test]
fn test_tool_call_summary_with_plugin() {
    let mut reg = ToolRegistry::new();
    let mut t = tool(
        "my_plugin",
        ToolCategory::Plugin,
        ToolImpl::Plugin("/bin/test".to_string()),
    );
    t.summary_params = vec!["path".to_string(), "pattern".to_string()];
    reg.register(t);
    let summary = tool_call_summary(
        &reg,
        "my_plugin",
        r#"{"path": "src/main.rs", "pattern": "TODO"}"#,
    );
    assert_eq!(summary, Some("src/main.rs TODO".to_string()));
}

#[test]
fn test_tool_call_summary_builtin_fallback() {
    let reg = ToolRegistry::new();
    let summary = tool_call_summary(&reg, "shell_exec", r#"{"command": "cargo test"}"#);
    assert_eq!(summary, Some("cargo test".to_string()));
}

#[test]
fn test_tool_call_summary_no_params() {
    let reg = ToolRegistry::new();
    let summary = tool_call_summary(
        &reg,
        "update_reflection",
        r#"{"content": "some reflection"}"#,
    );
    assert_eq!(summary, None);
}

#[test]
fn test_tool_call_summary_missing_values() {
    let reg = ToolRegistry::new();
    let summary = tool_call_summary(&reg, "file_head", r#"{"cache_id": "abc123"}"#);
    assert_eq!(summary, None);
}

// === mcp ===

#[test]
fn is_mcp_tool_true() {
    let t = mcp_tool_from_info("serena", "find_symbol", "find symbols", json("{}"));
    assert!(is_mcp_tool(&t));
}

#[test]
fn is_mcp_tool_false() {
    let mut t = tool(
        "my_plugin",
        ToolCategory::Plugin,
        ToolImpl::Plugin("/home/user/.chibi/plugins/my_plugin".to_string()),
    );
    t.description = "a plugin".to_string();
    assert!(!is_mcp_tool(&t));
}

#[test]
fn mcp_tool_from_info_creates_correct_tool() {
    let t = mcp_tool_from_info(
        "serena",
        "find_symbol",
        "find code symbols by name",
        json(r#"{"type": "object", "properties": {"name": {"type": "string"}}}"#),
    );
    assert_eq!(t.name, "serena_find_symbol");
    assert_eq!(t.description, "find code symbols by name");
    match &t.implementation {
        ToolImpl::Mcp { server, tool_name } => {
            assert_eq!(server, "serena");
            assert_eq!(tool_name, "find_symbol");
        }
        _ => panic!("expected an MCP tool"),
    }
    assert!(t.hooks.is_empty());
    assert!(t.summary_params.is_empty());
    assert_eq!(text_at(&t.parameters, &["type"]), "object");
}

// === API formats of the tool definitions ===

#[test]
fn test_reflection_tool_api_format() {
    let t = def_named(memory_tool_defs(), REFLECTION_TOOL_NAME).to_api_format();
    assert_eq!(text_at(&t, &["type"]), "function");
    assert_eq!(text_at(&t, &["function", "name"]), REFLECTION_TOOL_NAME);
    assert!(text_at(&t, &["function", "description"]).contains("reflection"));
    assert!(strings_at(&t, &["function", "parameters", "required"]).contains(&"content".to_string()));
}

#[test]
fn test_goals_tool_api_format() {
    let t = def_named(memory_tool_defs(), GOALS_TOOL_NAME).to_api_format();
    assert_eq!(text_at(&t, &["function", "name"]), GOALS_TOOL_NAME);
    assert!(text_at(&t, &["function", "description"]).contains("goal"));
}

#[test]
fn file_tools_test_file_head_tool_api_format() {
    let t = file_tool_api(FILE_HEAD_TOOL_NAME);
    assert_eq!(text_at(&t, &["type"]), "function");
    assert_eq!(text_at(&t, &["function", "name"]), FILE_HEAD_TOOL_NAME);
}

#[test]
fn test_file_tail_tool_api_format() {
    let t = file_tool_api(FILE_TAIL_TOOL_NAME);
    assert_eq!(text_at(&t, &["function", "name"]), FILE_TAIL_TOOL_NAME);
}

#[test]
fn test_file_lines_tool_api_format() {
    let t = file_tool_api(FILE_LINES_TOOL_NAME);
    assert_eq!(text_at(&t, &["function", "name"]), FILE_LINES_TOOL_NAME);
    let required = strings_at(&t, &["function", "parameters", "required"]);
    assert!(required.contains(&"start".to_string()));
    assert!(required.contains(&"end".to_string()));
}

#[test]
fn file_tools_test_file_grep_tool_api_format() {
    let t = file_tool_api(FILE_GREP_TOOL_NAME);
    assert_eq!(text_at(&t, &["function", "name"]), FILE_GREP_TOOL_NAME);
    let required = strings_at(&t, &["function", "parameters", "required"]);
    assert!(required.contains(&"pattern".to_string()));
}

#[test]
fn test_cache_list_tool_api_format() {
    let t = file_tool_api(CACHE_LIST_TOOL_NAME);
    assert_eq!(text_at(&t, &["function", "name"]), CACHE_LIST_TOOL_NAME);
}

#[test]
fn test_write_file_tool_api_format() {
    let t = file_tool_api(WRITE_FILE_TOOL_NAME);
    assert_eq!(text_at(&t, &["function", "name"]), WRITE_FILE_TOOL_NAME);
    let required = strings_at(&t, &["function", "parameters", "required"]);
    assert!(required.contains(&"path".to_string()));
    assert!(required.contains(&"content".to_string()));
}

fn default_at(t: &Json, prop: &str) -> u64 {
    at(t, &["function", "parameters", "properties", prop, "default"])
        .as_u64()
        .expect("an integer default")
}

#[test]
fn test_file_tool_defaults() {
    let head = file_tool_api(FILE_HEAD_TOOL_NAME);
    assert_eq!(default_at(&head, "lines"), 50);
    let tail = file_tool_api(FILE_TAIL_TOOL_NAME);
    assert_eq!(default_at(&tail, "lines"), 50);
    let grep = file_tool_api(FILE_GREP_TOOL_NAME);
    assert_eq!(default_at(&grep, "context_before"), 2);
    assert_eq!(default_at(&grep, "context_after"), 2);
}

#[test]
fn test_file_tool_required_fields() {
    let lines = file_tool_api(FILE_LINES_TOOL_NAME);
    let required = strings_at(&lines, &["function", "parameters", "required"]);
    assert_eq!(required.len(), 2);
    assert!(required.contains(&"start".to_string()));
    assert!(required.contains(&"end".to_string()));
    let grep = file_tool_api(FILE_GREP_TOOL_NAME);
    let required = strings_at(&grep, &["function", "parameters", "required"]);
    assert_eq!(required.len(), 1);
    assert!(required.contains(&"pattern".to_string()));
    let cache = file_tool_api(CACHE_LIST_TOOL_NAME);
    assert!(strings_at(&cache, &["function", "parameters", "required"]).is_empty());
}

fn builtin_api(name: &str) -> Json {
    get_builtin_tool_def(name)
        .expect("tool should exist in registry")
        .to_api_format()
}

#[test]
fn builtin_test_send_message_tool_api_format() {
    let t = builtin_api("send_message");
    assert_eq!(text_at(&t, &["function", "name"]), "send_message");
    let required = strings_at(&t, &["function", "parameters", "required"]);
    assert!(required.contains(&"to".to_string()));
    assert!(required.contains(&"content".to_string()));
}

#[test]
fn builtin_test_call_user_tool_api_format() {
    let t = builtin_api("call_user");
    assert!(strings_at(&t, &["function", "parameters", "required"]).is_empty());
}

#[test]
fn test_model_info_tool_api_format() {
    let t = builtin_api("model_info");
    assert!(text_at(&t, &["function", "description"]).contains("metadata"));
}

fn flow_api(name: &str) -> Json {
    def_named(flow_tool_defs(), name).to_api_format()
}

#[test]
fn flow_test_send_message_tool_api_format() {
    let t = flow_api(SEND_MESSAGE_TOOL_NAME);
    assert_eq!(text_at(&t, &["function", "name"]), SEND_MESSAGE_TOOL_NAME);
    let required = strings_at(&t, &["function", "parameters", "required"]);
    assert!(required.contains(&"to".to_string()));
    assert!(required.contains(&"content".to_string()));
}

#[test]
fn test_call_agent_not_in_registry_but_metadata_works() {
    assert!(
        flow_tool_defs().iter().all(|d| d.name != CALL_AGENT_TOOL_NAME),
        "call_agent must not be in tool registry"
    );
    let meta = flow_tool_metadata(CALL_AGENT_TOOL_NAME);
    assert!(meta.flow_control, "call_agent metadata must have flow_control=true");
    assert!(!meta.ends_turn, "call_agent must not end the turn");
}

#[test]
fn flow_test_call_user_tool_api_format() {
    let t = flow_api(CALL_USER_TOOL_NAME);
    assert!(strings_at(&t, &["function", "parameters", "required"]).is_empty());
}

#[test]
fn flow_test_spawn_agent_tool_api_format() {
    let t = flow_api(SPAWN_AGENT_TOOL_NAME);
    assert_eq!(text_at(&t, &["type"]), "function");
    assert_eq!(text_at(&t, &["function", "name"]), SPAWN_AGENT_TOOL_NAME);
    let required = strings_at(&t, &["function", "parameters", "required"]);
    assert!(required.contains(&"system_prompt".to_string()));
    assert!(required.contains(&"input".to_string()));
    assert_eq!(required.len(), 2);
}

#[test]
fn flow_test_summarize_content_tool_api_format() {
    let t = flow_api(SUMMARIZE_CONTENT_TOOL_NAME);
    let required = strings_at(&t, &["function", "parameters", "required"]);
    assert!(required.contains(&"source".to_string()));
    assert!(required.contains(&"instructions".to_string()));
    assert_eq!(required.len(), 2);
}

fn agent_api(name: &str) -> Json {
    get_agent_tool_def(name)
        .expect("tool should exist in registry")
        .to_api_format()
}

#[test]
fn agent_tools_test_spawn_agent_tool_api_format() {
    let t = agent_api("spawn_agent");
    assert_eq!(text_at(&t, &["type"]), "function");
    assert_eq!(text_at(&t, &["function", "name"]), "spawn_agent");
    let required = strings_at(&t, &["function", "parameters", "required"]);
    assert!(required.contains(&"system_prompt".to_string()));
    assert!(required.contains(&"input".to_string()));
    assert_eq!(required.len(), 2);
}

#[test]
fn agent_tools_test_summarize_content_tool_api_format() {
    let t = agent_api("summarize_content");
    assert_eq!(text_at(&t, &["type"]), "function");
    assert_eq!(text_at(&t, &["function", "name"]), "summarize_content");
    let required = strings_at(&t, &["function", "parameters", "required"]);
    assert!(required.contains(&"source".to_string()));
    assert!(required.contains(&"instructions".to_string()));
    assert_eq!(required.len(), 2);
}

fn preset_description(tools: &[Json]) -> String {
    let spawn = tools
        .iter()
        .find(|t| text_at(t, &["function", "name"]) == SPAWN_AGENT_TOOL_NAME)
        .expect("spawn_agent in list");
    text_at(
        spawn,
        &["function", "parameters", "properties", "preset", "description"],
    )
}

#[test]
fn test_all_flow_tools_description_lists_capabilities() {
    let tools = all_flow_tools_to_api_format(&["fast", "reasoning"]);
    let desc = preset_description(&tools);
    assert!(desc.contains("fast"));
    assert!(desc.contains("reasoning"));
}

#[test]
fn test_all_flow_tools_description_no_capabilities() {
    let tools = all_flow_tools_to_api_format(&[]);
    let desc = preset_description(&tools);
    assert!(desc.contains("no presets"));
}

fn assert_function_defs(defs: Vec<BuiltinToolDef>, with_description: bool) {
    for def in defs {
        let api = def.to_api_format();
        assert_eq!(text_at(&api, &["type"]), "function");
        assert!(matches!(at(&api, &["function", "name"]), Json::Str(_)));
        if with_description {
            assert!(matches!(at(&api, &["function", "description"]), Json::Str(_)));
        }
    }
}

#[test]
fn test_fs_read_tool_defs_api_format() {
    assert_function_defs(fs_read_tool_defs(), true);
}

#[test]
fn test_fs_write_tool_defs_api_format() {
    assert_function_defs(fs_write_tool_defs(), true);
}

#[test]
fn test_index_tool_defs_api_format() {
    assert_function_defs(index_tool_defs(), false);
}

#[test]
fn test_network_tool_defs_api_format() {
    assert_function_defs(network_tool_defs(), false);
}

#[test]
fn test_coding_tool_defs_api_format() {
    assert_function_defs(coding_tool_defs(), true);
}

#[test]
fn fs_read_test_file_head_tool_api_format() {
    let t = def_named(fs_read_tool_defs(), "file_head").to_api_format();
    assert_eq!(text_at(&t, &["function", "name"]), "file_head");
    assert_eq!(default_at(&t, "lines"), 50);
}

#[test]
fn fs_read_test_file_grep_tool_api_format() {
    let t = def_named(fs_read_tool_defs(), "file_grep").to_api_format();
    assert_eq!(text_at(&t, &["function", "name"]), "file_grep");
    let required = strings_at(&t, &["function", "parameters", "required"]);
    assert!(required.contains(&"pattern".to_string()));
}

// === file_edit ===

fn edit(content: &str, args: &str) -> Result<(String, String), chibi_core::error::ToolError> {
    let a = json(args);
    let op_name = a.get_str("operation").unwrap();
    let op = parse_edit_operation(&op_name, &a)?;
    apply_edit(op, content, "f.txt")
}

#[test]
fn fs_write_test_file_edit_out_of_bounds() {
    let result = edit(
        "aaa\nbbb\n",
        r#"{"path": "f.txt", "operation": "replace_lines", "line_start": 5, "line_end": 6, "content": "x"}"#,
    );
    assert!(result.is_err());
    assert_eq!(result.unwrap_err().kind, ErrorKind::InvalidInput);
}

#[test]
fn fs_write_test_file_edit_invalid_operation() {
    let result = edit("aaa\n", r#"{"path": "f.txt", "operation": "teleport"}"#);
    assert!(result.is_err());
}

#[test]
fn coding_tools_test_file_edit_out_of_bounds() {
    let result = edit(
        "aaa\nbbb\n",
        r#"{"path": "f.txt", "operation": "replace_lines", "line_start": 5, "line_end": 6, "content": "x"}"#,
    );
    assert!(result.is_err());
    assert_eq!(result.unwrap_err().kind, ErrorKind::InvalidInput);
}

#[test]
fn coding_tools_test_file_edit_invalid_operation() {
    let result = edit("aaa\n", r#"{"path": "f.txt", "operation": "teleport"}"#);
    assert!(result.is_err());
}

// === hooks ===

#[test]
fn test_hook_metadata_completeness() {
    let metas = hook_metadata();
    let mut missing = Vec::new();
    for variant in HookPoint::all() {
        if !metas.iter().any(|m| m.point == variant) {
            missing.push(variant.as_str().to_string());
        }
    }
    assert!(
        missing.is_empty(),
        "HookPoint variants missing from HOOK_METADATA: {missing:?}"
    );
    assert_eq!(
        metas.len(),
        HookPoint::all().len(),
        "HOOK_METADATA has duplicate entries or wrong count"
    );
}

// === transcript entries and chat messages ===

fn role(m: &Json) -> String {
    text_at(m, &["role"])
}

fn tool_calls(m: &Json) -> &Vec<Json> {
    match at(m, &["tool_calls"]) {
        Json::Array(items) => items,
        _ => panic!("tool_calls must be an array"),
    }
}

#[test]
fn test_entries_to_messages_includes_tool_calls() {
    let entries = vec![
        create_user_message_entry("ctx", "do something", "testuser"),
        create_tool_call_entry("ctx", "web_search", r#"{"query":"rust"}"#, "tc_1"),
        create_tool_result_entry("ctx", "web_search", "search results here", "tc_1"),
        create_assistant_message_entry("ctx", "here are the results"),
    ];
    let messages = entries_to_messages(&entries);
    assert_eq!(messages.len(), 4);
    assert_eq!(role(&messages[0]), "user");
    assert_eq!(role(&messages[1]), "assistant");
    assert!(at(&messages[1], &["tool_calls"]).is_array());
    assert_eq!(role(&messages[2]), "tool");
    assert_eq!(text_at(&messages[2], &["tool_call_id"]), "tc_1");
    assert_eq!(role(&messages[3]), "assistant");
    assert_eq!(text_at(&messages[3], &["content"]), "here are the results");
}

#[test]
fn test_entries_to_messages_groups_tool_batch() {
    let entries = vec![
        create_tool_call_entry("ctx", "tool_a", r#"{"a":1}"#, "tc_a"),
        create_tool_call_entry("ctx", "tool_b", r#"{"b":2}"#, "tc_b"),
        create_tool_result_entry("ctx", "tool_a", "result_a", "tc_a"),
        create_tool_result_entry("ctx", "tool_b", "result_b", "tc_b"),
    ];
    let messages = entries_to_messages(&entries);
    assert_eq!(messages.len(), 3);
    assert_eq!(role(&messages[0]), "assistant");
    let calls = tool_calls(&messages[0]);
    assert_eq!(calls.len(), 2);
    assert_eq!(text_at(&calls[0], &["function", "name"]), "tool_a");
    assert_eq!(text_at(&calls[1], &["function", "name"]), "tool_b");
    assert_eq!(role(&messages[1]), "tool");
    assert_eq!(text_at(&messages[1], &["tool_call_id"]), "tc_a");
    assert_eq!(role(&messages[2]), "tool");
    assert_eq!(text_at(&messages[2], &["tool_call_id"]), "tc_b");
}

fn plain_entry(from: &str, to: &str, content: &str, entry_type: &str) -> TranscriptEntry {
    TranscriptEntry {
        id: "e1".to_string(),
        timestamp: 1000,
        from: from.to_string(),
        to: to.to_string(),
        content: content.to_string(),
        entry_type: entry_type.to_string(),
        metadata: None,
        tool_call_id: None,
    }
}

#[test]
fn test_entries_to_messages_backward_compat_no_tool_call_id() {
    let tc_entry = plain_entry("ctx", "web_search", r#"{"query":"test"}"#, ENTRY_TYPE_TOOL_CALL);
    let mut tr_entry = plain_entry("web_search", "ctx", "results", ENTRY_TYPE_TOOL_RESULT);
    tr_entry.id = "e2".to_string();
    let messages = entries_to_messages(&[tc_entry, tr_entry]);
    assert_eq!(messages.len(), 2);
    let tc_json = &tool_calls(&messages[0])[0];
    let synthetic_id = text_at(tc_json, &["id"]);
    assert!(synthetic_id.starts_with("synth_"));
    assert_eq!(text_at(&messages[1], &["tool_call_id"]), synthetic_id);
}

#[test]
fn test_json_messages_to_entries_round_trip() {
    let original_messages = vec![
        json(r#"{"_id": "m1", "role": "user", "content": "hello"}"#),
        json(
            r#"{"_id": "m2", "role": "assistant", "tool_calls": [{"id": "tc_1", "type": "function", "function": {"name": "search", "arguments": "{\"q\":\"test\"}"}}]}"#,
        ),
        json(r#"{"_id": "m3", "role": "tool", "tool_call_id": "tc_1", "content": "found it"}"#),
        json(r#"{"_id": "m4", "role": "assistant", "content": "here you go"}"#),
    ];
    let entries = messages_to_entries(&original_messages, "ctx");
    let roundtripped = entries_to_messages(&entries);
    assert_eq!(roundtripped.len(), 4);
    assert_eq!(role(&roundtripped[0]), "user");
    assert_eq!(text_at(&roundtripped[0], &["content"]), "hello");
    assert_eq!(role(&roundtripped[1]), "assistant");
    assert!(at(&roundtripped[1], &["tool_calls"]).is_array());
    assert_eq!(role(&roundtripped[2]), "tool");
    assert_eq!(text_at(&roundtripped[2], &["tool_call_id"]), "tc_1");
    assert_eq!(role(&roundtripped[3]), "assistant");
    assert_eq!(text_at(&roundtripped[3], &["content"]), "here you go");
}

// === known contexts kept in step with the directories on disk ===

fn context_names(state: &ContextState) -> Vec<String> {
    state.contexts.iter().map(|e| e.name.clone()).collect()
}

#[test]
fn test_list_contexts_excludes_manually_deleted_directories() {
    let mut state = ContextState { contexts: Vec::new() };
    state.contexts.push(ContextEntry::with_created_at("context-one", 100));
    state.contexts.push(ContextEntry::with_created_at("context-two", 100));
    // the directory of context-one was removed by hand; only context-two is on disk
    let dirs = vec![("context-two".to_string(), true)];
    let modified = state.sync_with_dirs(&dirs, 200);
    assert!(modified);
    let contexts = context_names(&state);
    assert!(
        !contexts.contains(&"context-one".to_string()),
        "Deleted context should not appear in list_contexts()"
    );
    assert!(contexts.contains(&"context-two".to_string()));
}

#[test]
fn test_list_contexts_only_includes_directories_not_files() {
    let mut state = ContextState { contexts: Vec::new() };
    // only directories are listed: the stray file never reaches the sync
    let dirs = vec![("real-context".to_string(), true)];
    state.sync_with_dirs(&dirs, 300);
    let contexts = context_names(&state);
    assert!(contexts.contains(&"real-context".to_string()));
    assert!(
        !contexts.contains(&"not-a-context.txt".to_string()),
        "Stray files should not appear as contexts"
    );
    assert_eq!(state.contexts[0].created_at, 300);
}

#[test]
fn test_auto_destroy_expired_contexts_by_timestamp() {
    let mut state = ContextState { contexts: Vec::new() };
    let mut entry = ContextEntry::with_created_at("to-destroy", 1_000_000);
    entry.destroy_at = 1;
    state.contexts.push(entry);
    let destroyed = state.expired_names(1_000_000);
    assert_eq!(destroyed, vec!["to-destroy".to_string()]);
    for name in &destroyed {
        state.remove_named(name);
    }
    assert!(state.contexts.is_empty());
}

#[test]
fn test_auto_destroy_expired_contexts_by_inactivity() {
    let mut state = ContextState { contexts: Vec::new() };
    let mut entry = ContextEntry::with_created_at("to-destroy", 1_000_000);
    entry.last_activity_at = 1;
    entry.destroy_after_seconds_inactive = 60;
    state.contexts.push(entry);
    let destroyed = state.expired_names(1_000_000);
    assert_eq!(destroyed, vec!["to-destroy".to_string()]);
}

#[test]
fn test_auto_destroy_respects_disabled_settings() {
    let mut state = ContextState { contexts: Vec::new() };
    let mut entry = ContextEntry::with_created_at("keep-context", 1_000_000);
    entry.last_activity_at = 1;
    entry.destroy_after_seconds_inactive = 0;
    entry.destroy_at = 0;
    state.contexts.push(entry);
    let destroyed = state.expired_names(1_000_000);
    assert!(destroyed.is_empty());
    assert_eq!(state.contexts.len(), 1);
}

#[test]
fn json_number_default_is_unsigned() {
    let t = file_tool_api(FILE_HEAD_TOOL_NAME);
    assert!(matches!(
        at(&t, &["function", "parameters", "properties", "lines", "default"]),
        Json::Number(JsonNumber::PosInt(50))
    ));
}

// === more bookkeeping on known contexts ===

#[test]
fn sync_orders_by_name_and_skips_invalid_names() {
    let mut state = ContextState { contexts: Vec::new() };
    state.contexts.push(ContextEntry::with_created_at("zeta", 5));
    state.contexts.push(ContextEntry::with_created_at("alpha", 6));
    let dirs = vec![
        ("zeta".to_string(), true),
        ("beta".to_string(), true),
        ("bad name".to_string(), false),
        ("alpha".to_string(), true),
    ];
    assert!(state.sync_with_dirs(&dirs, 9));
    assert_eq!(context_names(&state), vec!["alpha", "beta", "zeta"]);
    assert_eq!(state.contexts[0].created_at, 6);
    assert_eq!(state.contexts[1].created_at, 9);
    assert_eq!(state.contexts[1].last_activity_at, 9);
    assert_eq!(state.contexts[2].created_at, 5);
    // a second sync changes nothing
    assert!(!state.sync_with_dirs(&dirs, 10));
    assert_eq!(context_names(&state), vec!["alpha", "beta", "zeta"]);
}

#[test]
fn sync_orders_by_code_point_with_prefix_first() {
    let mut state = ContextState { contexts: Vec::new() };
    let dirs = vec![
        ("ab".to_string(), true),
        ("B".to_string(), true),
        ("a".to_string(), true),
        ("é".to_string(), true),
    ];
    state.sync_with_dirs(&dirs, 1);
    assert_eq!(context_names(&state), vec!["B", "a", "ab", "é"]);
}

#[test]
fn rename_keeps_creation_time_and_register_skips_known() {
    let mut state = ContextState { contexts: Vec::new() };
    state.contexts.push(ContextEntry::with_created_at("old", 42));
    state.contexts.push(ContextEntry::with_created_at("other", 7));
    state.rename_entry("old", "new", 1000);
    assert_eq!(context_names(&state), vec!["other", "new"]);
    assert_eq!(state.contexts[1].created_at, 42);
    // renaming an unknown context records it as created now
    state.rename_entry("ghost", "fresh", 1000);
    assert_eq!(state.contexts[2].name, "fresh");
    assert_eq!(state.contexts[2].created_at, 1000);
    // renaming onto a known name only drops the old entry
    state.rename_entry("other", "new", 5);
    assert_eq!(context_names(&state), vec!["new", "fresh"]);
    assert!(!state.register("new", 1));
    assert!(state.register("third", 1));
    assert_eq!(context_names(&state), vec!["new", "fresh", "third"]);
}

#[test]
fn remove_named_drops_every_entry_of_that_name() {
    let mut state = ContextState { contexts: Vec::new() };
    state.contexts.push(ContextEntry::with_created_at("a", 1));
    state.contexts.push(ContextEntry::with_created_at("b", 2));
    state.contexts.push(ContextEntry::with_created_at("a", 3));
    state.remove_named("a");
    assert_eq!(context_names(&state), vec!["b"]);
}

#[test]
fn expiry_boundaries() {
    let mut e = ContextEntry::with_created_at("x", 100);
    e.destroy_at = 200;
    assert!(!e.should_auto_destroy_at(199));
    assert!(e.should_auto_destroy_at(200));
    let mut f = ContextEntry::with_created_at("y", 100);
    f.destroy_after_seconds_inactive = 50;
    assert!(!f.should_auto_destroy_at(149));
    assert!(f.should_auto_destroy_at(150));
    // a clock behind the last activity counts as no inactivity
    assert!(!f.should_auto_destroy_at(10));
}

// === sub-agent calls ===

fn hook_results(items: &[&str]) -> Vec<(String, Json)> {
    items
        .iter()
        .enumerate()
        .map(|(i, t)| (format!("hook{i}"), json(t)))
        .collect()
}

#[test]
fn pre_spawn_hooks_reply_block_or_pass() {
    assert_eq!(pre_spawn_reply(&hook_results(&[])), None);
    assert_eq!(pre_spawn_reply(&hook_results(&[r#"{"note": 1}"#])), None);
    assert_eq!(
        pre_spawn_reply(&hook_results(&[r#"{"block": false}"#, r#"{"response": "cached"}"#])),
        Some("cached".to_string())
    );
    assert_eq!(
        pre_spawn_reply(&hook_results(&[r#"{"block": true}"#, r#"{"response": "late"}"#])),
        Some("Sub-agent call blocked by hook".to_string())
    );
    assert_eq!(
        pre_spawn_reply(&hook_results(&[r#"{"block": true, "message": "no"}"#])),
        Some("no".to_string())
    );
    // a response wins over a block in the same result
    assert_eq!(
        pre_spawn_reply(&hook_results(&[r#"{"block": true, "response": "r"}"#])),
        Some("r".to_string())
    );
    // a non-boolean block does not block
    assert_eq!(pre_spawn_reply(&hook_results(&[r#"{"block": "yes"}"#])), None);
}

#[test]
fn summarize_steps() {
    match summarize_step("  prompt\n", "notes.md", "be brief", "") {
        SummarizeStep::Reply(m) => assert_eq!(m, "Source 'notes.md' is empty."),
        _ => panic!("expected a reply"),
    }
    match summarize_step("  prompt\n", "notes.md", "be brief", "text") {
        SummarizeStep::Spawn { system_prompt, input } => {
            assert_eq!(system_prompt, "prompt");
            assert_eq!(
                input,
                "## Instructions\nbe brief\n\n## Content from: notes.md\ntext"
            );
        }
        _ => panic!("expected a sub-agent call"),
    }
}

#[test]
fn flow_requests_from_arguments() {
    match flow_request("spawn_agent", &json(r#"{"system_prompt": "s", "input": "i"}"#)) {
        Ok(Some(FlowRequest::Spawn { system_prompt, input })) => {
            assert_eq!(system_prompt, "s");
            assert_eq!(input, "i");
        }
        _ => panic!("expected a spawn request"),
    }
    let e = flow_request("spawn_agent", &json(r#"{"input": "i"}"#)).err().unwrap();
    assert_eq!(e.kind, ErrorKind::InvalidInput);
    assert_eq!(e.message, "Missing 'system_prompt' parameter");
    let e = flow_request("spawn_agent", &json(r#"{"system_prompt": "s"}"#)).err().unwrap();
    assert_eq!(e.message, "Missing 'input' parameter");
    match flow_request("summarize_content", &json(r#"{"source": "a", "instructions": "b"}"#)) {
        Ok(Some(FlowRequest::Summarize { source, instructions })) => {
            assert_eq!(source, "a");
            assert_eq!(instructions, "b");
        }
        _ => panic!("expected a summarize request"),
    }
    let e = flow_request("summarize_content", &json(r#"{"source": 3}"#)).err().unwrap();
    assert_eq!(e.message, "Missing 'source' parameter");
    assert!(matches!(flow_request("call_user", &json("{}")), Ok(None)));
}

#[test]
fn preset_description_exact_text() {
    let tools = all_flow_tools_to_api_format(&["fast", "reasoning"]);
    assert_eq!(tools.len(), 5);
    assert_eq!(
        preset_description(&tools),
        "Preset capability name — one of: fast, reasoning (cost tier set by config). Sets the model and default parameters for the sub-agent. Explicit model/temperature/max_tokens override preset defaults."
    );
    let none = all_flow_tools_to_api_format(&[]);
    assert_eq!(
        preset_description(&none),
        "Preset capability name (no presets configured for this tier)"
    );
    // other tools keep their own definitions
    let send = &none[0];
    assert_eq!(text_at(send, &["function", "name"]), "send_message");
}

// === dir_list and glob_files texts ===

use chibi_core::tools::dir_listing::{check_search_root, dir_list_report, glob_files_report, DirNode};
use chibi_core::tools::fs_read::{fs_read_request, FsReadRequest};

fn file_node(name: &str, size: &str) -> DirNode {
    DirNode {
        name: name.to_string(),
        is_dir: false,
        size_text: size.to_string(),
        children: vec![],
    }
}

fn dir_node(name: &str, children: Vec<DirNode>) -> DirNode {
    DirNode {
        name: name.to_string(),
        is_dir: true,
        size_text: String::new(),
        children,
    }
}

fn sample_tree() -> Vec<DirNode> {
    vec![
        file_node("zeta.txt", "3 B"),
        dir_node("src", vec![file_node("main.rs", "12 B"), dir_node("deep", vec![file_node("x", "1 B")])]),
        file_node(".hidden", "1 B"),
        file_node("alpha.md", "1.5 KB"),
        dir_node("docs", vec![]),
    ]
}

#[test]
fn dir_list_one_level_directories_first() {
    let text = dir_list_report("/proj", &sample_tree(), 1, false);
    assert_eq!(
        text,
        "/proj/\n├── docs/\n├── src/\n├── alpha.md (1.5 KB)\n└── zeta.txt (3 B)\n"
    );
}

#[test]
fn dir_list_nested_prefixes_and_hidden() {
    let text = dir_list_report("/proj", &sample_tree(), 3, true);
    assert_eq!(
        text,
        "/proj/\n├── docs/\n├── src/\n│   ├── deep/\n│   │   └── x (1 B)\n│   └── main.rs (12 B)\n├── .hidden (1 B)\n├── alpha.md (1.5 KB)\n└── zeta.txt (3 B)\n"
    );
    assert_eq!(dir_list_report("/proj", &sample_tree(), 0, true), "/proj/\n");
}

#[test]
fn glob_files_report_limits_and_empty() {
    let found = vec!["a.rs".to_string(), "b/c.rs".to_string(), "d.rs".to_string()];
    assert_eq!(glob_files_report("*.rs", &found, 2), "a.rs\nb/c.rs");
    assert_eq!(glob_files_report("*.rs", &found, 100), "a.rs\nb/c.rs\nd.rs");
    assert_eq!(
        glob_files_report("*.rs", &vec![], 5),
        "No files found matching pattern: *.rs"
    );
    assert_eq!(
        glob_files_report("*.rs", &found, 0),
        "No files found matching pattern: *.rs"
    );
}

#[test]
fn fs_read_requests_with_defaults_and_errors() {
    match fs_read_request("file_head", &json(r#"{"path": "a.txt"}"#)) {
        Ok(Some(FsReadRequest::Head { path, lines })) => {
            assert_eq!(path, "a.txt");
            assert_eq!(lines, 50);
        }
        _ => panic!("expected a head request"),
    }
    match fs_read_request("file_tail", &json(r#"{"path": "a.txt", "lines": 3}"#)) {
        Ok(Some(FsReadRequest::Tail { lines, .. })) => assert_eq!(lines, 3),
        _ => panic!("expected a tail request"),
    }
    let e = fs_read_request("file_head", &json("{}")).err().unwrap();
    assert_eq!(e.message, "Must provide path");
    let e = fs_read_request("file_lines", &json(r#"{"path": "a", "end": 2}"#)).err().unwrap();
    assert_eq!(e.message, "Missing 'start' parameter");
    let e = fs_read_request("file_lines", &json(r#"{"path": "a", "start": 0, "end": 2}"#))
        .err()
        .unwrap();
    assert_eq!(e.message, "Line numbers are 1-indexed, start must be >= 1");
    let e = fs_read_request("file_lines", &json(r#"{"path": "a", "start": 3, "end": 2}"#))
        .err()
        .unwrap();
    assert_eq!(e.message, "End line must be >= start line");
    match fs_read_request("file_grep", &json(r#"{"path": "a", "pattern": "x"}"#)) {
        Ok(Some(FsReadRequest::Grep { context_before, context_after, .. })) => {
            assert_eq!((context_before, context_after), (2, 2));
        }
        _ => panic!("expected a grep request"),
    }
    match fs_read_request("dir_list", &json(r#"{"show_hidden": true}"#)) {
        Ok(Some(FsReadRequest::DirList { path, depth, show_hidden })) => {
            assert_eq!(path, ".");
            assert_eq!(depth, 1);
            // only the string "true" turns hidden entries on
            assert!(!show_hidden);
        }
        _ => panic!("expected a dir_list request"),
    }
    match fs_read_request("glob_files", &json(r#"{"pattern": "*.rs"}"#)) {
        Ok(Some(FsReadRequest::GlobFiles { max_results, .. })) => assert_eq!(max_results, 100),
        _ => panic!("expected a glob request"),
    }
    match fs_read_request("grep_files", &json(r#"{"pattern": "x", "file_pattern": "*.md"}"#)) {
        Ok(Some(FsReadRequest::GrepFiles { file_pattern, context_lines, max_results, .. })) => {
            assert_eq!(file_pattern, Some("*.md".to_string()));
            assert_eq!((context_lines, max_results), (2, 50));
        }
        _ => panic!("expected a grep_files request"),
    }
    assert!(matches!(fs_read_request("write_file", &json("{}")), Ok(None)));
}


// === memory requests, dispatch, loading, fetching ===

use chibi_core::state::app::{check_vfs_backend, context_source, resolve_chibi_dir, ContextSource};
use chibi_core::state::entries::{create_system_prompt_changed_entry, ENTRY_TYPE_SYSTEM_PROMPT_CHANGED};
use chibi_core::tools::memory::{flock_membership_reply, memory_request, MemoryRequest};
use chibi_core::tools::network::{check_fetch_response, check_fetch_url, fetch_request, LimitedBody};

#[test]
fn memory_requests_from_arguments() {
    match memory_request("update_goals", &json(r#"{"flock": "dev", "content": "ship"}"#)) {
        Some(Ok(MemoryRequest::Goals { flock, content })) => {
            assert_eq!(flock, "dev");
            assert_eq!(content, "ship");
        }
        _ => panic!("expected a goals request"),
    }
    let e = memory_request("update_goals", &json(r#"{"content": "ship"}"#))
        .unwrap()
        .err()
        .unwrap();
    assert_eq!(e.message, "Missing 'flock' parameter");
    let e = memory_request("update_goals", &json(r#"{"flock": "dev"}"#))
        .unwrap()
        .err()
        .unwrap();
    assert_eq!(e.message, "Missing 'content' parameter");
    assert!(matches!(
        memory_request("update_reflection", &json("{}")),
        Some(Ok(MemoryRequest::Reflection))
    ));
    match memory_request("read_context", &json(r#"{"context_name": "other"}"#)) {
        Some(Ok(MemoryRequest::ReadContext { target })) => assert_eq!(target, "other"),
        _ => panic!("expected a read_context request"),
    }
    let e = memory_request("read_context", &json("{}"))
        .expect("a memory tool")
        .err()
        .expect("an error");
    assert_eq!(e.kind, ErrorKind::InvalidInput);
    assert_eq!(e.message, "Missing 'context_name' parameter");
    assert!(matches!(
        memory_request("flock_join", &json(r#"{"flock": "dev"}"#)),
        Some(Ok(MemoryRequest::FlockJoin { .. }))
    ));
    assert!(matches!(
        memory_request("flock_leave", &json("{}")),
        Some(Err(_))
    ));
    assert!(memory_request("shell_exec", &json("{}")).is_none());
    assert_eq!(flock_membership_reply(true, "dev"), "Joined flock 'dev'.");
    assert_eq!(flock_membership_reply(false, "dev"), "Left flock 'dev'.");
}

#[test]
fn dispatch_target_of_registered_and_unknown_tools() {
    let mut reg = ToolRegistry::new();
    reg.register(tool("p", ToolCategory::Plugin, ToolImpl::Plugin("/bin/p".to_string())));
    match reg.dispatch_target("p") {
        Ok(ToolImpl::Plugin(path)) => assert_eq!(path, "/bin/p"),
        _ => panic!("expected the plugin"),
    }
    let e = reg.dispatch_target("nope").err().unwrap();
    assert_eq!(e.kind, ErrorKind::NotFound);
    assert_eq!(e.message, "unknown tool: nope");
}

#[test]
fn chibi_dir_precedence_and_backend() {
    assert_eq!(
        resolve_chibi_dir(Some("/flag"), Some("/env"), Some("/home/u")).unwrap(),
        "/flag"
    );
    assert_eq!(resolve_chibi_dir(None, Some("/env"), Some("/home/u")).unwrap(), "/env");
    assert_eq!(
        resolve_chibi_dir(None, None, Some("/home/u")).unwrap(),
        "/home/u/.chibi"
    );
    let e = resolve_chibi_dir(None, None, None).err().unwrap();
    assert_eq!(e.kind, ErrorKind::NotFound);
    assert_eq!(e.message, "Home directory not found");
    assert!(check_vfs_backend("local").is_ok());
    assert_eq!(
        check_vfs_backend("s3").err().unwrap().message,
        "unsupported VFS backend 's3' (only 'local' is built in)"
    );
}

#[test]
fn context_sources_by_files_present() {
    assert_eq!(context_source("c", true, false, false, true).unwrap(), ContextSource::Jsonl);
    assert_eq!(context_source("c", false, false, true, false).unwrap(), ContextSource::Jsonl);
    assert_eq!(context_source("c", false, false, false, true).unwrap(), ContextSource::Migrate);
    let e = context_source("c", false, false, false, false).err().unwrap();
    assert_eq!(e.kind, ErrorKind::NotFound);
    assert_eq!(e.message, "Context 'c' not found");
}

#[test]
fn system_prompt_changed_entry_parts() {
    let e = create_system_prompt_changed_entry("ctx", "be kind");
    assert_eq!(e.from, "system");
    assert_eq!(e.to, "ctx");
    assert_eq!(e.content, "be kind");
    assert_eq!(e.entry_type, ENTRY_TYPE_SYSTEM_PROMPT_CHANGED);
    assert_eq!(e.id.len(), 36);
}

#[test]
fn fetch_arguments_and_checks() {
    let (url, max_bytes, timeout) = fetch_request(&json(r#"{"url": "https://x.org"}"#)).unwrap();
    assert_eq!(url, "https://x.org");
    assert_eq!((max_bytes, timeout), (1_048_576, 30));
    let e = fetch_request(&json("{}")).err().unwrap();
    assert_eq!(e.message, "Missing 'url' parameter");
    assert!(check_fetch_url("http://a").is_ok());
    assert_eq!(
        check_fetch_url("ftp://a").err().unwrap().message,
        "URL must start with http:// or https://, got: ftp://a"
    );
    assert_eq!(
        check_fetch_response(404, false, Some("Not Found"), None, 10).err().unwrap().message,
        "HTTP 404 Not Found"
    );
    assert_eq!(
        check_fetch_response(599, false, None, None, 10).err().unwrap().message,
        "HTTP 599 Unknown"
    );
    assert_eq!(
        check_fetch_response(200, true, Some("OK"), Some(11), 10).err().unwrap().message,
        "Response too large: Content-Length 11 exceeds limit of 10 bytes"
    );
    assert!(check_fetch_response(200, true, Some("OK"), Some(10), 10).is_ok());
}

#[test]
fn limited_body_cuts_at_the_limit() {
    let mut body = LimitedBody::new(5);
    assert!(body.push_chunk(b"abc"));
    assert!(!body.push_chunk(b"defg"));
    assert_eq!(
        body.finish(),
        "abcde\n\n[Truncated: response exceeded limit of 5 bytes]"
    );
    let mut whole = LimitedBody::new(5);
    assert!(whole.push_chunk(b"ab"));
    assert!(whole.push_chunk(b"cde"));
    // no room left: the next chunk, even empty, marks the body cut
    assert!(!whole.push_chunk(b""));
    assert!(whole.finish().ends_with("[Truncated: response exceeded limit of 5 bytes]"));
    let mut fits = LimitedBody::new(5);
    assert!(fits.push_chunk(b"hi"));
    assert_eq!(fits.finish(), "hi");
    // invalid UTF-8 is replaced, not copied
    let mut bad = LimitedBody::new(5);
    assert!(bad.push_chunk(&[b'a', 0xff, b'b']));
    assert_eq!(bad.finish(), "a\u{fffd}b");
}

// === MCP bridge replies ===

use chibi_core::tools::mcp::{call_tool_request, call_tool_result, list_tools_result, BridgeToolInfo};

#[test]
fn bridge_list_tools_replies() {
    let tools = list_tools_result(
        true,
        vec![BridgeToolInfo {
            server: "serena".to_string(),
            name: "find_symbol".to_string(),
            description: "find".to_string(),
            parameters: json(r#"{"type": "object"}"#),
        }],
        None,
    )
    .unwrap();
    assert_eq!(tools.len(), 1);
    assert_eq!(tools[0].name, "serena_find_symbol");
    assert!(is_mcp_tool(&tools[0]));
    let e = list_tools_result(false, vec![], None).err().unwrap();
    assert_eq!(e.message, "bridge error");
    let e = list_tools_result(false, vec![], Some("down".to_string())).err().unwrap();
    assert_eq!(e.message, "down");
}

#[test]
fn bridge_call_tool_replies_and_request() {
    assert_eq!(call_tool_result(true, Some("r".to_string()), None).unwrap(), "r");
    assert_eq!(call_tool_result(true, None, Some("ignored".to_string())).unwrap(), "");
    assert_eq!(call_tool_result(false, None, None).err().unwrap().message, "MCP tool error");
    let req = call_tool_request("serena", "find_symbol", json(r#"{"name": "x"}"#));
    assert_eq!(text_at(&req, &["op"]), "call_tool");
    assert_eq!(text_at(&req, &["server"]), "serena");
    assert_eq!(text_at(&req, &["tool"]), "find_symbol");
    assert_eq!(text_at(&req, &["args", "name"]), "x");
}

// === registering the built-in groups ===

use chibi_core::tools::registration::{
    register_eval_tools, register_flow_tools, register_fs_read_tools, register_fs_write_tools,
    register_index_tools, register_memory_tools, register_network_tools, register_shell_tools,
    register_vfs_tools,
};

#[test]
fn test_register_all_builtins() {
    let mut reg = ToolRegistry::new();
    register_memory_tools(&mut reg);
    register_fs_read_tools(&mut reg);
    register_fs_write_tools(&mut reg);
    register_shell_tools(&mut reg);
    register_network_tools(&mut reg);
    register_index_tools(&mut reg);
    register_flow_tools(&mut reg);
    register_vfs_tools(&mut reg);
    register_eval_tools(&mut reg);

    let total = reg.all().len();
    assert!(total > 20, "expected 20+ builtin tools, got {total}");
    assert_eq!(reg.get("file_head").unwrap().category, ToolCategory::FsRead);
    assert_eq!(reg.get("shell_exec").unwrap().category, ToolCategory::Shell);
    assert_eq!(reg.get("fetch_url").unwrap().category, ToolCategory::Network);
    assert_eq!(reg.get("vfs_list").unwrap().category, ToolCategory::Vfs);
    assert_eq!(reg.get("spawn_agent").unwrap().category, ToolCategory::Flow);
    assert_eq!(reg.get("update_reflection").unwrap().category, ToolCategory::Memory);
    assert_eq!(reg.get("scheme_eval").unwrap().category, ToolCategory::Eval);
    assert!(
        !reg.get("scheme_eval").unwrap().metadata.parallel,
        "scheme_eval must not be parallel"
    );
}

#[test]
fn registered_flow_tools_carry_their_metadata() {
    let mut reg = ToolRegistry::new();
    register_flow_tools(&mut reg);
    let call_user = reg.get("call_user").unwrap();
    assert!(call_user.metadata.flow_control && call_user.metadata.ends_turn);
    assert!(!reg.get("spawn_agent").unwrap().metadata.parallel);
    assert!(reg.get("send_message").unwrap().metadata.parallel);
    assert!(reg.get("call_agent").is_none());
    assert!(matches!(reg.get("model_info").unwrap().implementation, ToolImpl::Builtin));
    assert_eq!(
        text_at(&reg.get("send_message").unwrap().parameters, &["type"]),
        "object"
    );
}

// === fs_write requests ===

use chibi_core::tools::fs_write::{fs_write_request, write_file_reply, FsWriteRequest};

#[test]
fn fs_write_requests_and_reply() {
    match fs_write_request("write_file", &json(r#"{"path": "a.txt", "content": "hé"}"#)) {
        Some(Ok(FsWriteRequest::WriteFile { path, content })) => {
            assert_eq!(path, "a.txt");
            assert_eq!(write_file_reply(&path, &content), "File written successfully: a.txt (3 bytes)");
        }
        _ => panic!("expected a write request"),
    }
    let e = fs_write_request("write_file", &json(r#"{"content": "x"}"#)).unwrap().err().unwrap();
    assert_eq!(e.message, "Missing 'path' parameter");
    let e = fs_write_request("write_file", &json(r#"{"path": "a"}"#)).unwrap().err().unwrap();
    assert_eq!(e.message, "Missing 'content' parameter");
    assert!(matches!(
        fs_write_request(
            "file_edit",
            &json(r#"{"path": "a", "operation": "delete_lines", "line_start": 1, "line_end": 2}"#)
        ),
        Some(Ok(FsWriteRequest::FileEdit { .. }))
    ));
    let e = fs_write_request("file_edit", &json(r#"{"path": "a"}"#)).unwrap().err().unwrap();
    assert_eq!(e.message, "Missing 'operation' parameter");
    assert!(fs_write_request("file_edit", &json(r#"{"path": "a", "operation": "teleport"}"#))
        .unwrap()
        .is_err());
    assert!(fs_write_request("file_head", &json("{}")).is_none());
}

// === where tasks are found ===

use chibi_core::state::tasks::{task_display_path, task_roots};

#[test]
fn task_roots_and_display_paths() {
    let roots = task_roots("ctx", &["dev".to_string(), "ops".to_string()]);
    assert_eq!(
        roots,
        vec![
            ("/home/ctx/tasks".to_string(), String::new()),
            ("/flocks/dev/tasks".to_string(), " (flock:dev)".to_string()),
            ("/flocks/ops/tasks".to_string(), " (flock:ops)".to_string()),
        ]
    );
    assert_eq!(
        task_display_path("/home/ctx/tasks", "/home/ctx/tasks/epic/login.task", "login.task", ""),
        "epic/login.task"
    );
    assert_eq!(
        task_display_path("/flocks/dev/tasks/", "/flocks/dev/tasks/a.task", "a.task", " (flock:dev)"),
        "a.task (flock:dev)"
    );
    assert_eq!(task_display_path("/elsewhere", "/x/y.task", "y.task", ""), "y.task");
}

// === contexts as loaded ===

use chibi_core::error::ToolError;
use chibi_core::state::conversation::{add_message, get_or_create_context, Context};

#[test]
fn test_get_or_create_context_creates_default() {
    let loaded = Err(ToolError::new(ErrorKind::NotFound, "Context 'default' not found".to_string()));
    let context = get_or_create_context("default", loaded).unwrap();
    assert_eq!(context.name, "default");
    assert!(context.messages.is_empty());
}

#[test]
fn test_add_message() {
    let loaded = Err(ToolError::new(ErrorKind::NotFound, "Context 'default' not found".to_string()));
    let mut context = get_or_create_context("default", loaded).unwrap();
    assert!(context.messages.is_empty());
    add_message(&mut context, "user", "Test message");
    assert_eq!(context.messages.len(), 1);
    assert_eq!(text_at(&context.messages[0], &["role"]), "user");
    assert_eq!(text_at(&context.messages[0], &["content"]), "Test message");
    assert_eq!(text_at(&context.messages[0], &["_id"]).len(), 36);
    assert!(context.updated_at > 0);
}

#[test]
fn loaded_context_times_and_other_errors() {
    let entries = vec![
        create_user_message_entry("ctx", "hi", "user"),
        create_assistant_message_entry("ctx", "hello"),
    ];
    let mut last = plain_entry("ctx", "user", "bye", "message");
    last.timestamp = 4242;
    let mut all = entries;
    all.push(last);
    let c = Context::from_entries("ctx", &all, "sum", 7);
    assert_eq!(c.messages.len(), 3);
    assert_eq!(c.updated_at, 4242);
    assert_eq!(c.created_at, 7);
    assert_eq!(c.summary, "sum");
    let empty = Context::from_entries("ctx", &[], "", 7);
    assert_eq!(empty.updated_at, 7);
    let kept = get_or_create_context("ctx", Ok(Context::from_entries("ctx", &[], "s", 1))).unwrap();
    assert_eq!(kept.summary, "s");
    let e = get_or_create_context("ctx", Err(ToolError::new(ErrorKind::InvalidData, "bad".to_string())))
        .err()
        .unwrap();
    assert_eq!(e.kind, ErrorKind::InvalidData);
}

#[test]
fn test_all_builtin_tools_to_api_format_includes_memory_and_flow() {
    // memory (5) + flow (5) = 10
    let tools = all_builtin_tools_to_api_format();
    assert_eq!(tools.len(), 10);
    for tool in &tools {
        assert_eq!(text_at(tool, &["type"]), "function");
        assert!(matches!(at(tool, &["function", "name"]), Json::Str(_)));
    }
}

#[test]
fn test_builtin_tools_to_api_format_with_reflection() {
    let tools = builtin_tools_to_api_format(true);
    assert_eq!(tools.len(), 10);
}

#[test]
fn test_builtin_tools_to_api_format_without_reflection() {
    let tools = builtin_tools_to_api_format(false);
    assert_eq!(tools.len(), 9);
    for tool in &tools {
        assert_ne!(text_at(tool, &["function", "name"]), "update_reflection");
    }
}

#[test]
fn builtin_api_format_keeps_group_order() {
    let tools = builtin_tools_to_api_format(false);
    let names: Vec<String> = tools.iter().map(|t| text_at(t, &["function", "name"])).collect();
    assert_eq!(names[0], "update_goals");
    assert_eq!(names[4], "send_message");
    assert_eq!(names[8], "summarize_content");
}

#[test]
fn test_all_agent_tools_to_api_format() {
    let tools = all_agent_tools_to_api_format(&[]);
    assert_eq!(tools.len(), 2);
    for tool in &tools {
        assert_eq!(text_at(tool, &["type"]), "function");
        assert!(matches!(at(tool, &["function", "name"]), Json::Str(_)));
    }
}

#[test]
fn test_agent_tool_schema_has_preset_param() {
    let spawn = get_agent_tool_def(SPAWN_AGENT_TOOL_NAME)
        .expect("tool should exist in registry")
        .to_api_format();
    let params = at(&spawn, &["function", "parameters", "properties"]);
    assert!(params.get("preset").is_some(), "spawn_agent should have preset param");
}

#[test]
fn test_agent_tools_description_lists_capabilities() {
    let tools = all_agent_tools_to_api_format(&["fast", "reasoning"]);
    let desc = preset_description(&tools);
    assert!(desc.contains("fast"), "description should list 'fast'");
    assert!(desc.contains("reasoning"), "description should list 'reasoning'");
}

#[test]
fn test_agent_tools_description_no_capabilities() {
    let tools = all_agent_tools_to_api_format(&[]);
    let desc = preset_description(&tools);
    assert!(desc.contains("no presets"), "should mention no presets configured");
}

#[test]
fn test_all_file_tools_to_api_format() {
    let tools = all_file_tools_to_api_format();
    assert_eq!(tools.len(), 6);
    for tool in &tools {
        assert_eq!(text_at(tool, &["type"]), "function");
        assert!(matches!(at(tool, &["function", "name"]), Json::Str(_)));
    }
}

fn api_names(tools: &[Json]) -> Vec<String> {
    tools.iter().map(|t| text_at(t, &["function", "name"])).collect()
}

fn def_names(defs: Vec<BuiltinToolDef>) -> Vec<String> {
    defs.iter().map(|d| d.name.to_string()).collect()
}

#[test]
fn group_api_formats_follow_their_definitions() {
    assert_eq!(api_names(&all_fs_read_tools_to_api_format()), def_names(fs_read_tool_defs()));
    assert_eq!(api_names(&all_fs_write_tools_to_api_format()), def_names(fs_write_tool_defs()));
    assert_eq!(api_names(&all_index_tools_to_api_format()), def_names(index_tool_defs()));
    assert_eq!(api_names(&all_network_tools_to_api_format()), def_names(network_tool_defs()));
    assert_eq!(api_names(&all_coding_tools_to_api_format()), def_names(coding_tool_defs()));
    assert_eq!(api_names(&all_fs_read_tools_to_api_format()).len(), 7);
    assert_eq!(api_names(&all_network_tools_to_api_format()), vec!["fetch_url".to_string()]);
}

#[test]
fn group_api_format_carries_schema() {
    let tools = all_fs_write_tools_to_api_format();
    let write = tools
        .iter()
        .find(|t| text_at(t, &["function", "name"]) == "write_file")
        .expect("write_file in list");
    assert_eq!(text_at(write, &["function", "parameters", "type"]), "object");
    let required = strings_at(write, &["function", "parameters", "required"]);
    assert!(required.contains(&"path".to_string()));
    assert!(required.contains(&"content".to_string()));
}

#[test]
fn search_root_checks() {
    let missing = check_search_root("/no/such", false, false, true).unwrap_err();
    assert_eq!(missing.kind, ErrorKind::NotFound);
    assert_eq!(missing.message, "Path not found: /no/such");
    let file = check_search_root("/etc/hosts", true, false, true).unwrap_err();
    assert_eq!(file.kind, ErrorKind::InvalidInput);
    assert_eq!(file.message, "Path is not a directory: /etc/hosts");
    assert!(check_search_root("/etc/hosts", true, false, false).is_ok());
    assert!(check_search_root("/etc", true, true, true).is_ok());
}
