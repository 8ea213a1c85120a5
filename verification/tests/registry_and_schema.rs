use chibi_core::json::{Json, JsonNumber};
use chibi_core::tools::builtin_tool_names;
use chibi_core::tools::eval::eval_tool_defs;
use chibi_core::tools::flow::flow_tool_defs;
use chibi_core::tools::fs_read::fs_read_tool_defs;
use chibi_core::tools::fs_write::fs_write_tool_defs;
use chibi_core::tools::hooks::HookPoint;
use chibi_core::tools::index::index_tool_defs;
use chibi_core::tools::mcp::{is_mcp_tool, mcp_tool_from_info, parse_mcp_path};
use chibi_core::tools::memory::memory_tool_defs;
use chibi_core::tools::network::network_tool_defs;
use chibi_core::tools::registry::{Tool, ToolCategory, ToolImpl, ToolRegistry};
use chibi_core::tools::schema::{get_tool_metadata, tool_call_summary};
use chibi_core::tools::shell::shell_tool_defs;
use chibi_core::tools::vfs_tools::vfs_tool_defs;
use chibi_core::tools::{BuiltinToolDef, ToolMetadata, ToolPropertyDef};

fn plain_tool(name: &str, category: ToolCategory) -> Tool {
    Tool {
        name: name.to_string(),
        description: "test".to_string(),
        parameters: Json::Object(vec![]),
        hooks: vec![],
        metadata: ToolMetadata::new(),
        summary_params: vec![],
        implementation: ToolImpl::Builtin,
        category,
    }
}

fn synthesised_tool(name: &str, path: &str) -> Tool {
    Tool {
        implementation: ToolImpl::Synthesised {
            vfs_path: path.to_string(),
            exec_binding: "tool-execute".to_string(),
        },
        ..plain_tool(name, ToolCategory::Synthesised)
    }
}

fn names_of(reg: &ToolRegistry) -> Vec<String> {
    reg.all().iter().map(|t| t.name.clone()).collect()
}

// === builtin tool names ===

#[test]
fn test_builtin_tool_names_includes_all_registries() {
    let names = builtin_tool_names();

    assert!(names.contains(&"update_reflection"));
    assert!(names.contains(&"model_info"));
    assert!(names.contains(&"file_head"));
    assert!(names.contains(&"spawn_agent"));
    assert!(names.contains(&"shell_exec"));
    assert!(names.contains(&"file_edit"));
    assert!(names.contains(&"vfs_list"));

    let expected_count = memory_tool_defs().len()
        + flow_tool_defs().len()
        + fs_read_tool_defs().len()
        + fs_write_tool_defs().len()
        + shell_tool_defs().len()
        + network_tool_defs().len()
        + index_tool_defs().len()
        + vfs_tool_defs().len()
        + eval_tool_defs().len();
    assert_eq!(names.len(), expected_count);
    assert!(names.contains(&"scheme_eval"));
}

#[test]
fn test_builtin_tool_names_no_duplicates() {
    let names = builtin_tool_names();
    let mut seen = std::collections::HashSet::new();
    for name in &names {
        assert!(seen.insert(name), "duplicate built-in tool name: {}", name);
    }
}

#[test]
fn builtin_tool_names_order_of_groups() {
    let names = builtin_tool_names();
    assert_eq!(names[0], "update_reflection");
    assert_eq!(names[5], "file_head");
    assert_eq!(names[names.len() - 1], "scheme_eval");
}

// === registry ===

#[test]
fn test_tool_category_debug() {
    let cats = [
        ToolCategory::Memory,
        ToolCategory::FsRead,
        ToolCategory::FsWrite,
        ToolCategory::Shell,
        ToolCategory::Network,
        ToolCategory::Index,
        ToolCategory::Flow,
        ToolCategory::Vfs,
        ToolCategory::Plugin,
        ToolCategory::Mcp,
        ToolCategory::Synthesised,
        ToolCategory::Eval,
    ];
    for cat in &cats {
        let _ = format!("{cat:?}");
    }
}

#[test]
fn tool_category_keys() {
    assert_eq!(ToolCategory::Memory.as_str(), "memory");
    assert_eq!(ToolCategory::FsRead.as_str(), "fs_read");
    assert_eq!(ToolCategory::FsWrite.as_str(), "fs_write");
    assert_eq!(ToolCategory::Synthesised.as_str(), "synthesised");
    assert_eq!(ToolCategory::Eval.as_str(), "eval");
}

#[test]
fn registry_register_and_get() {
    let mut reg = ToolRegistry::new();
    reg.register(plain_tool("my_tool", ToolCategory::Plugin));
    assert!(reg.get("my_tool").is_some());
    assert!(reg.get("nonexistent").is_none());
    assert_eq!(reg.get("my_tool").unwrap().category, ToolCategory::Plugin);
}

#[test]
fn registry_unregister() {
    let mut reg = ToolRegistry::new();
    reg.register(plain_tool("rm_me", ToolCategory::Plugin));
    assert!(reg.get("rm_me").is_some());
    let removed = reg.unregister("rm_me");
    assert!(removed.is_some());
    assert!(reg.get("rm_me").is_none());
    assert!(reg.unregister("rm_me").is_none());
}

#[test]
fn registry_preserves_insertion_order_and_replaces_in_place() {
    let mut reg = ToolRegistry::new();
    reg.register(plain_tool("charlie", ToolCategory::Plugin));
    reg.register(plain_tool("alice", ToolCategory::Plugin));
    reg.register(plain_tool("bob", ToolCategory::Plugin));
    assert_eq!(names_of(&reg), vec!["charlie", "alice", "bob"]);
    reg.register(plain_tool("alice", ToolCategory::Memory));
    assert_eq!(names_of(&reg), vec!["charlie", "alice", "bob"]);
    assert_eq!(reg.get("alice").unwrap().category, ToolCategory::Memory);
    assert_eq!(reg.len(), 3);
}

#[test]
fn registry_unregister_preserves_order_of_remaining() {
    let mut reg = ToolRegistry::new();
    for n in ["a", "b", "c", "d"] {
        reg.register(plain_tool(n, ToolCategory::Plugin));
    }
    reg.unregister("b");
    assert_eq!(names_of(&reg), vec!["a", "c", "d"]);
}

#[test]
fn registry_filter_by_predicate() {
    let mut reg = ToolRegistry::new();
    reg.register(plain_tool("read1", ToolCategory::FsRead));
    reg.register(plain_tool("write1", ToolCategory::FsWrite));
    reg.register(plain_tool("read2", ToolCategory::FsRead));
    let reads: Vec<&str> = reg
        .filter(|t| t.category == ToolCategory::FsRead)
        .iter()
        .map(|t| t.name.as_str())
        .collect();
    assert_eq!(reads, vec!["read1", "read2"]);
}

#[test]
fn registry_visibility_rules() {
    let mut reg = ToolRegistry::new();
    reg.register(synthesised_tool("shared_tool", "/tools/shared/foo.scm"));
    reg.register(synthesised_tool("alice_tool", "/tools/home/alice/foo.scm"));
    reg.register(synthesised_tool("flock_tool", "/tools/flocks/dev/foo.scm"));
    reg.register(synthesised_tool("odd_tool", "/elsewhere/foo.scm"));
    reg.register(plain_tool("builtin_tool", ToolCategory::FsRead));
    assert!(reg.is_tool_visible("shared_tool", "alice", &[]));
    assert!(reg.is_tool_visible("shared_tool", "bob", &[]));
    assert!(reg.is_tool_visible("alice_tool", "alice", &[]));
    assert!(!reg.is_tool_visible("alice_tool", "bob", &[]));
    assert!(reg.is_tool_visible("flock_tool", "alice", &["dev".to_string()]));
    assert!(!reg.is_tool_visible("flock_tool", "bob", &[]));
    assert!(reg.is_tool_visible("odd_tool", "bob", &[]));
    assert!(reg.is_tool_visible("builtin_tool", "anyone", &[]));
    assert!(reg.is_tool_visible("nonexistent", "alice", &[]));
}

#[test]
fn registry_find_all_by_vfs_path() {
    let mut reg = ToolRegistry::new();
    reg.register(synthesised_tool("one", "/tools/shared/multi.scm"));
    reg.register(synthesised_tool("other", "/tools/shared/other.scm"));
    reg.register(synthesised_tool("two", "/tools/shared/multi.scm"));
    reg.register(plain_tool("plain", ToolCategory::Memory));
    assert_eq!(reg.find_all_by_vfs_path("/tools/shared/multi.scm"), vec!["one", "two"]);
    assert!(reg.find_all_by_vfs_path("/nope").is_empty());
}

#[test]
fn tool_hook_eligibility() {
    let plugin = plain_tool("p", ToolCategory::Plugin);
    assert!(plugin.is_hook_eligible());
    let mut synth = synthesised_tool("s", "/tools/shared/s.scm");
    assert!(!synth.is_hook_eligible());
    synth.hooks.push(HookPoint::PreMessage);
    assert!(synth.is_hook_eligible());
    assert!(!plain_tool("b", ToolCategory::Memory).is_hook_eligible());
}

#[test]
fn tool_metadata_from_registry_or_flow_tools() {
    let mut reg = ToolRegistry::new();
    let mut t = plain_tool("custom", ToolCategory::Plugin);
    t.metadata.parallel = false;
    reg.register(t);
    assert!(!get_tool_metadata(&reg, "custom").parallel);
    let call_user = get_tool_metadata(&reg, "call_user");
    assert!(call_user.flow_control && call_user.ends_turn);
    assert!(get_tool_metadata(&reg, "unknown").parallel);
}

// === schema and api format ===

fn sample_def() -> BuiltinToolDef {
    BuiltinToolDef {
        name: "sample",
        description: "A sample tool",
        properties: vec![
            ToolPropertyDef {
                name: "path",
                prop_type: "string",
                description: "file path",
                default: None,
            },
            ToolPropertyDef {
                name: "lines",
                prop_type: "integer",
                description: "line count",
                default: Some(10),
            },
        ],
        required: vec!["path"],
        summary_params: vec!["path"],
    }
}

#[test]
fn builtin_def_json_schema() {
    let schema = sample_def().to_json_schema();
    assert_eq!(schema.get_str("type"), Some("object".to_string()));
    let props = schema.get("properties").unwrap();
    let path = props.get("path").unwrap();
    assert_eq!(path.get_str("type"), Some("string".to_string()));
    assert_eq!(path.get_str("description"), Some("file path".to_string()));
    assert!(path.get("default").is_none());
    let lines = props.get("lines").unwrap();
    assert_eq!(lines.get_u64("default"), Some(10));
    match schema.get("required").unwrap() {
        Json::Array(items) => {
            assert_eq!(items.len(), 1);
            assert_eq!(items[0].as_str().unwrap(), "path");
        }
        _ => panic!("required must be an array"),
    }
}

#[test]
fn builtin_def_negative_default_is_signed() {
    let def = BuiltinToolDef {
        properties: vec![ToolPropertyDef {
            name: "offset",
            prop_type: "integer",
            description: "offset",
            default: Some(-3),
        }],
        ..sample_def()
    };
    let schema = def.to_json_schema();
    let offset = schema.get("properties").unwrap().get("offset").unwrap();
    match offset.get("default").unwrap() {
        Json::Number(JsonNumber::NegInt(n)) => assert_eq!(*n, -3),
        _ => panic!("expected a negative integer"),
    }
}

#[test]
fn builtin_def_api_format_and_tool_from_def() {
    let def = sample_def();
    let api = def.to_api_format();
    assert_eq!(api.get_str("type"), Some("function".to_string()));
    let f = api.get("function").unwrap();
    assert_eq!(f.get_str("name"), Some("sample".to_string()));
    assert_eq!(f.get_str("description"), Some("A sample tool".to_string()));
    assert!(f.get("parameters").unwrap().get("properties").is_some());

    let tool = Tool::from_builtin_def(&def, ToolCategory::FsRead);
    assert_eq!(tool.name, "sample");
    assert_eq!(tool.summary_params, vec!["path"]);
    assert!(tool.hooks.is_empty());
    assert!(matches!(tool.implementation, ToolImpl::Builtin));
    let tapi = tool.to_api_format();
    let tf = tapi.get("function").unwrap();
    assert_eq!(tf.get_str("name"), Some("sample".to_string()));
    assert_eq!(
        tf.get("parameters").unwrap().get_str("type"),
        Some("object".to_string())
    );
}

// === tool call summaries ===

#[test]
fn tool_call_summary_with_plugin_params() {
    let mut reg = ToolRegistry::new();
    let mut t = plain_tool("my_plugin", ToolCategory::Plugin);
    t.summary_params = vec!["path".to_string(), "pattern".to_string()];
    reg.register(t);
    let summary = tool_call_summary(&reg, "my_plugin", r#"{"path": "src/main.rs", "pattern": "TODO"}"#);
    assert_eq!(summary, Some("src/main.rs TODO".to_string()));
}

#[test]
fn tool_call_summary_builtin_fallback_and_failures() {
    let reg = ToolRegistry::new();
    assert_eq!(
        tool_call_summary(&reg, "file_head", r#"{"path": "a.txt", "lines": 5}"#),
        Some("a.txt".to_string())
    );
    assert_eq!(tool_call_summary(&reg, "file_head", "not json"), None);
    assert_eq!(tool_call_summary(&reg, "file_head", r#"{"lines": 5}"#), None);
    assert_eq!(tool_call_summary(&reg, "no_such_tool", r#"{"path": "a"}"#), None);
}

// === mcp ===

#[test]
fn parse_mcp_path_valid() {
    assert_eq!(
        parse_mcp_path("mcp://serena/find_symbol"),
        Some(("serena".to_string(), "find_symbol".to_string()))
    );
}

#[test]
fn parse_mcp_path_underscores() {
    assert_eq!(
        parse_mcp_path("mcp://foo/bar_baz"),
        Some(("foo".to_string(), "bar_baz".to_string()))
    );
}

#[test]
fn parse_mcp_path_not_mcp() {
    assert_eq!(parse_mcp_path("/usr/bin/tool"), None);
}

#[test]
fn parse_mcp_path_splits_at_first_slash() {
    assert_eq!(
        parse_mcp_path("mcp://a/b/c"),
        Some(("a".to_string(), "b/c".to_string()))
    );
    assert_eq!(parse_mcp_path("mcp://noslash"), None);
}

#[test]
fn mcp_tool_from_info_names_and_serves() {
    let tool = mcp_tool_from_info("serena", "find_symbol", "find symbols", Json::Object(vec![]));
    assert_eq!(tool.name, "serena_find_symbol");
    assert_eq!(tool.category, ToolCategory::Mcp);
    assert!(is_mcp_tool(&tool));
    assert!(!is_mcp_tool(&plain_tool("x", ToolCategory::Memory)));
    match &tool.implementation {
        ToolImpl::Mcp { server, tool_name } => {
            assert_eq!(server, "serena");
            assert_eq!(tool_name, "find_symbol");
        }
        _ => panic!("expected an MCP tool"),
    }
}
