use chibi_core::tools::flow::{
    flow_tool_defs, flow_tool_metadata, is_flow_tool, is_url, Handoff, HandoffTarget,
    CALL_AGENT_TOOL_NAME, CALL_USER_TOOL_NAME, MODEL_INFO_TOOL_NAME, SEND_MESSAGE_TOOL_NAME,
    SPAWN_AGENT_TOOL_NAME, SUMMARIZE_CONTENT_TOOL_NAME,
};
use chibi_core::tools::hooks::{
    generate_hooks_docs_alist, generate_hooks_markdown, hook_metadata, HookPoint,
};

// === flow ===

#[test]
fn test_flow_registry_contains_all_tools() {
    let defs = flow_tool_defs();
    assert_eq!(defs.len(), 5);
    let names: Vec<_> = defs.iter().map(|d| d.name).collect();
    assert!(names.contains(&SEND_MESSAGE_TOOL_NAME));
    assert!(
        !names.contains(&CALL_AGENT_TOOL_NAME),
        "call_agent must not be in registry"
    );
    assert!(names.contains(&CALL_USER_TOOL_NAME));
    assert!(names.contains(&MODEL_INFO_TOOL_NAME));
    assert!(names.contains(&SPAWN_AGENT_TOOL_NAME));
    assert!(names.contains(&SUMMARIZE_CONTENT_TOOL_NAME));
}

#[test]
fn test_flow_tool_constants() {
    assert_eq!(SEND_MESSAGE_TOOL_NAME, "send_message");
    assert_eq!(CALL_AGENT_TOOL_NAME, "call_agent");
    assert_eq!(CALL_USER_TOOL_NAME, "call_user");
    assert_eq!(MODEL_INFO_TOOL_NAME, "model_info");
    assert_eq!(SPAWN_AGENT_TOOL_NAME, "spawn_agent");
    assert_eq!(SUMMARIZE_CONTENT_TOOL_NAME, "summarize_content");
}

#[test]
fn test_is_flow_tool() {
    assert!(is_flow_tool(SEND_MESSAGE_TOOL_NAME));
    assert!(
        !is_flow_tool(CALL_AGENT_TOOL_NAME),
        "call_agent must not be in flow tool registry"
    );
    assert!(is_flow_tool(CALL_USER_TOOL_NAME));
    assert!(is_flow_tool(MODEL_INFO_TOOL_NAME));
    assert!(is_flow_tool(SPAWN_AGENT_TOOL_NAME));
    assert!(is_flow_tool(SUMMARIZE_CONTENT_TOOL_NAME));
    assert!(!is_flow_tool("file_head"));
    assert!(!is_flow_tool("update_reflection"));
}

#[test]
fn test_flow_tool_metadata_call_agent() {
    let meta = flow_tool_metadata(CALL_AGENT_TOOL_NAME);
    assert!(!meta.parallel);
    assert!(meta.flow_control);
    assert!(!meta.ends_turn);
}

#[test]
fn test_flow_tool_metadata_call_user() {
    let meta = flow_tool_metadata(CALL_USER_TOOL_NAME);
    assert!(!meta.parallel);
    assert!(meta.flow_control);
    assert!(meta.ends_turn);
}

#[test]
fn test_flow_tool_metadata_spawn_agent() {
    let meta = flow_tool_metadata(SPAWN_AGENT_TOOL_NAME);
    assert!(!meta.parallel);
    assert!(!meta.flow_control);
    assert!(!meta.ends_turn);
}

#[test]
fn flow_tool_metadata_of_regular_tool_is_default() {
    let meta = flow_tool_metadata("file_head");
    assert!(meta.parallel);
    assert!(!meta.flow_control);
    assert!(!meta.ends_turn);
}

#[test]
fn test_handoff_default() {
    let target = HandoffTarget::default();
    match target {
        HandoffTarget::Agent { prompt } => assert!(prompt.is_empty()),
        _ => panic!("Expected Agent variant"),
    }
}

#[test]
fn test_handoff_explicit_takes_precedence() {
    let fallback = HandoffTarget::User {
        message: "fallback".to_string(),
    };
    let mut handoff = Handoff::new(fallback);
    handoff.set_agent("explicit prompt".to_string());

    match handoff.take() {
        HandoffTarget::Agent { prompt } => assert_eq!(prompt, "explicit prompt"),
        _ => panic!("Expected Agent variant"),
    }
    match handoff.take() {
        HandoffTarget::User { message } => assert_eq!(message, "fallback"),
        _ => panic!("Expected User variant"),
    }
}

#[test]
fn test_handoff_last_wins() {
    let fallback = HandoffTarget::Agent {
        prompt: String::new(),
    };
    let mut handoff = Handoff::new(fallback);
    handoff.set_agent("first".to_string());
    handoff.set_user("second".to_string());
    handoff.set_agent("third".to_string());

    match handoff.take() {
        HandoffTarget::Agent { prompt } => assert_eq!(prompt, "third"),
        _ => panic!("Expected Agent variant"),
    }
}

#[test]
fn test_handoff_ends_turn_requested_user() {
    let mut handoff = Handoff::new(HandoffTarget::Agent {
        prompt: String::new(),
    });
    handoff.set_user("bye".to_string());
    assert!(handoff.ends_turn_requested());
}

#[test]
fn test_handoff_ends_turn_requested_agent() {
    let mut handoff = Handoff::new(HandoffTarget::User {
        message: String::new(),
    });
    handoff.set_agent("continue".to_string());
    assert!(!handoff.ends_turn_requested());
}

#[test]
fn handoff_fallback_replaced_and_ends_turn_only_explicit() {
    let mut handoff = Handoff::new(HandoffTarget::Agent {
        prompt: String::new(),
    });
    assert!(!handoff.ends_turn_requested());
    handoff.set_fallback(HandoffTarget::User {
        message: "done".to_string(),
    });
    assert!(!handoff.ends_turn_requested());
    match handoff.take() {
        HandoffTarget::User { message } => assert_eq!(message, "done"),
        _ => panic!("Expected User variant"),
    }
}

#[test]
fn flow_test_is_url() {
    assert!(is_url("http://example.com"));
    assert!(is_url("https://example.com/path"));
    assert!(!is_url("/home/user/file.txt"));
    assert!(!is_url("relative/path"));
}

// === hooks ===

const ALL_HOOKS: &[(&str, HookPoint)] = &[
    ("pre_message", HookPoint::PreMessage),
    ("post_message", HookPoint::PostMessage),
    ("pre_tool", HookPoint::PreTool),
    ("post_tool", HookPoint::PostTool),
    ("pre_tool_output", HookPoint::PreToolOutput),
    ("post_tool_output", HookPoint::PostToolOutput),
    ("pre_clear", HookPoint::PreClear),
    ("post_clear", HookPoint::PostClear),
    ("pre_compact", HookPoint::PreCompact),
    ("post_compact", HookPoint::PostCompact),
    ("pre_rolling_compact", HookPoint::PreRollingCompact),
    ("post_rolling_compact", HookPoint::PostRollingCompact),
    ("on_start", HookPoint::OnStart),
    ("on_end", HookPoint::OnEnd),
    ("pre_system_prompt", HookPoint::PreSystemPrompt),
    ("post_system_prompt", HookPoint::PostSystemPrompt),
    ("pre_send_message", HookPoint::PreSendMessage),
    ("post_send_message", HookPoint::PostSendMessage),
    ("pre_cache_output", HookPoint::PreCacheOutput),
    ("post_cache_output", HookPoint::PostCacheOutput),
    ("pre_api_tools", HookPoint::PreApiTools),
    ("pre_api_request", HookPoint::PreApiRequest),
    ("pre_agentic_loop", HookPoint::PreAgenticLoop),
    ("post_tool_batch", HookPoint::PostToolBatch),
    ("pre_file_read", HookPoint::PreFileRead),
    ("pre_file_write", HookPoint::PreFileWrite),
    ("pre_shell_exec", HookPoint::PreShellExec),
    ("pre_fetch_url", HookPoint::PreFetchUrl),
    ("pre_spawn_agent", HookPoint::PreSpawnAgent),
    ("post_spawn_agent", HookPoint::PostSpawnAgent),
    ("post_index_file", HookPoint::PostIndexFile),
    ("pre_vfs_write", HookPoint::PreVfsWrite),
    ("post_vfs_write", HookPoint::PostVfsWrite),
];

#[test]
fn test_hook_point_from_str_valid() {
    for (s, expected) in ALL_HOOKS {
        let result = HookPoint::parse(s);
        assert!(result.is_some(), "parse failed for '{}'", s);
        assert_eq!(result.unwrap(), *expected);
    }
}

#[test]
fn test_hook_point_from_str_invalid() {
    assert!(HookPoint::parse("").is_none());
    assert!(HookPoint::parse("unknown").is_none());
    assert!(HookPoint::parse("PreMessage").is_none()); // wrong case
    assert!(HookPoint::parse("pre-message").is_none()); // wrong separator
}

#[test]
fn test_hook_point_as_str() {
    for (expected_str, hook) in ALL_HOOKS {
        assert_eq!(hook.as_str(), *expected_str);
    }
}

#[test]
fn test_hook_point_round_trip() {
    for (s, _) in ALL_HOOKS {
        let hook = HookPoint::parse(s).unwrap();
        assert_eq!(hook.as_str(), *s);
    }
}

#[test]
fn test_hook_metadata_categories_valid() {
    let category_order = [
        "session",
        "message",
        "system_prompt",
        "tool",
        "api",
        "agentic",
        "file_permission",
        "url_security",
        "agent",
        "cache",
        "message_delivery",
        "index",
        "vfs_write",
        "context",
    ];
    let valid: std::collections::HashSet<&str> = category_order.iter().copied().collect();
    let mut bad = Vec::new();
    for meta in hook_metadata() {
        if !valid.contains(meta.category) {
            bad.push(format!("{}: {:?}", meta.point.as_str(), meta.category));
        }
    }
    assert!(
        bad.is_empty(),
        "hook metadata entries with unknown category: {bad:?}"
    );
}

#[test]
fn all_hook_points_listed_once() {
    let all = HookPoint::all();
    assert_eq!(all.len(), ALL_HOOKS.len());
    for (i, (_, hook)) in ALL_HOOKS.iter().enumerate() {
        assert_eq!(all[i], *hook);
    }
    assert_eq!(hook_metadata().len(), ALL_HOOKS.len());
}

#[test]
fn hooks_markdown_lists_every_hook() {
    let md = generate_hooks_markdown();
    for (s, _) in ALL_HOOKS {
        assert!(md.contains(s), "markdown misses {}", s);
    }
}

#[test]
fn test_generate_hooks_docs_alist_contains_all_hooks() {
    let alist = generate_hooks_docs_alist();
    assert!(
        alist.starts_with("'("),
        "alist must start with quote+paren: {alist}"
    );
    for variant in HookPoint::all() {
        let key = variant.as_str();
        assert!(
            alist.contains(&format!("({key} . ")),
            "hooks-docs alist missing key: {key}"
        );
    }
}

#[test]
fn hooks_docs_alist_escapes_and_closes() {
    let alist = generate_hooks_docs_alist();
    assert!(alist.ends_with(')'));
    assert!(alist.contains("(__module__ . \"hook points"));
    assert!(alist.contains(" | can modify: "));
}
