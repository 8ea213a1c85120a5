use chibi_core::error::ErrorKind;
use chibi_core::json::{parse_json, to_json_text, Json};
use chibi_core::state::contexts::rename_precheck;
use chibi_core::state::app::{AppState, ContextEntry, StatePaths};
use chibi_core::state::entries::{
    create_archival_anchor, create_assistant_message_entry, create_compaction_anchor,
    create_context_created_anchor, create_tool_call_entry, create_tool_result_entry,
    create_user_message_entry, now_timestamp, parse_jsonl_entries, timestamp_from_seconds, TranscriptEntry,
    ENTRY_TYPE_ARCHIVAL, ENTRY_TYPE_COMPACTION, ENTRY_TYPE_CONTEXT_CREATED, ENTRY_TYPE_MESSAGE,
    ENTRY_TYPE_TOOL_CALL, ENTRY_TYPE_TOOL_RESULT,
};
use chibi_core::state::flocks::{format_flock_sections, FlockContext};
use chibi_core::state::messages::{entries_to_messages, messages_to_entries};
use chibi_core::state::tasks::{build_summary_table, compute_blocked, task_meta_from_datums, Sexp, TaskMeta};
use chibi_core::state::window::{is_context_entry, rebuild_context_entries};
use chibi_core::tools::registry::{Tool, ToolCategory, ToolImpl};
use chibi_core::tools::ToolMetadata;

fn create_test_app() -> AppState {
    AppState::from_dir("/tmp/chibi-test-home")
}

fn entry(id: &str, from: &str, to: &str, content: &str, entry_type: &str) -> TranscriptEntry {
    TranscriptEntry {
        id: id.to_string(),
        timestamp: 1000,
        from: from.to_string(),
        to: to.to_string(),
        content: content.to_string(),
        entry_type: entry_type.to_string(),
        metadata: None,
        tool_call_id: None,
    }
}

fn role_of(m: &Json) -> String {
    m.get_str("role").unwrap()
}

fn message(role: &str, content: &str) -> Json {
    Json::Object(vec![
        ("role".to_string(), Json::Str(role.to_string())),
        ("content".to_string(), Json::Str(content.to_string())),
    ])
}

// === flocks ===

#[test]
fn test_format_flock_goals_for_prompt() {
    let contexts = vec![
        FlockContext {
            flock_name: "site:s1".to_string(),
            prompt: Some("site prompt".to_string()),
            goals: Some("site goal".to_string()),
        },
        FlockContext {
            flock_name: "team".to_string(),
            prompt: None,
            goals: Some("team goal".to_string()),
        },
    ];
    let formatted = format_flock_sections(&contexts);
    assert!(formatted.contains("--- PROMPT [site:s1] ---"));
    assert!(formatted.contains("--- GOALS [site:s1] ---"));
    assert!(formatted.contains("--- GOALS [team] ---"));
    assert!(!formatted.contains("--- PROMPT [team] ---"));
}

#[test]
fn test_format_flock_sections_empty() {
    let contexts = vec![FlockContext {
        flock_name: "site:s1".to_string(),
        prompt: None,
        goals: None,
    }];
    assert!(format_flock_sections(&contexts).is_empty());
}

#[test]
fn flock_sections_prompts_before_goals_exact() {
    let contexts = vec![
        FlockContext {
            flock_name: "a".to_string(),
            prompt: None,
            goals: Some("ga".to_string()),
        },
        FlockContext {
            flock_name: "b".to_string(),
            prompt: Some("pb".to_string()),
            goals: None,
        },
    ];
    assert_eq!(
        format_flock_sections(&contexts),
        "\n\n--- PROMPT [b] ---\npb\n\n--- GOALS [a] ---\nga"
    );
}

// === tasks ===

fn task(id: &str, status: &str, deps: &[&str], path: &str, summary: &str) -> TaskMeta {
    TaskMeta {
        id: id.into(),
        status: status.into(),
        priority: "high".into(),
        depends_on: deps.iter().map(|d| d.to_string()).collect(),
        assigned_to: None,
        path: path.into(),
        summary_line: summary.into(),
    }
}

#[test]
fn test_compute_blocked() {
    let tasks = vec![
        TaskMeta {
            id: "a".into(),
            status: "done".into(),
            priority: "high".into(),
            depends_on: vec![],
            assigned_to: None,
            path: "a.task".into(),
            summary_line: "".into(),
        },
        TaskMeta {
            id: "b".into(),
            status: "pending".into(),
            priority: "medium".into(),
            depends_on: vec!["a".into()],
            assigned_to: None,
            path: "b.task".into(),
            summary_line: "".into(),
        },
        TaskMeta {
            id: "c".into(),
            status: "pending".into(),
            priority: "high".into(),
            depends_on: vec!["b".into()],
            assigned_to: None,
            path: "c.task".into(),
            summary_line: "".into(),
        },
    ];
    let blocked = compute_blocked(&tasks);
    assert!(!blocked.contains_key("b"));
    assert_eq!(*blocked.get("c").unwrap(), vec!["b".to_string()]);
}

#[test]
fn compute_blocked_unknown_dependency_blocks() {
    let tasks = vec![task("x", "pending", &["ghost", "y"], "x.task", ""), task("y", "done", &[], "y.task", "")];
    let blocked = compute_blocked(&tasks);
    assert_eq!(blocked.len(), 1);
    assert_eq!(*blocked.get("x").unwrap(), vec!["ghost".to_string()]);
}

#[test]
fn test_build_summary_table() {
    let tasks = vec![
        TaskMeta {
            id: "a3f2".into(),
            status: "in-progress".into(),
            priority: "high".into(),
            depends_on: vec![],
            assigned_to: None,
            path: "epic/login.task".into(),
            summary_line: "implement the auth flow".into(),
        },
        TaskMeta {
            id: "b1c4".into(),
            status: "done".into(),
            priority: "medium".into(),
            depends_on: vec![],
            assigned_to: None,
            path: "ui/nav.task".into(),
            summary_line: "redesign nav".into(),
        },
    ];
    let table = build_summary_table(&tasks);
    assert!(table.contains("--- tasks ---"));
    assert!(table.contains("a3f2"));
    assert!(table.contains("in-progress"));
    assert!(table.contains("--- 1 active, 1 done ---"));
}

#[test]
fn test_build_summary_empty() {
    let table = build_summary_table(&[]);
    assert!(table.is_empty(), "no tasks = no injection");
}

#[test]
fn test_no_injection_when_no_tasks() {
    let summary = build_summary_table(&[]);
    assert!(summary.is_empty(), "empty summary → no injection happens");
}

#[test]
fn summary_table_exact_layout_with_blocked_task_and_long_path() {
    let tasks = vec![
        task("a", "pending", &["b", "z"], "very/long/path/to/the/task.task", "do it"),
        task("b", "in-progress", &[], "b.task", "first"),
    ];
    let table = build_summary_table(&tasks);
    let expected = format!(
        "--- tasks ---\n{:<8} {:<12} {:<10} {:<20} {}\n{:<8} {:<12} {:<10} {:<20} {}\n{:<8} {:<12} {:<10} {:<20} {}\n--- 2 active (1 blocked), 0 done ---\n",
        "id", "status", "priority", "path", "summary",
        "a", "pending", "high", "very/long/path/to/t…", "do it (blocked by: b, z)",
        "b", "in-progress", "high", "b.task", "first",
    );
    assert_eq!(table, expected);
}

// The datums of a `.task` file, as the s-expression reader hands them over.

#[test]
fn test_parse_full_task() {
    // ((id . "a3f2") (status . pending) (priority . high) (depends-on "b1c4" "e7d0")
    //  (assigned-to . "worker-1") (created . "20260308-1423z") (updated . "20260308-1445z"))
    // "implement the auth flow.\n\nacceptance criteria:\n- JWT tokens"
    let alist = Sexp::List(vec![
        Sexp::DottedList(vec![Sexp::Symbol("id".into())], Box::new(Sexp::Str("a3f2".into()))),
        Sexp::DottedList(vec![Sexp::Symbol("status".into())], Box::new(Sexp::Symbol("pending".into()))),
        Sexp::DottedList(vec![Sexp::Symbol("priority".into())], Box::new(Sexp::Symbol("high".into()))),
        Sexp::List(vec![
            Sexp::Symbol("depends-on".into()),
            Sexp::Str("b1c4".into()),
            Sexp::Str("e7d0".into()),
        ]),
        Sexp::DottedList(vec![Sexp::Symbol("assigned-to".into())], Box::new(Sexp::Str("worker-1".into()))),
        Sexp::DottedList(vec![Sexp::Symbol("created".into())], Box::new(Sexp::Str("20260308-1423z".into()))),
        Sexp::DottedList(vec![Sexp::Symbol("updated".into())], Box::new(Sexp::Str("20260308-1445z".into()))),
    ]);
    let body = Sexp::Str("implement the auth flow.\n\nacceptance criteria:\n- JWT tokens".into());
    let meta = task_meta_from_datums(&[alist, body], "epic/login.task").unwrap();
    assert_eq!(meta.id, "a3f2");
    assert_eq!(meta.status, "pending");
    assert_eq!(meta.priority, "high");
    assert_eq!(meta.depends_on, vec!["b1c4", "e7d0"]);
    assert_eq!(meta.assigned_to, Some("worker-1".into()));
    assert_eq!(meta.path, "epic/login.task");
    assert_eq!(meta.summary_line, "implement the auth flow.");
}

#[test]
fn test_parse_minimal_task() {
    // ((id . "b1c4") (status . done) (created . "20260308-1400z") (updated . "20260308-1500z"))
    let minimal = Sexp::List(vec![
        Sexp::DottedList(vec![Sexp::Symbol("id".into())], Box::new(Sexp::Str("b1c4".into()))),
        Sexp::DottedList(vec![Sexp::Symbol("status".into())], Box::new(Sexp::Symbol("done".into()))),
        Sexp::DottedList(vec![Sexp::Symbol("created".into())], Box::new(Sexp::Str("20260308-1400z".into()))),
        Sexp::DottedList(vec![Sexp::Symbol("updated".into())], Box::new(Sexp::Str("20260308-1500z".into()))),
    ]);
    let meta = task_meta_from_datums(&[minimal], "b1c4.task").unwrap();
    assert_eq!(meta.id, "b1c4");
    assert_eq!(meta.status, "done");
    assert_eq!(meta.priority, "medium"); // default
    assert_eq!(meta.depends_on, Vec::<String>::new());
    assert_eq!(meta.assigned_to, None);
    assert_eq!(meta.summary_line, "");
}

#[test]
fn test_parse_invalid_content() {
    // "not valid scheme" reads as three symbols: the first datum is no list
    let datums = [
        Sexp::Symbol("not".into()),
        Sexp::Symbol("valid".into()),
        Sexp::Symbol("scheme".into()),
    ];
    let e = task_meta_from_datums(&datums, "bad.task").unwrap_err();
    assert_eq!(e.message, "first datum must be a list");
    assert!(task_meta_from_datums(&[], "x.task").is_err());
}

#[test]
fn test_parse_missing_id() {
    // ((status . pending) (created . "x") (updated . "x"))
    let no_id = Sexp::List(vec![
        Sexp::DottedList(vec![Sexp::Symbol("status".into())], Box::new(Sexp::Symbol("pending".into()))),
        Sexp::DottedList(vec![Sexp::Symbol("created".into())], Box::new(Sexp::Str("x".into()))),
        Sexp::DottedList(vec![Sexp::Symbol("updated".into())], Box::new(Sexp::Str("x".into()))),
    ]);
    let e = task_meta_from_datums(&[no_id], "x.task").unwrap_err();
    assert_eq!(e.message, "task missing id field");
}

#[test]
fn test_parse_missing_status() {
    // ((id . "ab12") (created . "x") (updated . "x"))
    let no_status = Sexp::List(vec![
        Sexp::DottedList(vec![Sexp::Symbol("id".into())], Box::new(Sexp::Str("ab12".into()))),
        Sexp::DottedList(vec![Sexp::Symbol("created".into())], Box::new(Sexp::Str("x".into()))),
        Sexp::DottedList(vec![Sexp::Symbol("updated".into())], Box::new(Sexp::Str("x".into()))),
    ]);
    let e = task_meta_from_datums(&[no_status], "x.task").unwrap_err();
    assert_eq!(e.message, "task missing status field");
}

#[test]
fn summary_table_cuts_long_paths_by_characters() {
    let long = format!("{}.task", "é".repeat(21));
    let tasks = vec![task("a", "pending", &[], &long, "x"), task("b", "done", &[], "aéééééééééé", "y")];
    let table = build_summary_table(&tasks);
    let cut = format!("{}…", "é".repeat(19));
    assert!(table.contains(&format!("{:<20} x", cut)));
    // eleven characters (21 bytes) fit in the column and are shown whole
    assert!(table.contains(&format!("{:<20} y", "aéééééééééé")));
}

// === paths ===

#[test]
fn test_context_dir() {
    let app = create_test_app();
    let dir = app.context_dir("mycontext");
    assert!(dir.ends_with("contexts/mycontext"));
}

#[test]
fn test_context_file() {
    let app = create_test_app();
    let file = app.context_file("mycontext");
    assert!(file.ends_with("contexts/mycontext/context.jsonl"));
}

#[test]
fn test_todos_file() {
    let app = create_test_app();
    let file = app.todos_file("mycontext");
    assert!(file.ends_with("contexts/mycontext/todos.md"));
}

#[test]
fn test_goals_file() {
    let app = create_test_app();
    let file = app.goals_file("mycontext");
    assert!(file.ends_with("contexts/mycontext/goals.md"));
}

#[test]
fn test_inbox_file() {
    let app = create_test_app();
    let file = app.inbox_file("mycontext");
    assert!(file.ends_with("contexts/mycontext/inbox.jsonl"));
}

#[test]
fn state_paths_exact_values() {
    let app = create_test_app();
    assert_eq!(app.contexts_dir, "/tmp/chibi-test-home/contexts");
    assert_eq!(app.state_path, "/tmp/chibi-test-home/state.json");
    assert_eq!(
        app.cache_file("c", "abc"),
        "/tmp/chibi-test-home/contexts/c/tool_cache/abc.cache"
    );
    assert_eq!(
        app.cache_meta_file("c", "abc"),
        "/tmp/chibi-test-home/contexts/c/tool_cache/abc.meta.json"
    );
    assert_eq!(app.dirty_marker_file("c"), "/tmp/chibi-test-home/contexts/c/.dirty");
}

// === context bookkeeping ===

#[test]
fn test_list_contexts_empty() {
    let app = create_test_app();
    let contexts = app.list_contexts();
    assert!(contexts.is_empty());
}

#[test]
fn test_touch_context_with_destroy_settings_on_new_context() {
    let mut app = create_test_app();
    app.state.contexts.push(ContextEntry::with_created_at(
        "new-test-context",
        now_timestamp(),
    ));
    let result = app
        .touch_context_with_destroy_settings("new-test-context", None, Some(60))
        .unwrap();
    assert!(
        result,
        "Should successfully apply debug settings to new context"
    );
    let entry = app
        .state
        .contexts
        .iter()
        .find(|e| e.name == "new-test-context")
        .unwrap();
    assert_eq!(entry.destroy_after_seconds_inactive, 60);
    assert_eq!(entry.destroy_at, 0);
    assert!(
        entry.last_activity_at > 0,
        "last_activity_at should be updated by touch"
    );
}

#[test]
fn touch_unknown_context_and_exact_times() {
    let mut app = create_test_app();
    app.state.contexts.push(ContextEntry::with_created_at("a", 5));
    app.state.contexts.push(ContextEntry::with_created_at("b", 7));
    assert!(!app.touch_context_at("zzz", 100, Some(1), Some(2)));
    assert!(app.touch_context_at("b", 100, Some(9), None));
    assert_eq!(app.state.contexts[1].last_activity_at, 100);
    assert_eq!(app.state.contexts[1].destroy_at, 9);
    assert_eq!(app.state.contexts[1].destroy_after_seconds_inactive, 0);
    assert_eq!(app.state.contexts[0].last_activity_at, 5);
    assert_eq!(app.list_contexts(), vec!["a", "b"]);
    assert_eq!(app.get_context_created_at("b"), 7);
    assert_eq!(app.recorded_created_at("zzz"), None);
}

#[test]
fn validate_config_fallback_rules() {
    let app = create_test_app();
    assert!(app.validate_config("call_user", &[]).is_ok());
    assert!(app.validate_config("call_agent", &[]).is_ok());
    let e = app.validate_config("nope", &[]).unwrap_err();
    assert_eq!(e.message, "fallback_tool 'nope' not found");
    let plugin = Tool {
        name: "my_fallback".to_string(),
        description: String::new(),
        parameters: Json::Null,
        hooks: vec![],
        metadata: ToolMetadata::new(),
        summary_params: vec![],
        implementation: ToolImpl::Plugin("/bin/x".to_string()),
        category: ToolCategory::Plugin,
    };
    let e = app.validate_config("my_fallback", std::slice::from_ref(&plugin)).unwrap_err();
    assert_eq!(e.message, "fallback_tool 'my_fallback' must have flow_control=true metadata");
    let mut flow = plugin;
    flow.metadata.flow_control = true;
    assert!(app.validate_config("my_fallback", &[flow]).is_ok());
    assert_eq!(app.resolve_model_name("gpt-x"), "gpt-x");
}

// === transcript entries ===

#[test]
fn test_create_user_message_entry() {
    let entry = create_user_message_entry("default", "Hello", "alice");
    assert!(!entry.id.is_empty());
    assert!(entry.timestamp > 0);
    assert_eq!(entry.from, "alice");
    assert_eq!(entry.to, "default");
    assert_eq!(entry.content, "Hello");
    assert_eq!(entry.entry_type, ENTRY_TYPE_MESSAGE);
}

#[test]
fn test_create_assistant_message_entry() {
    let entry = create_assistant_message_entry("default", "Hi there!");
    assert_eq!(entry.from, "default");
    assert_eq!(entry.to, "user");
    assert_eq!(entry.content, "Hi there!");
    assert_eq!(entry.entry_type, ENTRY_TYPE_MESSAGE);
}

#[test]
fn test_create_tool_call_entry() {
    let entry = create_tool_call_entry("default", "web_search", r#"{"query": "rust"}"#, "tc_1");
    assert_eq!(entry.from, "default");
    assert_eq!(entry.to, "web_search");
    assert_eq!(entry.entry_type, ENTRY_TYPE_TOOL_CALL);
    assert_eq!(entry.tool_call_id, Some("tc_1".to_string()));
}

#[test]
fn test_create_tool_result_entry() {
    let entry = create_tool_result_entry("default", "web_search", "Search results...", "tc_1");
    assert_eq!(entry.from, "web_search");
    assert_eq!(entry.to, "default");
    assert_eq!(entry.entry_type, ENTRY_TYPE_TOOL_RESULT);
    assert_eq!(entry.tool_call_id, Some("tc_1".to_string()));
}

#[test]
fn anchors_and_fresh_ids() {
    let a = create_context_created_anchor("ctx");
    assert_eq!(a.entry_type, ENTRY_TYPE_CONTEXT_CREATED);
    assert_eq!(a.content, "Context created");
    assert_eq!(a.from, "system");
    let c = create_compaction_anchor("ctx", "sum");
    assert_eq!(c.entry_type, ENTRY_TYPE_COMPACTION);
    assert_eq!(c.metadata.as_ref().unwrap().summary, Some("sum".to_string()));
    let r = create_archival_anchor("ctx");
    assert_eq!(r.entry_type, ENTRY_TYPE_ARCHIVAL);
    assert_eq!(r.content, "Context archived/cleared");
    assert_eq!(a.id.len(), 36);
    assert_eq!(&a.id[14..15], "4");
    assert_ne!(a.id, c.id);
}

// === JSONL parsing ===

#[test]
fn test_jsonl_empty_file() {
    let entries = parse_jsonl_entries("");
    assert!(entries.is_empty());
}

#[test]
fn test_jsonl_blank_lines() {
    let content = r#"
{"id":"1","timestamp":1234567890,"from":"user","to":"ctx","content":"hello","entry_type":"message"}

{"id":"2","timestamp":1234567891,"from":"ctx","to":"user","content":"hi","entry_type":"message"}

"#;
    let entries = parse_jsonl_entries(content);
    assert_eq!(entries.len(), 2);
    assert_eq!(entries[0].content, "hello");
    assert_eq!(entries[1].content, "hi");
}

#[test]
fn test_jsonl_malformed_entries_skipped() {
    let content = r#"{"id":"1","timestamp":1234567890,"from":"user","to":"ctx","content":"hello","entry_type":"message"}
not valid json at all
{"id":"2","timestamp":1234567891,"from":"ctx","to":"user","content":"hi","entry_type":"message"}
{"incomplete": true
{"id":"3","timestamp":1234567892,"from":"user","to":"ctx","content":"bye","entry_type":"message"}"#;
    let entries = parse_jsonl_entries(content);
    assert_eq!(entries.len(), 3, "Should have 3 valid entries");
    assert_eq!(entries[0].content, "hello");
    assert_eq!(entries[1].content, "hi");
    assert_eq!(entries[2].content, "bye");
}

#[test]
fn test_jsonl_unicode_content() {
    let content = r#"{"id":"1","timestamp":1234567890,"from":"user","to":"ctx","content":"こんにちは 🎉 Привет","entry_type":"message"}"#;
    let entries = parse_jsonl_entries(content);
    assert_eq!(entries.len(), 1);
    assert_eq!(entries[0].content, "こんにちは 🎉 Привет");
}

#[test]
fn test_jsonl_with_escaped_content() {
    let content = r#"{"id":"1","timestamp":1234567890,"from":"user","to":"ctx","content":"line1\nline2\ttab","entry_type":"message"}"#;
    let entries = parse_jsonl_entries(content);
    assert_eq!(entries.len(), 1);
    assert!(entries[0].content.contains('\n'));
    assert!(entries[0].content.contains('\t'));
}

#[test]
fn test_jsonl_missing_optional_fields() {
    let content = r#"{"id":"1","timestamp":1234567890,"from":"user","to":"ctx","content":"hello","entry_type":"message"}"#;
    let entries = parse_jsonl_entries(content);
    assert_eq!(entries.len(), 1);
    assert!(entries[0].metadata.is_none());
}

#[test]
fn test_jsonl_with_metadata() {
    let content = r#"{"id":"1","timestamp":1234567890,"from":"user","to":"ctx","content":"hello","entry_type":"message","metadata":{"summary":"test summary"}}"#;
    let entries = parse_jsonl_entries(content);
    assert_eq!(entries.len(), 1);
    assert!(entries[0].metadata.is_some());
    assert_eq!(
        entries[0].metadata.as_ref().unwrap().summary,
        Some("test summary".to_string())
    );
}

#[test]
fn jsonl_rejects_wrong_types() {
    let content = r#"{"id":1,"timestamp":1,"from":"u","to":"c","content":"x","entry_type":"message"}
{"id":"2","timestamp":-5,"from":"u","to":"c","content":"x","entry_type":"message"}
{"id":"3","timestamp":3,"from":"u","to":"c","content":"x","entry_type":"message","tool_call_id":7}
{"id":"4","timestamp":4,"from":"u","to":"c","content":"x","entry_type":"message","tool_call_id":null}"#;
    let entries = parse_jsonl_entries(content);
    assert_eq!(entries.len(), 1);
    assert_eq!(entries[0].id, "4");
    assert_eq!(entries[0].tool_call_id, None);
}

#[test]
fn test_backward_compat_old_context_jsonl_without_tool_call_id() {
    let content = r#"{"id":"1","timestamp":1000,"from":"user","to":"ctx","content":"hello","entry_type":"message"}
{"id":"2","timestamp":1001,"from":"ctx","to":"web_search","content":"{\"q\":\"test\"}","entry_type":"tool_call"}
{"id":"3","timestamp":1002,"from":"web_search","to":"ctx","content":"results","entry_type":"tool_result"}
{"id":"4","timestamp":1003,"from":"ctx","to":"user","content":"done","entry_type":"message"}"#;
    let entries = parse_jsonl_entries(content);
    let messages = entries_to_messages(&entries);
    assert_eq!(messages.len(), 4);
    assert_eq!(role_of(&messages[0]), "user");
    assert_eq!(role_of(&messages[1]), "assistant");
    assert!(messages[1].get("tool_calls").unwrap().is_array());
    assert_eq!(role_of(&messages[2]), "tool");
    assert_eq!(messages[2].get_str("tool_call_id"), Some("synth_2".to_string()));
    assert_eq!(role_of(&messages[3]), "assistant");
}

// === entries to messages and back ===

#[test]
fn batches_of_tool_calls() {
    let mut c1 = entry("c1", "ctx", "t1", "{}", ENTRY_TYPE_TOOL_CALL);
    c1.tool_call_id = Some("id1".to_string());
    let mut c2 = entry("c2", "ctx", "t2", "{}", ENTRY_TYPE_TOOL_CALL);
    c2.tool_call_id = Some("id2".to_string());
    let r1 = entry("r1", "t1", "ctx", "one", ENTRY_TYPE_TOOL_RESULT);
    let mut r2 = entry("r2", "t2", "ctx", "two", ENTRY_TYPE_TOOL_RESULT);
    r2.tool_call_id = Some("id2".to_string());
    let c3 = entry("c3", "ctx", "t3", "{}", ENTRY_TYPE_TOOL_CALL);
    let r3 = entry("r3", "t3", "ctx", "three", ENTRY_TYPE_TOOL_RESULT);
    let anchor = entry("a", "system", "ctx", "Context created", ENTRY_TYPE_CONTEXT_CREATED);
    let msgs = entries_to_messages(&[anchor, c1, c2, r1, r2, c3, r3]);
    assert_eq!(msgs.len(), 5);
    match msgs[0].get("tool_calls").unwrap() {
        Json::Array(calls) => {
            assert_eq!(calls.len(), 2);
            assert_eq!(calls[0].get_str("id"), Some("id1".to_string()));
            assert_eq!(calls[1].get("function").unwrap().get_str("name"), Some("t2".to_string()));
        }
        _ => panic!("expected tool_calls array"),
    }
    assert_eq!(msgs[1].get_str("tool_call_id"), Some("id1".to_string()));
    assert_eq!(msgs[2].get_str("tool_call_id"), Some("id2".to_string()));
    assert_eq!(role_of(&msgs[3]), "assistant");
    assert_eq!(msgs[4].get_str("tool_call_id"), Some("synth_c3".to_string()));
    assert_eq!(role_of(&msgs[4]), "tool");
}

#[test]
fn orphan_tool_result_is_its_own_message() {
    let r = entry("r9", "t", "ctx", "late", ENTRY_TYPE_TOOL_RESULT);
    let msgs = entries_to_messages(&[r]);
    assert_eq!(msgs.len(), 1);
    assert_eq!(msgs[0].get_str("tool_call_id"), Some("synth_r9".to_string()));
    assert_eq!(msgs[0].get_str("content"), Some("late".to_string()));
}

#[test]
fn chat_messages_save_and_load() {
    let msgs = vec![
        message("user", "Hello"),
        message("assistant", "Hi there!"),
        message("system", "ignored"),
    ];
    let entries = messages_to_entries(&msgs, "ctx");
    assert_eq!(entries.len(), 2);
    assert_eq!(entries[0].from, "user");
    assert_eq!(entries[0].to, "ctx");
    assert_eq!(entries[1].from, "ctx");
    assert_eq!(entries[1].to, "user");
    let back = entries_to_messages(&entries);
    assert_eq!(back.len(), 2);
    assert_eq!(role_of(&back[0]), "user");
    assert_eq!(back[0].get_str("content"), Some("Hello".to_string()));
    assert_eq!(role_of(&back[1]), "assistant");
    assert_eq!(back[1].get_str("content"), Some("Hi there!".to_string()));
}

#[test]
fn assistant_tool_calls_become_call_entries() {
    let call = Json::Object(vec![
        ("id".to_string(), Json::Str("tc_9".to_string())),
        (
            "function".to_string(),
            Json::Object(vec![("name".to_string(), Json::Str("web_search".to_string()))]),
        ),
    ]);
    let assistant = Json::Object(vec![
        ("role".to_string(), Json::Str("assistant".to_string())),
        ("tool_calls".to_string(), Json::Array(vec![call])),
    ]);
    let tool = Json::Object(vec![
        ("role".to_string(), Json::Str("tool".to_string())),
        ("tool_call_id".to_string(), Json::Str("".to_string())),
        ("content".to_string(), Json::Str("res".to_string())),
    ]);
    let entries = messages_to_entries(&[assistant, tool], "ctx");
    assert_eq!(entries.len(), 2);
    assert_eq!(entries[0].entry_type, ENTRY_TYPE_TOOL_CALL);
    assert_eq!(entries[0].to, "web_search");
    assert_eq!(entries[0].content, "{}");
    assert_eq!(entries[0].tool_call_id, Some("tc_9".to_string()));
    assert_eq!(entries[1].entry_type, ENTRY_TYPE_TOOL_RESULT);
    assert_eq!(entries[1].from, "tool");
    assert_eq!(entries[1].tool_call_id, None);
}

// === rebuilding the working window ===

#[test]
fn rebuild_from_last_anchor() {
    let t = vec![
        entry("1", "user", "ctx", "old", ENTRY_TYPE_MESSAGE),
        entry("2", "system", "ctx", "Context compacted", ENTRY_TYPE_COMPACTION),
        entry("3", "user", "ctx", "new", ENTRY_TYPE_MESSAGE),
        entry("4", "ctx", "user", "flow", "flow_control_call"),
        entry("5", "ctx", "user", "reply", ENTRY_TYPE_MESSAGE),
    ];
    assert!(!is_context_entry(&t[3]));
    assert!(is_context_entry(&t[2]));
    let window = rebuild_context_entries(&t, "ctx", 42);
    let ids: Vec<&str> = window.iter().map(|e| e.id.as_str()).collect();
    assert_eq!(ids, vec!["2", "3", "5"]);
}

#[test]
fn rebuild_without_anchor_makes_one() {
    let t = vec![
        entry("1", "user", "ctx", "hi", ENTRY_TYPE_MESSAGE),
        entry("2", "system", "ctx", "p", "system_prompt_changed"),
    ];
    let window = rebuild_context_entries(&t, "ctx", 42);
    assert_eq!(window.len(), 2);
    assert_eq!(window[0].entry_type, ENTRY_TYPE_CONTEXT_CREATED);
    assert_eq!(window[0].timestamp, 42);
    assert_eq!(window[0].to, "ctx");
    assert_eq!(window[1].id, "1");
}

// === token estimates ===

fn user_message(content: &str) -> Json {
    Json::Object(vec![
        ("role".to_string(), Json::Str("user".to_string())),
        ("content".to_string(), Json::Str(content.to_string())),
    ])
}

#[test]
fn test_calculate_token_count_empty() {
    let app = create_test_app();
    let count = app.calculate_token_count(&[]);
    assert_eq!(count, 0);
}

#[test]
fn test_calculate_token_count() {
    let app = create_test_app();
    let messages = vec![user_message("Hello world!")];
    let count = app.calculate_token_count(&messages);
    // Based on serialized JSON length / 4, which includes keys and quotes
    assert!(count > 0);
}

#[test]
fn token_count_is_serialized_length_over_four() {
    let app = create_test_app();
    // {"content":"Hello world!","role":"user"} is 40 bytes
    let messages = vec![user_message("Hello world!")];
    assert_eq!(to_json_text(&messages[0]), "{\"content\":\"Hello world!\",\"role\":\"user\"}");
    assert_eq!(app.calculate_token_count(&messages), 10);
    // two messages add up; 7 bytes of "[1,2,3]" give 1 token
    let list = parse_json("[1,2,3]").expect("valid JSON");
    let both = vec![user_message("Hello world!"), list];
    assert_eq!(app.calculate_token_count(&both), 11);
    assert_eq!(app.checked_token_count(&both), Some(11));
}

#[test]
fn token_count_counts_bytes_not_chars() {
    let app = create_test_app();
    // "é" is two bytes: {"content":"éé","role":"user"} is 32 bytes
    let messages = vec![user_message("éé")];
    assert_eq!(app.calculate_token_count(&messages), 8);
}

#[test]
fn test_remaining_tokens() {
    let app = create_test_app();
    let messages = vec![user_message(&"x".repeat(4000))];
    let remaining = app.remaining_tokens(8000, &messages);
    // 8000 - estimated tokens from serialized JSON
    assert!(remaining < 8000);
    assert!(remaining > 5000);
}

#[test]
fn remaining_tokens_edges() {
    let app = create_test_app();
    let big = vec![user_message(&"x".repeat(40000))];
    assert_eq!(app.remaining_tokens(8000, &big), 0);
    assert_eq!(app.remaining_tokens(0, &big), usize::MAX);
    assert_eq!(app.remaining_tokens(100, &[]), 100);
}

// === renaming a context directory ===

#[test]
fn test_rename_nonexistent_context() {
    let result = rename_precheck("nonexistent", "new-name", false, false);
    let err = result.unwrap_err();
    assert_eq!(err.kind, ErrorKind::NotFound);
    assert!(err.message.contains("does not exist"));
}

#[test]
fn test_rename_to_existing_context() {
    let result = rename_precheck("source", "target", true, true);
    let err = result.unwrap_err();
    assert_eq!(err.kind, ErrorKind::AlreadyExists);
    assert!(err.message.contains("already exists"));
}

#[test]
fn rename_precheck_messages_and_success() {
    assert_eq!(
        rename_precheck("a", "b", false, true).unwrap_err().message,
        "Context 'a' does not exist"
    );
    assert_eq!(
        rename_precheck("a", "b", true, true).unwrap_err().message,
        "Context 'b' already exists"
    );
    assert!(rename_precheck("a", "b", true, false).is_ok());
}

fn role_message(role: &str, content: &str) -> Json {
    Json::Object(vec![
        ("role".to_string(), Json::Str(role.to_string())),
        ("content".to_string(), Json::Str(content.to_string())),
    ])
}

fn member_text(m: &Json, key: &str) -> String {
    m.get(key).and_then(|v| v.as_str()).cloned().unwrap_or_default()
}

/// The task summary system message goes directly before the last user
/// message.
#[test]
fn test_injection_position() {
    let tasks = vec![TaskMeta {
        id: "a3f2".into(),
        status: "in-progress".into(),
        priority: "high".into(),
        depends_on: vec![],
        assigned_to: None,
        path: "epic/login.task".into(),
        summary_line: "implement the auth flow".into(),
    }];

    let summary = build_summary_table(&tasks);
    assert!(!summary.is_empty());

    let mut messages = vec![
        role_message("user", "first turn"),
        role_message("assistant", "first reply"),
        role_message("user", "current turn"),
    ];

    let inject = role_message("system", &summary);
    if let Some(pos) = messages.iter().rposition(|m| member_text(m, "role") == "user") {
        messages.insert(pos, inject);
    }

    assert_eq!(messages.len(), 4);
    assert_eq!(member_text(&messages[2], "role"), "system");
    assert!(member_text(&messages[2], "content").contains("a3f2"));
    assert_eq!(member_text(&messages[3], "role"), "user");
    assert_eq!(member_text(&messages[3], "content"), "current turn");
}

#[test]
fn timestamp_from_clock_readings() {
    assert_eq!(timestamp_from_seconds(Some(1_700_000_000)), 1_700_000_000);
    assert_eq!(timestamp_from_seconds(Some(0)), 0);
    assert_eq!(timestamp_from_seconds(None), 0);
    let now = now_timestamp();
    assert!(now > 1_600_000_000);
}

fn text_of(j: &Json, path: &[&str]) -> Option<String> {
    let mut cur = j;
    for key in path {
        cur = cur.get(key)?;
    }
    cur.as_str().cloned()
}

/// Saving a context's messages as entries and loading them back keeps the
/// tool history: the call, its id and the tool result.
#[test]
fn test_save_load_preserves_tool_history() {
    let messages = vec![
        parse_json(r#"{"_id": "m1", "role": "user", "content": "search for rust"}"#).unwrap(),
        parse_json(
            r#"{"_id": "m2", "role": "assistant", "tool_calls": [{"id": "tc_1", "type": "function", "function": {"name": "web_search", "arguments": "{\"query\":\"rust\"}"}}]}"#,
        )
        .unwrap(),
        parse_json(r#"{"_id": "m3", "role": "tool", "tool_call_id": "tc_1", "content": "Rust is a programming language"}"#).unwrap(),
        parse_json(r#"{"_id": "m4", "role": "assistant", "content": "Rust is a systems programming language."}"#).unwrap(),
    ];
    let saved = messages_to_entries(&messages, "tool-test");
    let loaded = entries_to_messages(&saved);

    assert_eq!(loaded.len(), 4);
    assert_eq!(text_of(&loaded[0], &["role"]).unwrap(), "user");
    assert_eq!(text_of(&loaded[1], &["role"]).unwrap(), "assistant");
    match loaded[1].get("tool_calls") {
        Some(Json::Array(calls)) => {
            assert_eq!(calls.len(), 1);
            assert_eq!(text_of(&calls[0], &["function", "name"]).unwrap(), "web_search");
            assert_eq!(text_of(&calls[0], &["function", "arguments"]).unwrap(), "{\"query\":\"rust\"}");
            assert_eq!(text_of(&calls[0], &["id"]).unwrap(), "tc_1");
            assert_eq!(text_of(&calls[0], &["type"]).unwrap(), "function");
        }
        _ => panic!("expected tool_calls to be an array"),
    }
    assert_eq!(text_of(&loaded[2], &["role"]).unwrap(), "tool");
    assert_eq!(text_of(&loaded[2], &["tool_call_id"]).unwrap(), "tc_1");
    assert_eq!(text_of(&loaded[2], &["content"]).unwrap(), "Rust is a programming language");
    assert_eq!(text_of(&loaded[3], &["role"]).unwrap(), "assistant");
    assert_eq!(text_of(&loaded[3], &["content"]).unwrap(), "Rust is a systems programming language.");
}
