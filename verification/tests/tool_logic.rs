use chibi_core::json::{Json, JsonNumber};
use chibi_core::state::entries::TranscriptEntry;
use chibi_core::state::flocks::FlockContext;
use chibi_core::tools::fs_read::{
    compile_search_pattern, file_grep_report, grep_file_section, grep_files_report,
    grep_in_memory, head_lines, range_lines, tail_lines,
};
use chibi_core::tools::hooks::{hook_plugins, hook_response, HookPoint};
use chibi_core::tools::memory::{
    goals_confirmation, read_context_options, read_context_report, reflection_action,
    ReflectionAction,
};
use chibi_core::tools::registry::{Tool, ToolCategory, ToolImpl};
use chibi_core::tools::ToolMetadata;

const TEXT: &str = "alpha\nbeta\ngamma\ndelta\nepsilon\nzeta\n";

#[test]
fn head_and_tail_lines() {
    assert_eq!(head_lines(TEXT, 2), "alpha\nbeta");
    assert_eq!(head_lines(TEXT, 100), "alpha\nbeta\ngamma\ndelta\nepsilon\nzeta");
    assert_eq!(head_lines(TEXT, 0), "");
    assert_eq!(tail_lines(TEXT, 2), "epsilon\nzeta");
    assert_eq!(tail_lines("a\r\nb\r\n", 1), "b");
}

#[test]
fn range_lines_and_errors() {
    assert_eq!(range_lines(TEXT, 2, 3).unwrap(), "beta\ngamma");
    assert_eq!(range_lines(TEXT, 5, 99).unwrap(), "epsilon\nzeta");
    assert_eq!(range_lines(TEXT, 50, 99).unwrap(), "");
    assert_eq!(
        range_lines(TEXT, 0, 3).unwrap_err().message,
        "Line numbers are 1-indexed, start must be >= 1"
    );
    assert_eq!(
        range_lines(TEXT, 3, 2).unwrap_err().message,
        "End line must be >= start line"
    );
}

#[test]
fn grep_in_memory_windows() {
    let out = grep_in_memory(TEXT, "^(beta|zeta)$", 1, 0).unwrap();
    assert_eq!(out, " 1:alpha\n>2:beta\n--\n 5:epsilon\n>6:zeta");
    let out = grep_in_memory(TEXT, "a$", 0, 0).unwrap();
    assert_eq!(out, ">1:alpha\n>2:beta\n>3:gamma\n>4:delta\n--\n>6:zeta");
    let out = grep_in_memory(TEXT, "gamma", 5, 5).unwrap();
    assert_eq!(out, " 1:alpha\n 2:beta\n>3:gamma\n 4:delta\n 5:epsilon\n 6:zeta");
    let err = grep_in_memory(TEXT, "(", 0, 0).unwrap_err();
    assert!(err.message.starts_with("Invalid regex: "));
}

#[test]
fn file_grep_report_when_nothing_matches() {
    assert_eq!(
        file_grep_report(TEXT, "omega", 2, 2).unwrap(),
        "No matches found for pattern: omega"
    );
    assert_eq!(file_grep_report(TEXT, "beta", 0, 0).unwrap(), ">2:beta");
}

#[test]
fn grep_files_sections_merge_and_truncate() {
    let lines: Vec<String> = ["fn a() {}", "x", "y", "fn b() {}", "z", "w", "q", "fn c() {}"]
        .iter()
        .map(|s| s.to_string())
        .collect();
    let re = compile_search_pattern("^fn").unwrap();
    let (text, total, stopped) = grep_file_section("src/lib.rs", &lines, &re, 1, 50, 0);
    assert_eq!(
        text,
        "src/lib.rs:1: fn a() {}\nsrc/lib.rs:2-x\nsrc/lib.rs:3-y\nsrc/lib.rs:4: fn b() {}\nsrc/lib.rs:5-z\n\nsrc/lib.rs:7-q\nsrc/lib.rs:8: fn c() {}\n\n"
    );
    assert_eq!(total, 3);
    assert!(!stopped);

    let (text, total, stopped) = grep_file_section("f", &lines, &re, 0, 2, 0);
    assert_eq!(text, "f:1: fn a() {}\n\nf:4: fn b() {}\n\n[Truncated: 2 results limit reached]\n");
    assert_eq!(total, 2);
    assert!(stopped);

    let err = compile_search_pattern("[").err().unwrap();
    assert!(err.message.starts_with("Invalid regex pattern '[': "));
    assert_eq!(grep_files_report("", "x"), "No matches found for pattern: x");
    assert_eq!(grep_files_report("a\nb\n\n", "x"), "a\nb");
}

fn plugin(name: &str, hooks: Vec<HookPoint>, implementation: ToolImpl) -> Tool {
    Tool {
        name: name.to_string(),
        description: String::new(),
        parameters: Json::Null,
        hooks,
        metadata: ToolMetadata::new(),
        summary_params: vec![],
        implementation,
        category: ToolCategory::Plugin,
    }
}

#[test]
fn hook_plugins_and_responses() {
    let tools = vec![
        plugin("a", vec![HookPoint::PreMessage], ToolImpl::Plugin("/bin/a".to_string())),
        plugin("b", vec![HookPoint::PostMessage], ToolImpl::Plugin("/bin/b".to_string())),
        plugin("c", vec![HookPoint::PreMessage], ToolImpl::Builtin),
        plugin("d", vec![HookPoint::OnStart, HookPoint::PreMessage], ToolImpl::Plugin("/bin/d".to_string())),
    ];
    let ps = hook_plugins(&tools, HookPoint::PreMessage);
    assert_eq!(
        ps,
        vec![
            ("a".to_string(), "/bin/a".to_string()),
            ("d".to_string(), "/bin/d".to_string())
        ]
    );
    assert!(hook_response("a", false, "{\"x\":1}").is_none());
    assert!(hook_response("a", true, "  \n\t ").is_none());
    let (name, v) = hook_response("a", true, "  {\"x\": 1}\n").unwrap();
    assert_eq!(name, "a");
    assert_eq!(v.get_u64("x"), Some(1));
    let (_, v) = hook_response("a", true, " plain text \n").unwrap();
    assert_eq!(v.as_str().unwrap(), "plain text");
}

fn args(members: Vec<(&str, Json)>) -> Json {
    Json::Object(members.into_iter().map(|(k, v)| (k.to_string(), v)).collect())
}

#[test]
fn reflection_and_goals_decisions() {
    let a = args(vec![("content", Json::Str("héllo".to_string()))]);
    match reflection_action(&a, 100).unwrap() {
        ReflectionAction::Write { content, confirmation } => {
            assert_eq!(content, "héllo");
            assert_eq!(confirmation, "Reflection updated successfully (6 characters).");
        }
        _ => panic!("expected a write"),
    }
    match reflection_action(&a, 3).unwrap() {
        ReflectionAction::Refuse(m) => assert_eq!(
            m,
            "Error: Content exceeds the 3 character limit (6 characters provided). Please shorten your reflection."
        ),
        _ => panic!("expected a refusal"),
    }
    let e = reflection_action(&args(vec![]), 3).err().unwrap();
    assert_eq!(e.message, "Missing 'content' parameter");
    assert_eq!(
        goals_confirmation("team", "ship it"),
        "Goals updated for flock 'team' (7 characters)."
    );
}

fn report_entry(from: &str, content: &str) -> TranscriptEntry {
    TranscriptEntry {
        id: "x".to_string(),
        timestamp: 1,
        from: from.to_string(),
        to: "ctx".to_string(),
        content: content.to_string(),
        entry_type: "message".to_string(),
        metadata: None,
        tool_call_id: None,
    }
}

#[test]
fn read_context_report_contents() {
    assert_eq!(read_context_options(&args(vec![])), (true, 5));
    assert_eq!(
        read_context_options(&args(vec![
            ("include_messages", Json::Str("false".to_string())),
            ("num_messages", Json::Number(JsonNumber::PosInt(2))),
        ])),
        (false, 2)
    );
    let flocks = vec![
        FlockContext { flock_name: "site:s".to_string(), prompt: None, goals: Some("g1".to_string()) },
        FlockContext { flock_name: "team".to_string(), prompt: Some("p".to_string()), goals: None },
    ];
    let entries = vec![report_entry("user", "one"), report_entry("ctx", "two"), report_entry("user", "three")];
    let r = read_context_report("ctx", "sum", "table", &flocks, Some(&entries), true, 2);
    assert_eq!(r.get_str("name"), Some("ctx".to_string()));
    assert_eq!(r.get_str("summary"), Some("sum".to_string()));
    assert_eq!(r.get_str("todos"), Some("table".to_string()));
    assert!(r.get("tasks").is_none());
    assert_eq!(r.get_u64("message_count"), Some(3));
    match r.get("recent_messages").unwrap() {
        Json::Array(ms) => {
            assert_eq!(ms.len(), 2);
            assert_eq!(ms[0].get_str("content"), Some("two".to_string()));
            assert_eq!(ms[1].get_str("type"), Some("message".to_string()));
        }
        _ => panic!("expected an array"),
    }
    match r.get("flock_goals").unwrap() {
        Json::Array(gs) => {
            assert_eq!(gs.len(), 1);
            assert_eq!(gs[0].get_str("flock"), Some("site:s".to_string()));
        }
        _ => panic!("expected an array"),
    }
    let r = read_context_report("ctx", "", "", &[], None, true, 2);
    assert_eq!(r.get_u64("message_count"), Some(0));
    let r = read_context_report("ctx", "", "", &[], Some(&entries), false, 2);
    assert!(r.get("recent_messages").is_none());
}

/// grep_files over the files that the directory walk hands over, each as
/// (relative path, content): the defaults of the tool are 2 lines of
/// context and 50 results.
fn grep_files_over(files: &[(&str, &str)], pattern: &str, context_lines: usize, max_results: usize) -> String {
    let re = compile_search_pattern(pattern).unwrap();
    let mut output = String::new();
    let mut total = 0usize;
    for (rel, content) in files {
        let lines: Vec<String> = content.lines().map(|l| l.to_string()).collect();
        let (text, new_total, stopped) = grep_file_section(rel, &lines, &re, context_lines, max_results, total);
        output.push_str(&text);
        total = new_total;
        if stopped {
            break;
        }
    }
    grep_files_report(&output, pattern)
}

#[test]
fn fs_read_test_grep_files_returns_matches() {
    let result = grep_files_over(&[("src.rs", "fn hello() {\n    println!(\"hello\");\n}\n")], "println", 2, 50);
    assert!(result.contains("println"));
    assert!(result.contains("src.rs"));
}

#[test]
fn fs_read_test_grep_files_no_match() {
    let result = grep_files_over(&[("code.rs", "fn nothing() {}\n")], "NONEXISTENT_PATTERN_XYZ", 2, 50);
    assert!(result.contains("No matches found"));
}

#[test]
fn fs_read_test_grep_files_file_pattern() {
    // the walk with file_pattern "*.rs" hands over code.rs only, not note.txt
    let result = grep_files_over(&[("code.rs", "search_term here\n")], "search_term", 2, 50);
    assert!(result.contains("code.rs"));
    assert!(!result.contains("note.txt"));
}

#[test]
fn fs_read_test_grep_files_context_lines() {
    let result = grep_files_over(&[("code.rs", "line1\nline2\nMATCH\nline4\nline5\n")], "MATCH", 1, 50);
    assert!(result.contains("line2"));
    assert!(result.contains("MATCH"));
    assert!(result.contains("line4"));
}

#[test]
fn coding_tools_test_grep_files_returns_matches() {
    let result = grep_files_over(&[("src.rs", "fn hello() {\n    println!(\"hello\");\n}\n")], "println", 2, 50);
    assert!(result.contains("println"));
    assert!(result.contains("src.rs"));
}

#[test]
fn coding_tools_test_grep_files_no_match() {
    let result = grep_files_over(&[("code.rs", "fn nothing() {}\n")], "NONEXISTENT_PATTERN_XYZ", 2, 50);
    assert!(result.contains("No matches found"));
}

#[test]
fn coding_tools_test_grep_files_file_pattern() {
    // the walk with file_pattern "*.rs" hands over code.rs only, not note.txt
    let result = grep_files_over(&[("code.rs", "search_term here\n")], "search_term", 2, 50);
    assert!(result.contains("code.rs"));
    assert!(!result.contains("note.txt"));
}

#[test]
fn coding_tools_test_grep_files_context_lines() {
    let result = grep_files_over(&[("code.rs", "line1\nline2\nMATCH\nline4\nline5\n")], "MATCH", 1, 50);
    assert!(result.contains("line2"));
    assert!(result.contains("MATCH"));
    assert!(result.contains("line4"));
}

#[test]
fn grep_limit_zero_shows_no_match_line() {
    let lines = vec!["hit".to_string(), "miss".to_string(), "hit".to_string()];
    let re = compile_search_pattern("hit").unwrap();
    let (text, total, stopped) = grep_file_section("f", &lines, &re, 0, 0, 0);
    assert_eq!(text, "\n[Truncated: 0 results limit reached]\n");
    assert_eq!(total, 0);
    assert!(stopped);
    // a count already at the limit stops at the next match without showing it
    let (text, total, stopped) = grep_file_section("f", &lines, &re, 1, 3, 3);
    assert_eq!(text, "\n[Truncated: 3 results limit reached]\n");
    assert_eq!(total, 3);
    assert!(stopped);
}
