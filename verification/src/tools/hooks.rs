//! Hook system for plugin lifecycle events: the hook points, their
//! documented payloads and return values, and the reference documentation
//! generated from that metadata.

use vstd::prelude::*;

use crate::json::{json_view, parse_json, parsed_json, Json, JsonView};
use crate::text::{
    copy_str, join_chars, join_with, lemma_views_push, push_chars, push_str, str_eq, to_chars,
    trim_text, trimmed, views_of,
};
use super::registry::{Tool, ToolImpl};

verus! {

/// Hook points where tools can register to be called.
#[derive(Debug, Clone, Copy, PartialEq, Eq, Hash, Structural)]
pub enum HookPoint {
    PreMessage,
    PostMessage,
    PreTool,
    PostTool,
    PreToolOutput,
    PostToolOutput,
    PreClear,
    PostClear,
    PreCompact,
    PostCompact,
    PreRollingCompact,
    PostRollingCompact,
    OnStart,
    OnEnd,
    PreSystemPrompt,
    PostSystemPrompt,
    PreSendMessage,
    PostSendMessage,
    PreCacheOutput,
    PostCacheOutput,
    PreApiTools,
    PreApiRequest,
    PreAgenticLoop,
    PostToolBatch,
    PreFileRead,
    PreFileWrite,
    PreShellExec,
    PreFetchUrl,
    PreSpawnAgent,
    PostSpawnAgent,
    PostIndexFile,
    PreVfsWrite,
    PostVfsWrite,
}

/// The snake_case name of a hook point (as plugins and config spell it).
pub open spec fn spec_hook_name(h: HookPoint) -> Seq<char> {
    match h {
        HookPoint::PreMessage => "pre_message"@,
        HookPoint::PostMessage => "post_message"@,
        HookPoint::PreTool => "pre_tool"@,
        HookPoint::PostTool => "post_tool"@,
        HookPoint::PreToolOutput => "pre_tool_output"@,
        HookPoint::PostToolOutput => "post_tool_output"@,
        HookPoint::PreClear => "pre_clear"@,
        HookPoint::PostClear => "post_clear"@,
        HookPoint::PreCompact => "pre_compact"@,
        HookPoint::PostCompact => "post_compact"@,
        HookPoint::PreRollingCompact => "pre_rolling_compact"@,
        HookPoint::PostRollingCompact => "post_rolling_compact"@,
        HookPoint::OnStart => "on_start"@,
        HookPoint::OnEnd => "on_end"@,
        HookPoint::PreSystemPrompt => "pre_system_prompt"@,
        HookPoint::PostSystemPrompt => "post_system_prompt"@,
        HookPoint::PreSendMessage => "pre_send_message"@,
        HookPoint::PostSendMessage => "post_send_message"@,
        HookPoint::PreCacheOutput => "pre_cache_output"@,
        HookPoint::PostCacheOutput => "post_cache_output"@,
        HookPoint::PreApiTools => "pre_api_tools"@,
        HookPoint::PreApiRequest => "pre_api_request"@,
        HookPoint::PreAgenticLoop => "pre_agentic_loop"@,
        HookPoint::PostToolBatch => "post_tool_batch"@,
        HookPoint::PreFileRead => "pre_file_read"@,
        HookPoint::PreFileWrite => "pre_file_write"@,
        HookPoint::PreShellExec => "pre_shell_exec"@,
        HookPoint::PreFetchUrl => "pre_fetch_url"@,
        HookPoint::PreSpawnAgent => "pre_spawn_agent"@,
        HookPoint::PostSpawnAgent => "post_spawn_agent"@,
        HookPoint::PostIndexFile => "post_index_file"@,
        HookPoint::PreVfsWrite => "pre_vfs_write"@,
        HookPoint::PostVfsWrite => "post_vfs_write"@,
    }
}

/// The hook point named `s`, if any.
pub open spec fn spec_parse_hook(s: Seq<char>) -> Option<HookPoint> {
    if s == "pre_message"@ {
        Some(HookPoint::PreMessage)
    } else if s == "post_message"@ {
        Some(HookPoint::PostMessage)
    } else if s == "pre_tool"@ {
        Some(HookPoint::PreTool)
    } else if s == "post_tool"@ {
        Some(HookPoint::PostTool)
    } else if s == "pre_tool_output"@ {
        Some(HookPoint::PreToolOutput)
    } else if s == "post_tool_output"@ {
        Some(HookPoint::PostToolOutput)
    } else if s == "pre_clear"@ {
        Some(HookPoint::PreClear)
    } else if s == "post_clear"@ {
        Some(HookPoint::PostClear)
    } else if s == "pre_compact"@ {
        Some(HookPoint::PreCompact)
    } else if s == "post_compact"@ {
        Some(HookPoint::PostCompact)
    } else if s == "pre_rolling_compact"@ {
        Some(HookPoint::PreRollingCompact)
    } else if s == "post_rolling_compact"@ {
        Some(HookPoint::PostRollingCompact)
    } else if s == "on_start"@ {
        Some(HookPoint::OnStart)
    } else if s == "on_end"@ {
        Some(HookPoint::OnEnd)
    } else if s == "pre_system_prompt"@ {
        Some(HookPoint::PreSystemPrompt)
    } else if s == "post_system_prompt"@ {
        Some(HookPoint::PostSystemPrompt)
    } else if s == "pre_send_message"@ {
        Some(HookPoint::PreSendMessage)
    } else if s == "post_send_message"@ {
        Some(HookPoint::PostSendMessage)
    } else if s == "pre_cache_output"@ {
        Some(HookPoint::PreCacheOutput)
    } else if s == "post_cache_output"@ {
        Some(HookPoint::PostCacheOutput)
    } else if s == "pre_api_tools"@ {
        Some(HookPoint::PreApiTools)
    } else if s == "pre_api_request"@ {
        Some(HookPoint::PreApiRequest)
    } else if s == "pre_agentic_loop"@ {
        Some(HookPoint::PreAgenticLoop)
    } else if s == "post_tool_batch"@ {
        Some(HookPoint::PostToolBatch)
    } else if s == "pre_file_read"@ {
        Some(HookPoint::PreFileRead)
    } else if s == "pre_file_write"@ {
        Some(HookPoint::PreFileWrite)
    } else if s == "pre_shell_exec"@ {
        Some(HookPoint::PreShellExec)
    } else if s == "pre_fetch_url"@ {
        Some(HookPoint::PreFetchUrl)
    } else if s == "pre_spawn_agent"@ {
        Some(HookPoint::PreSpawnAgent)
    } else if s == "post_spawn_agent"@ {
        Some(HookPoint::PostSpawnAgent)
    } else if s == "post_index_file"@ {
        Some(HookPoint::PostIndexFile)
    } else if s == "pre_vfs_write"@ {
        Some(HookPoint::PreVfsWrite)
    } else if s == "post_vfs_write"@ {
        Some(HookPoint::PostVfsWrite)
    } else {
        None
    }
}

/// All hook points, in declaration order.
pub open spec fn spec_all_hook_points() -> Seq<HookPoint> {
    seq![HookPoint::PreMessage, HookPoint::PostMessage, HookPoint::PreTool, HookPoint::PostTool, HookPoint::PreToolOutput, HookPoint::PostToolOutput, HookPoint::PreClear, HookPoint::PostClear, HookPoint::PreCompact, HookPoint::PostCompact, HookPoint::PreRollingCompact, HookPoint::PostRollingCompact, HookPoint::OnStart, HookPoint::OnEnd, HookPoint::PreSystemPrompt, HookPoint::PostSystemPrompt, HookPoint::PreSendMessage, HookPoint::PostSendMessage, HookPoint::PreCacheOutput, HookPoint::PostCacheOutput, HookPoint::PreApiTools, HookPoint::PreApiRequest, HookPoint::PreAgenticLoop, HookPoint::PostToolBatch, HookPoint::PreFileRead, HookPoint::PreFileWrite, HookPoint::PreShellExec, HookPoint::PreFetchUrl, HookPoint::PreSpawnAgent, HookPoint::PostSpawnAgent, HookPoint::PostIndexFile, HookPoint::PreVfsWrite, HookPoint::PostVfsWrite]
}

impl HookPoint {
    /// The snake_case name of this hook point.
    pub fn as_str(&self) -> (r: &'static str)
        ensures
            r@ == spec_hook_name(*self),
    {
        match self {
            HookPoint::PreMessage => "pre_message",
            HookPoint::PostMessage => "post_message",
            HookPoint::PreTool => "pre_tool",
            HookPoint::PostTool => "post_tool",
            HookPoint::PreToolOutput => "pre_tool_output",
            HookPoint::PostToolOutput => "post_tool_output",
            HookPoint::PreClear => "pre_clear",
            HookPoint::PostClear => "post_clear",
            HookPoint::PreCompact => "pre_compact",
            HookPoint::PostCompact => "post_compact",
            HookPoint::PreRollingCompact => "pre_rolling_compact",
            HookPoint::PostRollingCompact => "post_rolling_compact",
            HookPoint::OnStart => "on_start",
            HookPoint::OnEnd => "on_end",
            HookPoint::PreSystemPrompt => "pre_system_prompt",
            HookPoint::PostSystemPrompt => "post_system_prompt",
            HookPoint::PreSendMessage => "pre_send_message",
            HookPoint::PostSendMessage => "post_send_message",
            HookPoint::PreCacheOutput => "pre_cache_output",
            HookPoint::PostCacheOutput => "post_cache_output",
            HookPoint::PreApiTools => "pre_api_tools",
            HookPoint::PreApiRequest => "pre_api_request",
            HookPoint::PreAgenticLoop => "pre_agentic_loop",
            HookPoint::PostToolBatch => "post_tool_batch",
            HookPoint::PreFileRead => "pre_file_read",
            HookPoint::PreFileWrite => "pre_file_write",
            HookPoint::PreShellExec => "pre_shell_exec",
            HookPoint::PreFetchUrl => "pre_fetch_url",
            HookPoint::PreSpawnAgent => "pre_spawn_agent",
            HookPoint::PostSpawnAgent => "post_spawn_agent",
            HookPoint::PostIndexFile => "post_index_file",
            HookPoint::PreVfsWrite => "pre_vfs_write",
            HookPoint::PostVfsWrite => "post_vfs_write",
        }
    }

    /// The hook point with the given snake_case name.
    pub fn parse(s: &str) -> (r: Option<HookPoint>)
        ensures
            r == spec_parse_hook(s@),
    {
        if str_eq(s, "pre_message") {
            Some(HookPoint::PreMessage)
        } else if str_eq(s, "post_message") {
            Some(HookPoint::PostMessage)
        } else if str_eq(s, "pre_tool") {
            Some(HookPoint::PreTool)
        } else if str_eq(s, "post_tool") {
            Some(HookPoint::PostTool)
        } else if str_eq(s, "pre_tool_output") {
            Some(HookPoint::PreToolOutput)
        } else if str_eq(s, "post_tool_output") {
            Some(HookPoint::PostToolOutput)
        } else if str_eq(s, "pre_clear") {
            Some(HookPoint::PreClear)
        } else if str_eq(s, "post_clear") {
            Some(HookPoint::PostClear)
        } else if str_eq(s, "pre_compact") {
            Some(HookPoint::PreCompact)
        } else if str_eq(s, "post_compact") {
            Some(HookPoint::PostCompact)
        } else if str_eq(s, "pre_rolling_compact") {
            Some(HookPoint::PreRollingCompact)
        } else if str_eq(s, "post_rolling_compact") {
            Some(HookPoint::PostRollingCompact)
        } else if str_eq(s, "on_start") {
            Some(HookPoint::OnStart)
        } else if str_eq(s, "on_end") {
            Some(HookPoint::OnEnd)
        } else if str_eq(s, "pre_system_prompt") {
            Some(HookPoint::PreSystemPrompt)
        } else if str_eq(s, "post_system_prompt") {
            Some(HookPoint::PostSystemPrompt)
        } else if str_eq(s, "pre_send_message") {
            Some(HookPoint::PreSendMessage)
        } else if str_eq(s, "post_send_message") {
            Some(HookPoint::PostSendMessage)
        } else if str_eq(s, "pre_cache_output") {
            Some(HookPoint::PreCacheOutput)
        } else if str_eq(s, "post_cache_output") {
            Some(HookPoint::PostCacheOutput)
        } else if str_eq(s, "pre_api_tools") {
            Some(HookPoint::PreApiTools)
        } else if str_eq(s, "pre_api_request") {
            Some(HookPoint::PreApiRequest)
        } else if str_eq(s, "pre_agentic_loop") {
            Some(HookPoint::PreAgenticLoop)
        } else if str_eq(s, "post_tool_batch") {
            Some(HookPoint::PostToolBatch)
        } else if str_eq(s, "pre_file_read") {
            Some(HookPoint::PreFileRead)
        } else if str_eq(s, "pre_file_write") {
            Some(HookPoint::PreFileWrite)
        } else if str_eq(s, "pre_shell_exec") {
            Some(HookPoint::PreShellExec)
        } else if str_eq(s, "pre_fetch_url") {
            Some(HookPoint::PreFetchUrl)
        } else if str_eq(s, "pre_spawn_agent") {
            Some(HookPoint::PreSpawnAgent)
        } else if str_eq(s, "post_spawn_agent") {
            Some(HookPoint::PostSpawnAgent)
        } else if str_eq(s, "post_index_file") {
            Some(HookPoint::PostIndexFile)
        } else if str_eq(s, "pre_vfs_write") {
            Some(HookPoint::PreVfsWrite)
        } else if str_eq(s, "post_vfs_write") {
            Some(HookPoint::PostVfsWrite)
        } else {
            None
        }
    }

    /// All hook points, in declaration order.
    pub fn all() -> (r: Vec<HookPoint>)
        ensures
            r@ == spec_all_hook_points(),
    {
        let r = vec![HookPoint::PreMessage, HookPoint::PostMessage, HookPoint::PreTool, HookPoint::PostTool, HookPoint::PreToolOutput, HookPoint::PostToolOutput, HookPoint::PreClear, HookPoint::PostClear, HookPoint::PreCompact, HookPoint::PostCompact, HookPoint::PreRollingCompact, HookPoint::PostRollingCompact, HookPoint::OnStart, HookPoint::OnEnd, HookPoint::PreSystemPrompt, HookPoint::PostSystemPrompt, HookPoint::PreSendMessage, HookPoint::PostSendMessage, HookPoint::PreCacheOutput, HookPoint::PostCacheOutput, HookPoint::PreApiTools, HookPoint::PreApiRequest, HookPoint::PreAgenticLoop, HookPoint::PostToolBatch, HookPoint::PreFileRead, HookPoint::PreFileWrite, HookPoint::PreShellExec, HookPoint::PreFetchUrl, HookPoint::PreSpawnAgent, HookPoint::PostSpawnAgent, HookPoint::PostIndexFile, HookPoint::PreVfsWrite, HookPoint::PostVfsWrite];
        assert(r@ =~= spec_all_hook_points());
        r
    }
}

/// Parsing a hook point's name gives back that hook point, and a name that
/// parses is the name of the hook point it parses to: `parse` and `as_str`
/// are inverse.
pub proof fn law_hook_name_round_trip(h: HookPoint, s: Seq<char>)
    ensures
        spec_parse_hook(spec_hook_name(h)) == Some(h),
        spec_parse_hook(s) matches Some(p) ==> spec_hook_name(p) == s,
{
    match h {
        HookPoint::PreMessage => {
            reveal_strlit("pre_message");
        },
        HookPoint::PostMessage => {
            reveal_strlit("post_message");
            reveal_strlit("pre_message");
            assert("pre_message"@.len() != "post_message"@.len());
            assert("pre_message"@ != "post_message"@);
        },
        HookPoint::PreTool => {
            reveal_strlit("pre_tool");
            reveal_strlit("pre_message");
            assert("pre_message"@.len() != "pre_tool"@.len());
            assert("pre_message"@ != "pre_tool"@);
            reveal_strlit("post_message");
            assert("post_message"@.len() != "pre_tool"@.len());
            assert("post_message"@ != "pre_tool"@);
        },
        HookPoint::PostTool => {
            reveal_strlit("post_tool");
            reveal_strlit("pre_message");
            assert("pre_message"@.len() != "post_tool"@.len());
            assert("pre_message"@ != "post_tool"@);
            reveal_strlit("post_message");
            assert("post_message"@.len() != "post_tool"@.len());
            assert("post_message"@ != "post_tool"@);
            reveal_strlit("pre_tool");
            assert("pre_tool"@.len() != "post_tool"@.len());
            assert("pre_tool"@ != "post_tool"@);
        },
        HookPoint::PreToolOutput => {
            reveal_strlit("pre_tool_output");
            reveal_strlit("pre_message");
            assert("pre_message"@.len() != "pre_tool_output"@.len());
            assert("pre_message"@ != "pre_tool_output"@);
            reveal_strlit("post_message");
            assert("post_message"@.len() != "pre_tool_output"@.len());
            assert("post_message"@ != "pre_tool_output"@);
            reveal_strlit("pre_tool");
            assert("pre_tool"@.len() != "pre_tool_output"@.len());
            assert("pre_tool"@ != "pre_tool_output"@);
            reveal_strlit("post_tool");
            assert("post_tool"@.len() != "pre_tool_output"@.len());
            assert("post_tool"@ != "pre_tool_output"@);
        },
        HookPoint::PostToolOutput => {
            reveal_strlit("post_tool_output");
            reveal_strlit("pre_message");
            assert("pre_message"@.len() != "post_tool_output"@.len());
            assert("pre_message"@ != "post_tool_output"@);
            reveal_strlit("post_message");
            assert("post_message"@.len() != "post_tool_output"@.len());
            assert("post_message"@ != "post_tool_output"@);
            reveal_strlit("pre_tool");
            assert("pre_tool"@.len() != "post_tool_output"@.len());
            assert("pre_tool"@ != "post_tool_output"@);
            reveal_strlit("post_tool");
            assert("post_tool"@.len() != "post_tool_output"@.len());
            assert("post_tool"@ != "post_tool_output"@);
            reveal_strlit("pre_tool_output");
            assert("pre_tool_output"@.len() != "post_tool_output"@.len());
            assert("pre_tool_output"@ != "post_tool_output"@);
        },
        HookPoint::PreClear => {
            reveal_strlit("pre_clear");
            reveal_strlit("pre_message");
            assert("pre_message"@.len() != "pre_clear"@.len());
            assert("pre_message"@ != "pre_clear"@);
            reveal_strlit("post_message");
            assert("post_message"@.len() != "pre_clear"@.len());
            assert("post_message"@ != "pre_clear"@);
            reveal_strlit("pre_tool");
            assert("pre_tool"@.len() != "pre_clear"@.len());
            assert("pre_tool"@ != "pre_clear"@);
            reveal_strlit("post_tool");
            assert("post_tool"@[1] != "pre_clear"@[1]);
            assert("post_tool"@ != "pre_clear"@);
            reveal_strlit("pre_tool_output");
            assert("pre_tool_output"@.len() != "pre_clear"@.len());
            assert("pre_tool_output"@ != "pre_clear"@);
            reveal_strlit("post_tool_output");
            assert("post_tool_output"@.len() != "pre_clear"@.len());
            assert("post_tool_output"@ != "pre_clear"@);
        },
        HookPoint::PostClear => {
            reveal_strlit("post_clear");
            reveal_strlit("pre_message");
            assert("pre_message"@.len() != "post_clear"@.len());
            assert("pre_message"@ != "post_clear"@);
            reveal_strlit("post_message");
            assert("post_message"@.len() != "post_clear"@.len());
            assert("post_message"@ != "post_clear"@);
            reveal_strlit("pre_tool");
            assert("pre_tool"@.len() != "post_clear"@.len());
            assert("pre_tool"@ != "post_clear"@);
            reveal_strlit("post_tool");
            assert("post_tool"@.len() != "post_clear"@.len());
            assert("post_tool"@ != "post_clear"@);
            reveal_strlit("pre_tool_output");
            assert("pre_tool_output"@.len() != "post_clear"@.len());
            assert("pre_tool_output"@ != "post_clear"@);
            reveal_strlit("post_tool_output");
            assert("post_tool_output"@.len() != "post_clear"@.len());
            assert("post_tool_output"@ != "post_clear"@);
            reveal_strlit("pre_clear");
            assert("pre_clear"@.len() != "post_clear"@.len());
            assert("pre_clear"@ != "post_clear"@);
        },
        HookPoint::PreCompact => {
            reveal_strlit("pre_compact");
            reveal_strlit("pre_message");
            assert("pre_message"@[4] != "pre_compact"@[4]);
            assert("pre_message"@ != "pre_compact"@);
            reveal_strlit("post_message");
            assert("post_message"@.len() != "pre_compact"@.len());
            assert("post_message"@ != "pre_compact"@);
            reveal_strlit("pre_tool");
            assert("pre_tool"@.len() != "pre_compact"@.len());
            assert("pre_tool"@ != "pre_compact"@);
            reveal_strlit("post_tool");
            assert("post_tool"@.len() != "pre_compact"@.len());
            assert("post_tool"@ != "pre_compact"@);
            reveal_strlit("pre_tool_output");
            assert("pre_tool_output"@.len() != "pre_compact"@.len());
            assert("pre_tool_output"@ != "pre_compact"@);
            reveal_strlit("post_tool_output");
            assert("post_tool_output"@.len() != "pre_compact"@.len());
            assert("post_tool_output"@ != "pre_compact"@);
            reveal_strlit("pre_clear");
            assert("pre_clear"@.len() != "pre_compact"@.len());
            assert("pre_clear"@ != "pre_compact"@);
            reveal_strlit("post_clear");
            assert("post_clear"@.len() != "pre_compact"@.len());
            assert("post_clear"@ != "pre_compact"@);
        },
        HookPoint::PostCompact => {
            reveal_strlit("post_compact");
            reveal_strlit("pre_message");
            assert("pre_message"@.len() != "post_compact"@.len());
            assert("pre_message"@ != "post_compact"@);
            reveal_strlit("post_message");
            assert("post_message"@[5] != "post_compact"@[5]);
            assert("post_message"@ != "post_compact"@);
            reveal_strlit("pre_tool");
            assert("pre_tool"@.len() != "post_compact"@.len());
            assert("pre_tool"@ != "post_compact"@);
            reveal_strlit("post_tool");
            assert("post_tool"@.len() != "post_compact"@.len());
            assert("post_tool"@ != "post_compact"@);
            reveal_strlit("pre_tool_output");
            assert("pre_tool_output"@.len() != "post_compact"@.len());
            assert("pre_tool_output"@ != "post_compact"@);
            reveal_strlit("post_tool_output");
            assert("post_tool_output"@.len() != "post_compact"@.len());
            assert("post_tool_output"@ != "post_compact"@);
            reveal_strlit("pre_clear");
            assert("pre_clear"@.len() != "post_compact"@.len());
            assert("pre_clear"@ != "post_compact"@);
            reveal_strlit("post_clear");
            assert("post_clear"@.len() != "post_compact"@.len());
            assert("post_clear"@ != "post_compact"@);
            reveal_strlit("pre_compact");
            assert("pre_compact"@.len() != "post_compact"@.len());
            assert("pre_compact"@ != "post_compact"@);
        },
        HookPoint::PreRollingCompact => {
            reveal_strlit("pre_rolling_compact");
            reveal_strlit("pre_message");
            assert("pre_message"@.len() != "pre_rolling_compact"@.len());
            assert("pre_message"@ != "pre_rolling_compact"@);
            reveal_strlit("post_message");
            assert("post_message"@.len() != "pre_rolling_compact"@.len());
            assert("post_message"@ != "pre_rolling_compact"@);
            reveal_strlit("pre_tool");
            assert("pre_tool"@.len() != "pre_rolling_compact"@.len());
            assert("pre_tool"@ != "pre_rolling_compact"@);
            reveal_strlit("post_tool");
            assert("post_tool"@.len() != "pre_rolling_compact"@.len());
            assert("post_tool"@ != "pre_rolling_compact"@);
            reveal_strlit("pre_tool_output");
            assert("pre_tool_output"@.len() != "pre_rolling_compact"@.len());
            assert("pre_tool_output"@ != "pre_rolling_compact"@);
            reveal_strlit("post_tool_output");
            assert("post_tool_output"@.len() != "pre_rolling_compact"@.len());
            assert("post_tool_output"@ != "pre_rolling_compact"@);
            reveal_strlit("pre_clear");
            assert("pre_clear"@.len() != "pre_rolling_compact"@.len());
            assert("pre_clear"@ != "pre_rolling_compact"@);
            reveal_strlit("post_clear");
            assert("post_clear"@.len() != "pre_rolling_compact"@.len());
            assert("post_clear"@ != "pre_rolling_compact"@);
            reveal_strlit("pre_compact");
            assert("pre_compact"@.len() != "pre_rolling_compact"@.len());
            assert("pre_compact"@ != "pre_rolling_compact"@);
            reveal_strlit("post_compact");
            assert("post_compact"@.len() != "pre_rolling_compact"@.len());
            assert("post_compact"@ != "pre_rolling_compact"@);
        },
        HookPoint::PostRollingCompact => {
            reveal_strlit("post_rolling_compact");
            reveal_strlit("pre_message");
            assert("pre_message"@.len() != "post_rolling_compact"@.len());
            assert("pre_message"@ != "post_rolling_compact"@);
            reveal_strlit("post_message");
            assert("post_message"@.len() != "post_rolling_compact"@.len());
            assert("post_message"@ != "post_rolling_compact"@);
            reveal_strlit("pre_tool");
            assert("pre_tool"@.len() != "post_rolling_compact"@.len());
            assert("pre_tool"@ != "post_rolling_compact"@);
            reveal_strlit("post_tool");
            assert("post_tool"@.len() != "post_rolling_compact"@.len());
            assert("post_tool"@ != "post_rolling_compact"@);
            reveal_strlit("pre_tool_output");
            assert("pre_tool_output"@.len() != "post_rolling_compact"@.len());
            assert("pre_tool_output"@ != "post_rolling_compact"@);
            reveal_strlit("post_tool_output");
            assert("post_tool_output"@.len() != "post_rolling_compact"@.len());
            assert("post_tool_output"@ != "post_rolling_compact"@);
            reveal_strlit("pre_clear");
            assert("pre_clear"@.len() != "post_rolling_compact"@.len());
            assert("pre_clear"@ != "post_rolling_compact"@);
            reveal_strlit("post_clear");
            assert("post_clear"@.len() != "post_rolling_compact"@.len());
            assert("post_clear"@ != "post_rolling_compact"@);
            reveal_strlit("pre_compact");
            assert("pre_compact"@.len() != "post_rolling_compact"@.len());
            assert("pre_compact"@ != "post_rolling_compact"@);
            reveal_strlit("post_compact");
            assert("post_compact"@.len() != "post_rolling_compact"@.len());
            assert("post_compact"@ != "post_rolling_compact"@);
            reveal_strlit("pre_rolling_compact");
            assert("pre_rolling_compact"@.len() != "post_rolling_compact"@.len());
            assert("pre_rolling_compact"@ != "post_rolling_compact"@);
        },
        HookPoint::OnStart => {
            reveal_strlit("on_start");
            reveal_strlit("pre_message");
            assert("pre_message"@.len() != "on_start"@.len());
            assert("pre_message"@ != "on_start"@);
            reveal_strlit("post_message");
            assert("post_message"@.len() != "on_start"@.len());
            assert("post_message"@ != "on_start"@);
            reveal_strlit("pre_tool");
            assert("pre_tool"@[0] != "on_start"@[0]);
            assert("pre_tool"@ != "on_start"@);
            reveal_strlit("post_tool");
            assert("post_tool"@.len() != "on_start"@.len());
            assert("post_tool"@ != "on_start"@);
            reveal_strlit("pre_tool_output");
            assert("pre_tool_output"@.len() != "on_start"@.len());
            assert("pre_tool_output"@ != "on_start"@);
            reveal_strlit("post_tool_output");
            assert("post_tool_output"@.len() != "on_start"@.len());
            assert("post_tool_output"@ != "on_start"@);
            reveal_strlit("pre_clear");
            assert("pre_clear"@.len() != "on_start"@.len());
            assert("pre_clear"@ != "on_start"@);
            reveal_strlit("post_clear");
            assert("post_clear"@.len() != "on_start"@.len());
            assert("post_clear"@ != "on_start"@);
            reveal_strlit("pre_compact");
            assert("pre_compact"@.len() != "on_start"@.len());
            assert("pre_compact"@ != "on_start"@);
            reveal_strlit("post_compact");
            assert("post_compact"@.len() != "on_start"@.len());
            assert("post_compact"@ != "on_start"@);
            reveal_strlit("pre_rolling_compact");
            assert("pre_rolling_compact"@.len() != "on_start"@.len());
            assert("pre_rolling_compact"@ != "on_start"@);
            reveal_strlit("post_rolling_compact");
            assert("post_rolling_compact"@.len() != "on_start"@.len());
            assert("post_rolling_compact"@ != "on_start"@);
        },
        HookPoint::OnEnd => {
            reveal_strlit("on_end");
            reveal_strlit("pre_message");
            assert("pre_message"@.len() != "on_end"@.len());
            assert("pre_message"@ != "on_end"@);
            reveal_strlit("post_message");
            assert("post_message"@.len() != "on_end"@.len());
            assert("post_message"@ != "on_end"@);
            reveal_strlit("pre_tool");
            assert("pre_tool"@.len() != "on_end"@.len());
            assert("pre_tool"@ != "on_end"@);
            reveal_strlit("post_tool");
            assert("post_tool"@.len() != "on_end"@.len());
            assert("post_tool"@ != "on_end"@);
            reveal_strlit("pre_tool_output");
            assert("pre_tool_output"@.len() != "on_end"@.len());
            assert("pre_tool_output"@ != "on_end"@);
            reveal_strlit("post_tool_output");
            assert("post_tool_output"@.len() != "on_end"@.len());
            assert("post_tool_output"@ != "on_end"@);
            reveal_strlit("pre_clear");
            assert("pre_clear"@.len() != "on_end"@.len());
            assert("pre_clear"@ != "on_end"@);
            reveal_strlit("post_clear");
            assert("post_clear"@.len() != "on_end"@.len());
            assert("post_clear"@ != "on_end"@);
            reveal_strlit("pre_compact");
            assert("pre_compact"@.len() != "on_end"@.len());
            assert("pre_compact"@ != "on_end"@);
            reveal_strlit("post_compact");
            assert("post_compact"@.len() != "on_end"@.len());
            assert("post_compact"@ != "on_end"@);
            reveal_strlit("pre_rolling_compact");
            assert("pre_rolling_compact"@.len() != "on_end"@.len());
            assert("pre_rolling_compact"@ != "on_end"@);
            reveal_strlit("post_rolling_compact");
            assert("post_rolling_compact"@.len() != "on_end"@.len());
            assert("post_rolling_compact"@ != "on_end"@);
            reveal_strlit("on_start");
            assert("on_start"@.len() != "on_end"@.len());
            assert("on_start"@ != "on_end"@);
        },
        HookPoint::PreSystemPrompt => {
            reveal_strlit("pre_system_prompt");
            reveal_strlit("pre_message");
            assert("pre_message"@.len() != "pre_system_prompt"@.len());
            assert("pre_message"@ != "pre_system_prompt"@);
            reveal_strlit("post_message");
            assert("post_message"@.len() != "pre_system_prompt"@.len());
            assert("post_message"@ != "pre_system_prompt"@);
            reveal_strlit("pre_tool");
            assert("pre_tool"@.len() != "pre_system_prompt"@.len());
            assert("pre_tool"@ != "pre_system_prompt"@);
            reveal_strlit("post_tool");
            assert("post_tool"@.len() != "pre_system_prompt"@.len());
            assert("post_tool"@ != "pre_system_prompt"@);
            reveal_strlit("pre_tool_output");
            assert("pre_tool_output"@.len() != "pre_system_prompt"@.len());
            assert("pre_tool_output"@ != "pre_system_prompt"@);
            reveal_strlit("post_tool_output");
            assert("post_tool_output"@.len() != "pre_system_prompt"@.len());
            assert("post_tool_output"@ != "pre_system_prompt"@);
            reveal_strlit("pre_clear");
            assert("pre_clear"@.len() != "pre_system_prompt"@.len());
            assert("pre_clear"@ != "pre_system_prompt"@);
            reveal_strlit("post_clear");
            assert("post_clear"@.len() != "pre_system_prompt"@.len());
            assert("post_clear"@ != "pre_system_prompt"@);
            reveal_strlit("pre_compact");
            assert("pre_compact"@.len() != "pre_system_prompt"@.len());
            assert("pre_compact"@ != "pre_system_prompt"@);
            reveal_strlit("post_compact");
            assert("post_compact"@.len() != "pre_system_prompt"@.len());
            assert("post_compact"@ != "pre_system_prompt"@);
            reveal_strlit("pre_rolling_compact");
            assert("pre_rolling_compact"@.len() != "pre_system_prompt"@.len());
            assert("pre_rolling_compact"@ != "pre_system_prompt"@);
            reveal_strlit("post_rolling_compact");
            assert("post_rolling_compact"@.len() != "pre_system_prompt"@.len());
            assert("post_rolling_compact"@ != "pre_system_prompt"@);
            reveal_strlit("on_start");
            assert("on_start"@.len() != "pre_system_prompt"@.len());
            assert("on_start"@ != "pre_system_prompt"@);
            reveal_strlit("on_end");
            assert("on_end"@.len() != "pre_system_prompt"@.len());
            assert("on_end"@ != "pre_system_prompt"@);
        },
        HookPoint::PostSystemPrompt => {
            reveal_strlit("post_system_prompt");
            reveal_strlit("pre_message");
            assert("pre_message"@.len() != "post_system_prompt"@.len());
            assert("pre_message"@ != "post_system_prompt"@);
            reveal_strlit("post_message");
            assert("post_message"@.len() != "post_system_prompt"@.len());
            assert("post_message"@ != "post_system_prompt"@);
            reveal_strlit("pre_tool");
            assert("pre_tool"@.len() != "post_system_prompt"@.len());
            assert("pre_tool"@ != "post_system_prompt"@);
            reveal_strlit("post_tool");
            assert("post_tool"@.len() != "post_system_prompt"@.len());
            assert("post_tool"@ != "post_system_prompt"@);
            reveal_strlit("pre_tool_output");
            assert("pre_tool_output"@.len() != "post_system_prompt"@.len());
            assert("pre_tool_output"@ != "post_system_prompt"@);
            reveal_strlit("post_tool_output");
            assert("post_tool_output"@.len() != "post_system_prompt"@.len());
            assert("post_tool_output"@ != "post_system_prompt"@);
            reveal_strlit("pre_clear");
            assert("pre_clear"@.len() != "post_system_prompt"@.len());
            assert("pre_clear"@ != "post_system_prompt"@);
            reveal_strlit("post_clear");
            assert("post_clear"@.len() != "post_system_prompt"@.len());
            assert("post_clear"@ != "post_system_prompt"@);
            reveal_strlit("pre_compact");
            assert("pre_compact"@.len() != "post_system_prompt"@.len());
            assert("pre_compact"@ != "post_system_prompt"@);
            reveal_strlit("post_compact");
            assert("post_compact"@.len() != "post_system_prompt"@.len());
            assert("post_compact"@ != "post_system_prompt"@);
            reveal_strlit("pre_rolling_compact");
            assert("pre_rolling_compact"@.len() != "post_system_prompt"@.len());
            assert("pre_rolling_compact"@ != "post_system_prompt"@);
            reveal_strlit("post_rolling_compact");
            assert("post_rolling_compact"@.len() != "post_system_prompt"@.len());
            assert("post_rolling_compact"@ != "post_system_prompt"@);
            reveal_strlit("on_start");
            assert("on_start"@.len() != "post_system_prompt"@.len());
            assert("on_start"@ != "post_system_prompt"@);
            reveal_strlit("on_end");
            assert("on_end"@.len() != "post_system_prompt"@.len());
            assert("on_end"@ != "post_system_prompt"@);
            reveal_strlit("pre_system_prompt");
            assert("pre_system_prompt"@.len() != "post_system_prompt"@.len());
            assert("pre_system_prompt"@ != "post_system_prompt"@);
        },
        HookPoint::PreSendMessage => {
            reveal_strlit("pre_send_message");
            reveal_strlit("pre_message");
            assert("pre_message"@.len() != "pre_send_message"@.len());
            assert("pre_message"@ != "pre_send_message"@);
            reveal_strlit("post_message");
            assert("post_message"@.len() != "pre_send_message"@.len());
            assert("post_message"@ != "pre_send_message"@);
            reveal_strlit("pre_tool");
            assert("pre_tool"@.len() != "pre_send_message"@.len());
            assert("pre_tool"@ != "pre_send_message"@);
            reveal_strlit("post_tool");
            assert("post_tool"@.len() != "pre_send_message"@.len());
            assert("post_tool"@ != "pre_send_message"@);
            reveal_strlit("pre_tool_output");
            assert("pre_tool_output"@.len() != "pre_send_message"@.len());
            assert("pre_tool_output"@ != "pre_send_message"@);
            reveal_strlit("post_tool_output");
            assert("post_tool_output"@[1] != "pre_send_message"@[1]);
            assert("post_tool_output"@ != "pre_send_message"@);
            reveal_strlit("pre_clear");
            assert("pre_clear"@.len() != "pre_send_message"@.len());
            assert("pre_clear"@ != "pre_send_message"@);
            reveal_strlit("post_clear");
            assert("post_clear"@.len() != "pre_send_message"@.len());
            assert("post_clear"@ != "pre_send_message"@);
            reveal_strlit("pre_compact");
            assert("pre_compact"@.len() != "pre_send_message"@.len());
            assert("pre_compact"@ != "pre_send_message"@);
            reveal_strlit("post_compact");
            assert("post_compact"@.len() != "pre_send_message"@.len());
            assert("post_compact"@ != "pre_send_message"@);
            reveal_strlit("pre_rolling_compact");
            assert("pre_rolling_compact"@.len() != "pre_send_message"@.len());
            assert("pre_rolling_compact"@ != "pre_send_message"@);
            reveal_strlit("post_rolling_compact");
            assert("post_rolling_compact"@.len() != "pre_send_message"@.len());
            assert("post_rolling_compact"@ != "pre_send_message"@);
            reveal_strlit("on_start");
            assert("on_start"@.len() != "pre_send_message"@.len());
            assert("on_start"@ != "pre_send_message"@);
            reveal_strlit("on_end");
            assert("on_end"@.len() != "pre_send_message"@.len());
            assert("on_end"@ != "pre_send_message"@);
            reveal_strlit("pre_system_prompt");
            assert("pre_system_prompt"@.len() != "pre_send_message"@.len());
            assert("pre_system_prompt"@ != "pre_send_message"@);
            reveal_strlit("post_system_prompt");
            assert("post_system_prompt"@.len() != "pre_send_message"@.len());
            assert("post_system_prompt"@ != "pre_send_message"@);
        },
        HookPoint::PostSendMessage => {
            reveal_strlit("post_send_message");
            reveal_strlit("pre_message");
            assert("pre_message"@.len() != "post_send_message"@.len());
            assert("pre_message"@ != "post_send_message"@);
            reveal_strlit("post_message");
            assert("post_message"@.len() != "post_send_message"@.len());
            assert("post_message"@ != "post_send_message"@);
            reveal_strlit("pre_tool");
            assert("pre_tool"@.len() != "post_send_message"@.len());
            assert("pre_tool"@ != "post_send_message"@);
            reveal_strlit("post_tool");
            assert("post_tool"@.len() != "post_send_message"@.len());
            assert("post_tool"@ != "post_send_message"@);
            reveal_strlit("pre_tool_output");
            assert("pre_tool_output"@.len() != "post_send_message"@.len());
            assert("pre_tool_output"@ != "post_send_message"@);
            reveal_strlit("post_tool_output");
            assert("post_tool_output"@.len() != "post_send_message"@.len());
            assert("post_tool_output"@ != "post_send_message"@);
            reveal_strlit("pre_clear");
            assert("pre_clear"@.len() != "post_send_message"@.len());
            assert("pre_clear"@ != "post_send_message"@);
            reveal_strlit("post_clear");
            assert("post_clear"@.len() != "post_send_message"@.len());
            assert("post_clear"@ != "post_send_message"@);
            reveal_strlit("pre_compact");
            assert("pre_compact"@.len() != "post_send_message"@.len());
            assert("pre_compact"@ != "post_send_message"@);
            reveal_strlit("post_compact");
            assert("post_compact"@.len() != "post_send_message"@.len());
            assert("post_compact"@ != "post_send_message"@);
            reveal_strlit("pre_rolling_compact");
            assert("pre_rolling_compact"@.len() != "post_send_message"@.len());
            assert("pre_rolling_compact"@ != "post_send_message"@);
            reveal_strlit("post_rolling_compact");
            assert("post_rolling_compact"@.len() != "post_send_message"@.len());
            assert("post_rolling_compact"@ != "post_send_message"@);
            reveal_strlit("on_start");
            assert("on_start"@.len() != "post_send_message"@.len());
            assert("on_start"@ != "post_send_message"@);
            reveal_strlit("on_end");
            assert("on_end"@.len() != "post_send_message"@.len());
            assert("on_end"@ != "post_send_message"@);
            reveal_strlit("pre_system_prompt");
            assert("pre_system_prompt"@[1] != "post_send_message"@[1]);
            assert("pre_system_prompt"@ != "post_send_message"@);
            reveal_strlit("post_system_prompt");
            assert("post_system_prompt"@.len() != "post_send_message"@.len());
            assert("post_system_prompt"@ != "post_send_message"@);
            reveal_strlit("pre_send_message");
            assert("pre_send_message"@.len() != "post_send_message"@.len());
            assert("pre_send_message"@ != "post_send_message"@);
        },
        HookPoint::PreCacheOutput => {
            reveal_strlit("pre_cache_output");
            reveal_strlit("pre_message");
            assert("pre_message"@.len() != "pre_cache_output"@.len());
            assert("pre_message"@ != "pre_cache_output"@);
            reveal_strlit("post_message");
            assert("post_message"@.len() != "pre_cache_output"@.len());
            assert("post_message"@ != "pre_cache_output"@);
            reveal_strlit("pre_tool");
            assert("pre_tool"@.len() != "pre_cache_output"@.len());
            assert("pre_tool"@ != "pre_cache_output"@);
            reveal_strlit("post_tool");
            assert("post_tool"@.len() != "pre_cache_output"@.len());
            assert("post_tool"@ != "pre_cache_output"@);
            reveal_strlit("pre_tool_output");
            assert("pre_tool_output"@.len() != "pre_cache_output"@.len());
            assert("pre_tool_output"@ != "pre_cache_output"@);
            reveal_strlit("post_tool_output");
            assert("post_tool_output"@[1] != "pre_cache_output"@[1]);
            assert("post_tool_output"@ != "pre_cache_output"@);
            reveal_strlit("pre_clear");
            assert("pre_clear"@.len() != "pre_cache_output"@.len());
            assert("pre_clear"@ != "pre_cache_output"@);
            reveal_strlit("post_clear");
            assert("post_clear"@.len() != "pre_cache_output"@.len());
            assert("post_clear"@ != "pre_cache_output"@);
            reveal_strlit("pre_compact");
            assert("pre_compact"@.len() != "pre_cache_output"@.len());
            assert("pre_compact"@ != "pre_cache_output"@);
            reveal_strlit("post_compact");
            assert("post_compact"@.len() != "pre_cache_output"@.len());
            assert("post_compact"@ != "pre_cache_output"@);
            reveal_strlit("pre_rolling_compact");
            assert("pre_rolling_compact"@.len() != "pre_cache_output"@.len());
            assert("pre_rolling_compact"@ != "pre_cache_output"@);
            reveal_strlit("post_rolling_compact");
            assert("post_rolling_compact"@.len() != "pre_cache_output"@.len());
            assert("post_rolling_compact"@ != "pre_cache_output"@);
            reveal_strlit("on_start");
            assert("on_start"@.len() != "pre_cache_output"@.len());
            assert("on_start"@ != "pre_cache_output"@);
            reveal_strlit("on_end");
            assert("on_end"@.len() != "pre_cache_output"@.len());
            assert("on_end"@ != "pre_cache_output"@);
            reveal_strlit("pre_system_prompt");
            assert("pre_system_prompt"@.len() != "pre_cache_output"@.len());
            assert("pre_system_prompt"@ != "pre_cache_output"@);
            reveal_strlit("post_system_prompt");
            assert("post_system_prompt"@.len() != "pre_cache_output"@.len());
            assert("post_system_prompt"@ != "pre_cache_output"@);
            reveal_strlit("pre_send_message");
            assert("pre_send_message"@[4] != "pre_cache_output"@[4]);
            assert("pre_send_message"@ != "pre_cache_output"@);
            reveal_strlit("post_send_message");
            assert("post_send_message"@.len() != "pre_cache_output"@.len());
            assert("post_send_message"@ != "pre_cache_output"@);
        },
        HookPoint::PostCacheOutput => {
            reveal_strlit("post_cache_output");
            reveal_strlit("pre_message");
            assert("pre_message"@.len() != "post_cache_output"@.len());
            assert("pre_message"@ != "post_cache_output"@);
            reveal_strlit("post_message");
            assert("post_message"@.len() != "post_cache_output"@.len());
            assert("post_message"@ != "post_cache_output"@);
            reveal_strlit("pre_tool");
            assert("pre_tool"@.len() != "post_cache_output"@.len());
            assert("pre_tool"@ != "post_cache_output"@);
            reveal_strlit("post_tool");
            assert("post_tool"@.len() != "post_cache_output"@.len());
            assert("post_tool"@ != "post_cache_output"@);
            reveal_strlit("pre_tool_output");
            assert("pre_tool_output"@.len() != "post_cache_output"@.len());
            assert("pre_tool_output"@ != "post_cache_output"@);
            reveal_strlit("post_tool_output");
            assert("post_tool_output"@.len() != "post_cache_output"@.len());
            assert("post_tool_output"@ != "post_cache_output"@);
            reveal_strlit("pre_clear");
            assert("pre_clear"@.len() != "post_cache_output"@.len());
            assert("pre_clear"@ != "post_cache_output"@);
            reveal_strlit("post_clear");
            assert("post_clear"@.len() != "post_cache_output"@.len());
            assert("post_clear"@ != "post_cache_output"@);
            reveal_strlit("pre_compact");
            assert("pre_compact"@.len() != "post_cache_output"@.len());
            assert("pre_compact"@ != "post_cache_output"@);
            reveal_strlit("post_compact");
            assert("post_compact"@.len() != "post_cache_output"@.len());
            assert("post_compact"@ != "post_cache_output"@);
            reveal_strlit("pre_rolling_compact");
            assert("pre_rolling_compact"@.len() != "post_cache_output"@.len());
            assert("pre_rolling_compact"@ != "post_cache_output"@);
            reveal_strlit("post_rolling_compact");
            assert("post_rolling_compact"@.len() != "post_cache_output"@.len());
            assert("post_rolling_compact"@ != "post_cache_output"@);
            reveal_strlit("on_start");
            assert("on_start"@.len() != "post_cache_output"@.len());
            assert("on_start"@ != "post_cache_output"@);
            reveal_strlit("on_end");
            assert("on_end"@.len() != "post_cache_output"@.len());
            assert("on_end"@ != "post_cache_output"@);
            reveal_strlit("pre_system_prompt");
            assert("pre_system_prompt"@[1] != "post_cache_output"@[1]);
            assert("pre_system_prompt"@ != "post_cache_output"@);
            reveal_strlit("post_system_prompt");
            assert("post_system_prompt"@.len() != "post_cache_output"@.len());
            assert("post_system_prompt"@ != "post_cache_output"@);
            reveal_strlit("pre_send_message");
            assert("pre_send_message"@.len() != "post_cache_output"@.len());
            assert("pre_send_message"@ != "post_cache_output"@);
            reveal_strlit("post_send_message");
            assert("post_send_message"@[5] != "post_cache_output"@[5]);
            assert("post_send_message"@ != "post_cache_output"@);
            reveal_strlit("pre_cache_output");
            assert("pre_cache_output"@.len() != "post_cache_output"@.len());
            assert("pre_cache_output"@ != "post_cache_output"@);
        },
        HookPoint::PreApiTools => {
            reveal_strlit("pre_api_tools");
            reveal_strlit("pre_message");
            assert("pre_message"@.len() != "pre_api_tools"@.len());
            assert("pre_message"@ != "pre_api_tools"@);
            reveal_strlit("post_message");
            assert("post_message"@.len() != "pre_api_tools"@.len());
            assert("post_message"@ != "pre_api_tools"@);
            reveal_strlit("pre_tool");
            assert("pre_tool"@.len() != "pre_api_tools"@.len());
            assert("pre_tool"@ != "pre_api_tools"@);
            reveal_strlit("post_tool");
            assert("post_tool"@.len() != "pre_api_tools"@.len());
            assert("post_tool"@ != "pre_api_tools"@);
            reveal_strlit("pre_tool_output");
            assert("pre_tool_output"@.len() != "pre_api_tools"@.len());
            assert("pre_tool_output"@ != "pre_api_tools"@);
            reveal_strlit("post_tool_output");
            assert("post_tool_output"@.len() != "pre_api_tools"@.len());
            assert("post_tool_output"@ != "pre_api_tools"@);
            reveal_strlit("pre_clear");
            assert("pre_clear"@.len() != "pre_api_tools"@.len());
            assert("pre_clear"@ != "pre_api_tools"@);
            reveal_strlit("post_clear");
            assert("post_clear"@.len() != "pre_api_tools"@.len());
            assert("post_clear"@ != "pre_api_tools"@);
            reveal_strlit("pre_compact");
            assert("pre_compact"@.len() != "pre_api_tools"@.len());
            assert("pre_compact"@ != "pre_api_tools"@);
            reveal_strlit("post_compact");
            assert("post_compact"@.len() != "pre_api_tools"@.len());
            assert("post_compact"@ != "pre_api_tools"@);
            reveal_strlit("pre_rolling_compact");
            assert("pre_rolling_compact"@.len() != "pre_api_tools"@.len());
            assert("pre_rolling_compact"@ != "pre_api_tools"@);
            reveal_strlit("post_rolling_compact");
            assert("post_rolling_compact"@.len() != "pre_api_tools"@.len());
            assert("post_rolling_compact"@ != "pre_api_tools"@);
            reveal_strlit("on_start");
            assert("on_start"@.len() != "pre_api_tools"@.len());
            assert("on_start"@ != "pre_api_tools"@);
            reveal_strlit("on_end");
            assert("on_end"@.len() != "pre_api_tools"@.len());
            assert("on_end"@ != "pre_api_tools"@);
            reveal_strlit("pre_system_prompt");
            assert("pre_system_prompt"@.len() != "pre_api_tools"@.len());
            assert("pre_system_prompt"@ != "pre_api_tools"@);
            reveal_strlit("post_system_prompt");
            assert("post_system_prompt"@.len() != "pre_api_tools"@.len());
            assert("post_system_prompt"@ != "pre_api_tools"@);
            reveal_strlit("pre_send_message");
            assert("pre_send_message"@.len() != "pre_api_tools"@.len());
            assert("pre_send_message"@ != "pre_api_tools"@);
            reveal_strlit("post_send_message");
            assert("post_send_message"@.len() != "pre_api_tools"@.len());
            assert("post_send_message"@ != "pre_api_tools"@);
            reveal_strlit("pre_cache_output");
            assert("pre_cache_output"@.len() != "pre_api_tools"@.len());
            assert("pre_cache_output"@ != "pre_api_tools"@);
            reveal_strlit("post_cache_output");
            assert("post_cache_output"@.len() != "pre_api_tools"@.len());
            assert("post_cache_output"@ != "pre_api_tools"@);
        },
        HookPoint::PreApiRequest => {
            reveal_strlit("pre_api_request");
            reveal_strlit("pre_message");
            assert("pre_message"@.len() != "pre_api_request"@.len());
            assert("pre_message"@ != "pre_api_request"@);
            reveal_strlit("post_message");
            assert("post_message"@.len() != "pre_api_request"@.len());
            assert("post_message"@ != "pre_api_request"@);
            reveal_strlit("pre_tool");
            assert("pre_tool"@.len() != "pre_api_request"@.len());
            assert("pre_tool"@ != "pre_api_request"@);
            reveal_strlit("post_tool");
            assert("post_tool"@.len() != "pre_api_request"@.len());
            assert("post_tool"@ != "pre_api_request"@);
            reveal_strlit("pre_tool_output");
            assert("pre_tool_output"@[4] != "pre_api_request"@[4]);
            assert("pre_tool_output"@ != "pre_api_request"@);
            reveal_strlit("post_tool_output");
            assert("post_tool_output"@.len() != "pre_api_request"@.len());
            assert("post_tool_output"@ != "pre_api_request"@);
            reveal_strlit("pre_clear");
            assert("pre_clear"@.len() != "pre_api_request"@.len());
            assert("pre_clear"@ != "pre_api_request"@);
            reveal_strlit("post_clear");
            assert("post_clear"@.len() != "pre_api_request"@.len());
            assert("post_clear"@ != "pre_api_request"@);
            reveal_strlit("pre_compact");
            assert("pre_compact"@.len() != "pre_api_request"@.len());
            assert("pre_compact"@ != "pre_api_request"@);
            reveal_strlit("post_compact");
            assert("post_compact"@.len() != "pre_api_request"@.len());
            assert("post_compact"@ != "pre_api_request"@);
            reveal_strlit("pre_rolling_compact");
            assert("pre_rolling_compact"@.len() != "pre_api_request"@.len());
            assert("pre_rolling_compact"@ != "pre_api_request"@);
            reveal_strlit("post_rolling_compact");
            assert("post_rolling_compact"@.len() != "pre_api_request"@.len());
            assert("post_rolling_compact"@ != "pre_api_request"@);
            reveal_strlit("on_start");
            assert("on_start"@.len() != "pre_api_request"@.len());
            assert("on_start"@ != "pre_api_request"@);
            reveal_strlit("on_end");
            assert("on_end"@.len() != "pre_api_request"@.len());
            assert("on_end"@ != "pre_api_request"@);
            reveal_strlit("pre_system_prompt");
            assert("pre_system_prompt"@.len() != "pre_api_request"@.len());
            assert("pre_system_prompt"@ != "pre_api_request"@);
            reveal_strlit("post_system_prompt");
            assert("post_system_prompt"@.len() != "pre_api_request"@.len());
            assert("post_system_prompt"@ != "pre_api_request"@);
            reveal_strlit("pre_send_message");
            assert("pre_send_message"@.len() != "pre_api_request"@.len());
            assert("pre_send_message"@ != "pre_api_request"@);
            reveal_strlit("post_send_message");
            assert("post_send_message"@.len() != "pre_api_request"@.len());
            assert("post_send_message"@ != "pre_api_request"@);
            reveal_strlit("pre_cache_output");
            assert("pre_cache_output"@.len() != "pre_api_request"@.len());
            assert("pre_cache_output"@ != "pre_api_request"@);
            reveal_strlit("post_cache_output");
            assert("post_cache_output"@.len() != "pre_api_request"@.len());
            assert("post_cache_output"@ != "pre_api_request"@);
            reveal_strlit("pre_api_tools");
            assert("pre_api_tools"@.len() != "pre_api_request"@.len());
            assert("pre_api_tools"@ != "pre_api_request"@);
        },
        HookPoint::PreAgenticLoop => {
            reveal_strlit("pre_agentic_loop");
            reveal_strlit("pre_message");
            assert("pre_message"@.len() != "pre_agentic_loop"@.len());
            assert("pre_message"@ != "pre_agentic_loop"@);
            reveal_strlit("post_message");
            assert("post_message"@.len() != "pre_agentic_loop"@.len());
            assert("post_message"@ != "pre_agentic_loop"@);
            reveal_strlit("pre_tool");
            assert("pre_tool"@.len() != "pre_agentic_loop"@.len());
            assert("pre_tool"@ != "pre_agentic_loop"@);
            reveal_strlit("post_tool");
            assert("post_tool"@.len() != "pre_agentic_loop"@.len());
            assert("post_tool"@ != "pre_agentic_loop"@);
            reveal_strlit("pre_tool_output");
            assert("pre_tool_output"@.len() != "pre_agentic_loop"@.len());
            assert("pre_tool_output"@ != "pre_agentic_loop"@);
            reveal_strlit("post_tool_output");
            assert("post_tool_output"@[1] != "pre_agentic_loop"@[1]);
            assert("post_tool_output"@ != "pre_agentic_loop"@);
            reveal_strlit("pre_clear");
            assert("pre_clear"@.len() != "pre_agentic_loop"@.len());
            assert("pre_clear"@ != "pre_agentic_loop"@);
            reveal_strlit("post_clear");
            assert("post_clear"@.len() != "pre_agentic_loop"@.len());
            assert("post_clear"@ != "pre_agentic_loop"@);
            reveal_strlit("pre_compact");
            assert("pre_compact"@.len() != "pre_agentic_loop"@.len());
            assert("pre_compact"@ != "pre_agentic_loop"@);
            reveal_strlit("post_compact");
            assert("post_compact"@.len() != "pre_agentic_loop"@.len());
            assert("post_compact"@ != "pre_agentic_loop"@);
            reveal_strlit("pre_rolling_compact");
            assert("pre_rolling_compact"@.len() != "pre_agentic_loop"@.len());
            assert("pre_rolling_compact"@ != "pre_agentic_loop"@);
            reveal_strlit("post_rolling_compact");
            assert("post_rolling_compact"@.len() != "pre_agentic_loop"@.len());
            assert("post_rolling_compact"@ != "pre_agentic_loop"@);
            reveal_strlit("on_start");
            assert("on_start"@.len() != "pre_agentic_loop"@.len());
            assert("on_start"@ != "pre_agentic_loop"@);
            reveal_strlit("on_end");
            assert("on_end"@.len() != "pre_agentic_loop"@.len());
            assert("on_end"@ != "pre_agentic_loop"@);
            reveal_strlit("pre_system_prompt");
            assert("pre_system_prompt"@.len() != "pre_agentic_loop"@.len());
            assert("pre_system_prompt"@ != "pre_agentic_loop"@);
            reveal_strlit("post_system_prompt");
            assert("post_system_prompt"@.len() != "pre_agentic_loop"@.len());
            assert("post_system_prompt"@ != "pre_agentic_loop"@);
            reveal_strlit("pre_send_message");
            assert("pre_send_message"@[4] != "pre_agentic_loop"@[4]);
            assert("pre_send_message"@ != "pre_agentic_loop"@);
            reveal_strlit("post_send_message");
            assert("post_send_message"@.len() != "pre_agentic_loop"@.len());
            assert("post_send_message"@ != "pre_agentic_loop"@);
            reveal_strlit("pre_cache_output");
            assert("pre_cache_output"@[4] != "pre_agentic_loop"@[4]);
            assert("pre_cache_output"@ != "pre_agentic_loop"@);
            reveal_strlit("post_cache_output");
            assert("post_cache_output"@.len() != "pre_agentic_loop"@.len());
            assert("post_cache_output"@ != "pre_agentic_loop"@);
            reveal_strlit("pre_api_tools");
            assert("pre_api_tools"@.len() != "pre_agentic_loop"@.len());
            assert("pre_api_tools"@ != "pre_agentic_loop"@);
            reveal_strlit("pre_api_request");
            assert("pre_api_request"@.len() != "pre_agentic_loop"@.len());
            assert("pre_api_request"@ != "pre_agentic_loop"@);
        },
        HookPoint::PostToolBatch => {
            reveal_strlit("post_tool_batch");
            reveal_strlit("pre_message");
            assert("pre_message"@.len() != "post_tool_batch"@.len());
            assert("pre_message"@ != "post_tool_batch"@);
            reveal_strlit("post_message");
            assert("post_message"@.len() != "post_tool_batch"@.len());
            assert("post_message"@ != "post_tool_batch"@);
            reveal_strlit("pre_tool");
            assert("pre_tool"@.len() != "post_tool_batch"@.len());
            assert("pre_tool"@ != "post_tool_batch"@);
            reveal_strlit("post_tool");
            assert("post_tool"@.len() != "post_tool_batch"@.len());
            assert("post_tool"@ != "post_tool_batch"@);
            reveal_strlit("pre_tool_output");
            assert("pre_tool_output"@[1] != "post_tool_batch"@[1]);
            assert("pre_tool_output"@ != "post_tool_batch"@);
            reveal_strlit("post_tool_output");
            assert("post_tool_output"@.len() != "post_tool_batch"@.len());
            assert("post_tool_output"@ != "post_tool_batch"@);
            reveal_strlit("pre_clear");
            assert("pre_clear"@.len() != "post_tool_batch"@.len());
            assert("pre_clear"@ != "post_tool_batch"@);
            reveal_strlit("post_clear");
            assert("post_clear"@.len() != "post_tool_batch"@.len());
            assert("post_clear"@ != "post_tool_batch"@);
            reveal_strlit("pre_compact");
            assert("pre_compact"@.len() != "post_tool_batch"@.len());
            assert("pre_compact"@ != "post_tool_batch"@);
            reveal_strlit("post_compact");
            assert("post_compact"@.len() != "post_tool_batch"@.len());
            assert("post_compact"@ != "post_tool_batch"@);
            reveal_strlit("pre_rolling_compact");
            assert("pre_rolling_compact"@.len() != "post_tool_batch"@.len());
            assert("pre_rolling_compact"@ != "post_tool_batch"@);
            reveal_strlit("post_rolling_compact");
            assert("post_rolling_compact"@.len() != "post_tool_batch"@.len());
            assert("post_rolling_compact"@ != "post_tool_batch"@);
            reveal_strlit("on_start");
            assert("on_start"@.len() != "post_tool_batch"@.len());
            assert("on_start"@ != "post_tool_batch"@);
            reveal_strlit("on_end");
            assert("on_end"@.len() != "post_tool_batch"@.len());
            assert("on_end"@ != "post_tool_batch"@);
            reveal_strlit("pre_system_prompt");
            assert("pre_system_prompt"@.len() != "post_tool_batch"@.len());
            assert("pre_system_prompt"@ != "post_tool_batch"@);
            reveal_strlit("post_system_prompt");
            assert("post_system_prompt"@.len() != "post_tool_batch"@.len());
            assert("post_system_prompt"@ != "post_tool_batch"@);
            reveal_strlit("pre_send_message");
            assert("pre_send_message"@.len() != "post_tool_batch"@.len());
            assert("pre_send_message"@ != "post_tool_batch"@);
            reveal_strlit("post_send_message");
            assert("post_send_message"@.len() != "post_tool_batch"@.len());
            assert("post_send_message"@ != "post_tool_batch"@);
            reveal_strlit("pre_cache_output");
            assert("pre_cache_output"@.len() != "post_tool_batch"@.len());
            assert("pre_cache_output"@ != "post_tool_batch"@);
            reveal_strlit("post_cache_output");
            assert("post_cache_output"@.len() != "post_tool_batch"@.len());
            assert("post_cache_output"@ != "post_tool_batch"@);
            reveal_strlit("pre_api_tools");
            assert("pre_api_tools"@.len() != "post_tool_batch"@.len());
            assert("pre_api_tools"@ != "post_tool_batch"@);
            reveal_strlit("pre_api_request");
            assert("pre_api_request"@[1] != "post_tool_batch"@[1]);
            assert("pre_api_request"@ != "post_tool_batch"@);
            reveal_strlit("pre_agentic_loop");
            assert("pre_agentic_loop"@.len() != "post_tool_batch"@.len());
            assert("pre_agentic_loop"@ != "post_tool_batch"@);
        },
        HookPoint::PreFileRead => {
            reveal_strlit("pre_file_read");
            reveal_strlit("pre_message");
            assert("pre_message"@.len() != "pre_file_read"@.len());
            assert("pre_message"@ != "pre_file_read"@);
            reveal_strlit("post_message");
            assert("post_message"@.len() != "pre_file_read"@.len());
            assert("post_message"@ != "pre_file_read"@);
            reveal_strlit("pre_tool");
            assert("pre_tool"@.len() != "pre_file_read"@.len());
            assert("pre_tool"@ != "pre_file_read"@);
            reveal_strlit("post_tool");
            assert("post_tool"@.len() != "pre_file_read"@.len());
            assert("post_tool"@ != "pre_file_read"@);
            reveal_strlit("pre_tool_output");
            assert("pre_tool_output"@.len() != "pre_file_read"@.len());
            assert("pre_tool_output"@ != "pre_file_read"@);
            reveal_strlit("post_tool_output");
            assert("post_tool_output"@.len() != "pre_file_read"@.len());
            assert("post_tool_output"@ != "pre_file_read"@);
            reveal_strlit("pre_clear");
            assert("pre_clear"@.len() != "pre_file_read"@.len());
            assert("pre_clear"@ != "pre_file_read"@);
            reveal_strlit("post_clear");
            assert("post_clear"@.len() != "pre_file_read"@.len());
            assert("post_clear"@ != "pre_file_read"@);
            reveal_strlit("pre_compact");
            assert("pre_compact"@.len() != "pre_file_read"@.len());
            assert("pre_compact"@ != "pre_file_read"@);
            reveal_strlit("post_compact");
            assert("post_compact"@.len() != "pre_file_read"@.len());
            assert("post_compact"@ != "pre_file_read"@);
            reveal_strlit("pre_rolling_compact");
            assert("pre_rolling_compact"@.len() != "pre_file_read"@.len());
            assert("pre_rolling_compact"@ != "pre_file_read"@);
            reveal_strlit("post_rolling_compact");
            assert("post_rolling_compact"@.len() != "pre_file_read"@.len());
            assert("post_rolling_compact"@ != "pre_file_read"@);
            reveal_strlit("on_start");
            assert("on_start"@.len() != "pre_file_read"@.len());
            assert("on_start"@ != "pre_file_read"@);
            reveal_strlit("on_end");
            assert("on_end"@.len() != "pre_file_read"@.len());
            assert("on_end"@ != "pre_file_read"@);
            reveal_strlit("pre_system_prompt");
            assert("pre_system_prompt"@.len() != "pre_file_read"@.len());
            assert("pre_system_prompt"@ != "pre_file_read"@);
            reveal_strlit("post_system_prompt");
            assert("post_system_prompt"@.len() != "pre_file_read"@.len());
            assert("post_system_prompt"@ != "pre_file_read"@);
            reveal_strlit("pre_send_message");
            assert("pre_send_message"@.len() != "pre_file_read"@.len());
            assert("pre_send_message"@ != "pre_file_read"@);
            reveal_strlit("post_send_message");
            assert("post_send_message"@.len() != "pre_file_read"@.len());
            assert("post_send_message"@ != "pre_file_read"@);
            reveal_strlit("pre_cache_output");
            assert("pre_cache_output"@.len() != "pre_file_read"@.len());
            assert("pre_cache_output"@ != "pre_file_read"@);
            reveal_strlit("post_cache_output");
            assert("post_cache_output"@.len() != "pre_file_read"@.len());
            assert("post_cache_output"@ != "pre_file_read"@);
            reveal_strlit("pre_api_tools");
            assert("pre_api_tools"@[4] != "pre_file_read"@[4]);
            assert("pre_api_tools"@ != "pre_file_read"@);
            reveal_strlit("pre_api_request");
            assert("pre_api_request"@.len() != "pre_file_read"@.len());
            assert("pre_api_request"@ != "pre_file_read"@);
            reveal_strlit("pre_agentic_loop");
            assert("pre_agentic_loop"@.len() != "pre_file_read"@.len());
            assert("pre_agentic_loop"@ != "pre_file_read"@);
            reveal_strlit("post_tool_batch");
            assert("post_tool_batch"@.len() != "pre_file_read"@.len());
            assert("post_tool_batch"@ != "pre_file_read"@);
        },
        HookPoint::PreFileWrite => {
            reveal_strlit("pre_file_write");
            reveal_strlit("pre_message");
            assert("pre_message"@.len() != "pre_file_write"@.len());
            assert("pre_message"@ != "pre_file_write"@);
            reveal_strlit("post_message");
            assert("post_message"@.len() != "pre_file_write"@.len());
            assert("post_message"@ != "pre_file_write"@);
            reveal_strlit("pre_tool");
            assert("pre_tool"@.len() != "pre_file_write"@.len());
            assert("pre_tool"@ != "pre_file_write"@);
            reveal_strlit("post_tool");
            assert("post_tool"@.len() != "pre_file_write"@.len());
            assert("post_tool"@ != "pre_file_write"@);
            reveal_strlit("pre_tool_output");
            assert("pre_tool_output"@.len() != "pre_file_write"@.len());
            assert("pre_tool_output"@ != "pre_file_write"@);
            reveal_strlit("post_tool_output");
            assert("post_tool_output"@.len() != "pre_file_write"@.len());
            assert("post_tool_output"@ != "pre_file_write"@);
            reveal_strlit("pre_clear");
            assert("pre_clear"@.len() != "pre_file_write"@.len());
            assert("pre_clear"@ != "pre_file_write"@);
            reveal_strlit("post_clear");
            assert("post_clear"@.len() != "pre_file_write"@.len());
            assert("post_clear"@ != "pre_file_write"@);
            reveal_strlit("pre_compact");
            assert("pre_compact"@.len() != "pre_file_write"@.len());
            assert("pre_compact"@ != "pre_file_write"@);
            reveal_strlit("post_compact");
            assert("post_compact"@.len() != "pre_file_write"@.len());
            assert("post_compact"@ != "pre_file_write"@);
            reveal_strlit("pre_rolling_compact");
            assert("pre_rolling_compact"@.len() != "pre_file_write"@.len());
            assert("pre_rolling_compact"@ != "pre_file_write"@);
            reveal_strlit("post_rolling_compact");
            assert("post_rolling_compact"@.len() != "pre_file_write"@.len());
            assert("post_rolling_compact"@ != "pre_file_write"@);
            reveal_strlit("on_start");
            assert("on_start"@.len() != "pre_file_write"@.len());
            assert("on_start"@ != "pre_file_write"@);
            reveal_strlit("on_end");
            assert("on_end"@.len() != "pre_file_write"@.len());
            assert("on_end"@ != "pre_file_write"@);
            reveal_strlit("pre_system_prompt");
            assert("pre_system_prompt"@.len() != "pre_file_write"@.len());
            assert("pre_system_prompt"@ != "pre_file_write"@);
            reveal_strlit("post_system_prompt");
            assert("post_system_prompt"@.len() != "pre_file_write"@.len());
            assert("post_system_prompt"@ != "pre_file_write"@);
            reveal_strlit("pre_send_message");
            assert("pre_send_message"@.len() != "pre_file_write"@.len());
            assert("pre_send_message"@ != "pre_file_write"@);
            reveal_strlit("post_send_message");
            assert("post_send_message"@.len() != "pre_file_write"@.len());
            assert("post_send_message"@ != "pre_file_write"@);
            reveal_strlit("pre_cache_output");
            assert("pre_cache_output"@.len() != "pre_file_write"@.len());
            assert("pre_cache_output"@ != "pre_file_write"@);
            reveal_strlit("post_cache_output");
            assert("post_cache_output"@.len() != "pre_file_write"@.len());
            assert("post_cache_output"@ != "pre_file_write"@);
            reveal_strlit("pre_api_tools");
            assert("pre_api_tools"@.len() != "pre_file_write"@.len());
            assert("pre_api_tools"@ != "pre_file_write"@);
            reveal_strlit("pre_api_request");
            assert("pre_api_request"@.len() != "pre_file_write"@.len());
            assert("pre_api_request"@ != "pre_file_write"@);
            reveal_strlit("pre_agentic_loop");
            assert("pre_agentic_loop"@.len() != "pre_file_write"@.len());
            assert("pre_agentic_loop"@ != "pre_file_write"@);
            reveal_strlit("post_tool_batch");
            assert("post_tool_batch"@.len() != "pre_file_write"@.len());
            assert("post_tool_batch"@ != "pre_file_write"@);
            reveal_strlit("pre_file_read");
            assert("pre_file_read"@.len() != "pre_file_write"@.len());
            assert("pre_file_read"@ != "pre_file_write"@);
        },
        HookPoint::PreShellExec => {
            reveal_strlit("pre_shell_exec");
            reveal_strlit("pre_message");
            assert("pre_message"@.len() != "pre_shell_exec"@.len());
            assert("pre_message"@ != "pre_shell_exec"@);
            reveal_strlit("post_message");
            assert("post_message"@.len() != "pre_shell_exec"@.len());
            assert("post_message"@ != "pre_shell_exec"@);
            reveal_strlit("pre_tool");
            assert("pre_tool"@.len() != "pre_shell_exec"@.len());
            assert("pre_tool"@ != "pre_shell_exec"@);
            reveal_strlit("post_tool");
            assert("post_tool"@.len() != "pre_shell_exec"@.len());
            assert("post_tool"@ != "pre_shell_exec"@);
            reveal_strlit("pre_tool_output");
            assert("pre_tool_output"@.len() != "pre_shell_exec"@.len());
            assert("pre_tool_output"@ != "pre_shell_exec"@);
            reveal_strlit("post_tool_output");
            assert("post_tool_output"@.len() != "pre_shell_exec"@.len());
            assert("post_tool_output"@ != "pre_shell_exec"@);
            reveal_strlit("pre_clear");
            assert("pre_clear"@.len() != "pre_shell_exec"@.len());
            assert("pre_clear"@ != "pre_shell_exec"@);
            reveal_strlit("post_clear");
            assert("post_clear"@.len() != "pre_shell_exec"@.len());
            assert("post_clear"@ != "pre_shell_exec"@);
            reveal_strlit("pre_compact");
            assert("pre_compact"@.len() != "pre_shell_exec"@.len());
            assert("pre_compact"@ != "pre_shell_exec"@);
            reveal_strlit("post_compact");
            assert("post_compact"@.len() != "pre_shell_exec"@.len());
            assert("post_compact"@ != "pre_shell_exec"@);
            reveal_strlit("pre_rolling_compact");
            assert("pre_rolling_compact"@.len() != "pre_shell_exec"@.len());
            assert("pre_rolling_compact"@ != "pre_shell_exec"@);
            reveal_strlit("post_rolling_compact");
            assert("post_rolling_compact"@.len() != "pre_shell_exec"@.len());
            assert("post_rolling_compact"@ != "pre_shell_exec"@);
            reveal_strlit("on_start");
            assert("on_start"@.len() != "pre_shell_exec"@.len());
            assert("on_start"@ != "pre_shell_exec"@);
            reveal_strlit("on_end");
            assert("on_end"@.len() != "pre_shell_exec"@.len());
            assert("on_end"@ != "pre_shell_exec"@);
            reveal_strlit("pre_system_prompt");
            assert("pre_system_prompt"@.len() != "pre_shell_exec"@.len());
            assert("pre_system_prompt"@ != "pre_shell_exec"@);
            reveal_strlit("post_system_prompt");
            assert("post_system_prompt"@.len() != "pre_shell_exec"@.len());
            assert("post_system_prompt"@ != "pre_shell_exec"@);
            reveal_strlit("pre_send_message");
            assert("pre_send_message"@.len() != "pre_shell_exec"@.len());
            assert("pre_send_message"@ != "pre_shell_exec"@);
            reveal_strlit("post_send_message");
            assert("post_send_message"@.len() != "pre_shell_exec"@.len());
            assert("post_send_message"@ != "pre_shell_exec"@);
            reveal_strlit("pre_cache_output");
            assert("pre_cache_output"@.len() != "pre_shell_exec"@.len());
            assert("pre_cache_output"@ != "pre_shell_exec"@);
            reveal_strlit("post_cache_output");
            assert("post_cache_output"@.len() != "pre_shell_exec"@.len());
            assert("post_cache_output"@ != "pre_shell_exec"@);
            reveal_strlit("pre_api_tools");
            assert("pre_api_tools"@.len() != "pre_shell_exec"@.len());
            assert("pre_api_tools"@ != "pre_shell_exec"@);
            reveal_strlit("pre_api_request");
            assert("pre_api_request"@.len() != "pre_shell_exec"@.len());
            assert("pre_api_request"@ != "pre_shell_exec"@);
            reveal_strlit("pre_agentic_loop");
            assert("pre_agentic_loop"@.len() != "pre_shell_exec"@.len());
            assert("pre_agentic_loop"@ != "pre_shell_exec"@);
            reveal_strlit("post_tool_batch");
            assert("post_tool_batch"@.len() != "pre_shell_exec"@.len());
            assert("post_tool_batch"@ != "pre_shell_exec"@);
            reveal_strlit("pre_file_read");
            assert("pre_file_read"@.len() != "pre_shell_exec"@.len());
            assert("pre_file_read"@ != "pre_shell_exec"@);
            reveal_strlit("pre_file_write");
            assert("pre_file_write"@[4] != "pre_shell_exec"@[4]);
            assert("pre_file_write"@ != "pre_shell_exec"@);
        },
        HookPoint::PreFetchUrl => {
            reveal_strlit("pre_fetch_url");
            reveal_strlit("pre_message");
            assert("pre_message"@.len() != "pre_fetch_url"@.len());
            assert("pre_message"@ != "pre_fetch_url"@);
            reveal_strlit("post_message");
            assert("post_message"@.len() != "pre_fetch_url"@.len());
            assert("post_message"@ != "pre_fetch_url"@);
            reveal_strlit("pre_tool");
            assert("pre_tool"@.len() != "pre_fetch_url"@.len());
            assert("pre_tool"@ != "pre_fetch_url"@);
            reveal_strlit("post_tool");
            assert("post_tool"@.len() != "pre_fetch_url"@.len());
            assert("post_tool"@ != "pre_fetch_url"@);
            reveal_strlit("pre_tool_output");
            assert("pre_tool_output"@.len() != "pre_fetch_url"@.len());
            assert("pre_tool_output"@ != "pre_fetch_url"@);
            reveal_strlit("post_tool_output");
            assert("post_tool_output"@.len() != "pre_fetch_url"@.len());
            assert("post_tool_output"@ != "pre_fetch_url"@);
            reveal_strlit("pre_clear");
            assert("pre_clear"@.len() != "pre_fetch_url"@.len());
            assert("pre_clear"@ != "pre_fetch_url"@);
            reveal_strlit("post_clear");
            assert("post_clear"@.len() != "pre_fetch_url"@.len());
            assert("post_clear"@ != "pre_fetch_url"@);
            reveal_strlit("pre_compact");
            assert("pre_compact"@.len() != "pre_fetch_url"@.len());
            assert("pre_compact"@ != "pre_fetch_url"@);
            reveal_strlit("post_compact");
            assert("post_compact"@.len() != "pre_fetch_url"@.len());
            assert("post_compact"@ != "pre_fetch_url"@);
            reveal_strlit("pre_rolling_compact");
            assert("pre_rolling_compact"@.len() != "pre_fetch_url"@.len());
            assert("pre_rolling_compact"@ != "pre_fetch_url"@);
            reveal_strlit("post_rolling_compact");
            assert("post_rolling_compact"@.len() != "pre_fetch_url"@.len());
            assert("post_rolling_compact"@ != "pre_fetch_url"@);
            reveal_strlit("on_start");
            assert("on_start"@.len() != "pre_fetch_url"@.len());
            assert("on_start"@ != "pre_fetch_url"@);
            reveal_strlit("on_end");
            assert("on_end"@.len() != "pre_fetch_url"@.len());
            assert("on_end"@ != "pre_fetch_url"@);
            reveal_strlit("pre_system_prompt");
            assert("pre_system_prompt"@.len() != "pre_fetch_url"@.len());
            assert("pre_system_prompt"@ != "pre_fetch_url"@);
            reveal_strlit("post_system_prompt");
            assert("post_system_prompt"@.len() != "pre_fetch_url"@.len());
            assert("post_system_prompt"@ != "pre_fetch_url"@);
            reveal_strlit("pre_send_message");
            assert("pre_send_message"@.len() != "pre_fetch_url"@.len());
            assert("pre_send_message"@ != "pre_fetch_url"@);
            reveal_strlit("post_send_message");
            assert("post_send_message"@.len() != "pre_fetch_url"@.len());
            assert("post_send_message"@ != "pre_fetch_url"@);
            reveal_strlit("pre_cache_output");
            assert("pre_cache_output"@.len() != "pre_fetch_url"@.len());
            assert("pre_cache_output"@ != "pre_fetch_url"@);
            reveal_strlit("post_cache_output");
            assert("post_cache_output"@.len() != "pre_fetch_url"@.len());
            assert("post_cache_output"@ != "pre_fetch_url"@);
            reveal_strlit("pre_api_tools");
            assert("pre_api_tools"@[4] != "pre_fetch_url"@[4]);
            assert("pre_api_tools"@ != "pre_fetch_url"@);
            reveal_strlit("pre_api_request");
            assert("pre_api_request"@.len() != "pre_fetch_url"@.len());
            assert("pre_api_request"@ != "pre_fetch_url"@);
            reveal_strlit("pre_agentic_loop");
            assert("pre_agentic_loop"@.len() != "pre_fetch_url"@.len());
            assert("pre_agentic_loop"@ != "pre_fetch_url"@);
            reveal_strlit("post_tool_batch");
            assert("post_tool_batch"@.len() != "pre_fetch_url"@.len());
            assert("post_tool_batch"@ != "pre_fetch_url"@);
            reveal_strlit("pre_file_read");
            assert("pre_file_read"@[5] != "pre_fetch_url"@[5]);
            assert("pre_file_read"@ != "pre_fetch_url"@);
            reveal_strlit("pre_file_write");
            assert("pre_file_write"@.len() != "pre_fetch_url"@.len());
            assert("pre_file_write"@ != "pre_fetch_url"@);
            reveal_strlit("pre_shell_exec");
            assert("pre_shell_exec"@.len() != "pre_fetch_url"@.len());
            assert("pre_shell_exec"@ != "pre_fetch_url"@);
        },
        HookPoint::PreSpawnAgent => {
            reveal_strlit("pre_spawn_agent");
            reveal_strlit("pre_message");
            assert("pre_message"@.len() != "pre_spawn_agent"@.len());
            assert("pre_message"@ != "pre_spawn_agent"@);
            reveal_strlit("post_message");
            assert("post_message"@.len() != "pre_spawn_agent"@.len());
            assert("post_message"@ != "pre_spawn_agent"@);
            reveal_strlit("pre_tool");
            assert("pre_tool"@.len() != "pre_spawn_agent"@.len());
            assert("pre_tool"@ != "pre_spawn_agent"@);
            reveal_strlit("post_tool");
            assert("post_tool"@.len() != "pre_spawn_agent"@.len());
            assert("post_tool"@ != "pre_spawn_agent"@);
            reveal_strlit("pre_tool_output");
            assert("pre_tool_output"@[4] != "pre_spawn_agent"@[4]);
            assert("pre_tool_output"@ != "pre_spawn_agent"@);
            reveal_strlit("post_tool_output");
            assert("post_tool_output"@.len() != "pre_spawn_agent"@.len());
            assert("post_tool_output"@ != "pre_spawn_agent"@);
            reveal_strlit("pre_clear");
            assert("pre_clear"@.len() != "pre_spawn_agent"@.len());
            assert("pre_clear"@ != "pre_spawn_agent"@);
            reveal_strlit("post_clear");
            assert("post_clear"@.len() != "pre_spawn_agent"@.len());
            assert("post_clear"@ != "pre_spawn_agent"@);
            reveal_strlit("pre_compact");
            assert("pre_compact"@.len() != "pre_spawn_agent"@.len());
            assert("pre_compact"@ != "pre_spawn_agent"@);
            reveal_strlit("post_compact");
            assert("post_compact"@.len() != "pre_spawn_agent"@.len());
            assert("post_compact"@ != "pre_spawn_agent"@);
            reveal_strlit("pre_rolling_compact");
            assert("pre_rolling_compact"@.len() != "pre_spawn_agent"@.len());
            assert("pre_rolling_compact"@ != "pre_spawn_agent"@);
            reveal_strlit("post_rolling_compact");
            assert("post_rolling_compact"@.len() != "pre_spawn_agent"@.len());
            assert("post_rolling_compact"@ != "pre_spawn_agent"@);
            reveal_strlit("on_start");
            assert("on_start"@.len() != "pre_spawn_agent"@.len());
            assert("on_start"@ != "pre_spawn_agent"@);
            reveal_strlit("on_end");
            assert("on_end"@.len() != "pre_spawn_agent"@.len());
            assert("on_end"@ != "pre_spawn_agent"@);
            reveal_strlit("pre_system_prompt");
            assert("pre_system_prompt"@.len() != "pre_spawn_agent"@.len());
            assert("pre_system_prompt"@ != "pre_spawn_agent"@);
            reveal_strlit("post_system_prompt");
            assert("post_system_prompt"@.len() != "pre_spawn_agent"@.len());
            assert("post_system_prompt"@ != "pre_spawn_agent"@);
            reveal_strlit("pre_send_message");
            assert("pre_send_message"@.len() != "pre_spawn_agent"@.len());
            assert("pre_send_message"@ != "pre_spawn_agent"@);
            reveal_strlit("post_send_message");
            assert("post_send_message"@.len() != "pre_spawn_agent"@.len());
            assert("post_send_message"@ != "pre_spawn_agent"@);
            reveal_strlit("pre_cache_output");
            assert("pre_cache_output"@.len() != "pre_spawn_agent"@.len());
            assert("pre_cache_output"@ != "pre_spawn_agent"@);
            reveal_strlit("post_cache_output");
            assert("post_cache_output"@.len() != "pre_spawn_agent"@.len());
            assert("post_cache_output"@ != "pre_spawn_agent"@);
            reveal_strlit("pre_api_tools");
            assert("pre_api_tools"@.len() != "pre_spawn_agent"@.len());
            assert("pre_api_tools"@ != "pre_spawn_agent"@);
            reveal_strlit("pre_api_request");
            assert("pre_api_request"@[4] != "pre_spawn_agent"@[4]);
            assert("pre_api_request"@ != "pre_spawn_agent"@);
            reveal_strlit("pre_agentic_loop");
            assert("pre_agentic_loop"@.len() != "pre_spawn_agent"@.len());
            assert("pre_agentic_loop"@ != "pre_spawn_agent"@);
            reveal_strlit("post_tool_batch");
            assert("post_tool_batch"@[1] != "pre_spawn_agent"@[1]);
            assert("post_tool_batch"@ != "pre_spawn_agent"@);
            reveal_strlit("pre_file_read");
            assert("pre_file_read"@.len() != "pre_spawn_agent"@.len());
            assert("pre_file_read"@ != "pre_spawn_agent"@);
            reveal_strlit("pre_file_write");
            assert("pre_file_write"@.len() != "pre_spawn_agent"@.len());
            assert("pre_file_write"@ != "pre_spawn_agent"@);
            reveal_strlit("pre_shell_exec");
            assert("pre_shell_exec"@.len() != "pre_spawn_agent"@.len());
            assert("pre_shell_exec"@ != "pre_spawn_agent"@);
            reveal_strlit("pre_fetch_url");
            assert("pre_fetch_url"@.len() != "pre_spawn_agent"@.len());
            assert("pre_fetch_url"@ != "pre_spawn_agent"@);
        },
        HookPoint::PostSpawnAgent => {
            reveal_strlit("post_spawn_agent");
            reveal_strlit("pre_message");
            assert("pre_message"@.len() != "post_spawn_agent"@.len());
            assert("pre_message"@ != "post_spawn_agent"@);
            reveal_strlit("post_message");
            assert("post_message"@.len() != "post_spawn_agent"@.len());
            assert("post_message"@ != "post_spawn_agent"@);
            reveal_strlit("pre_tool");
            assert("pre_tool"@.len() != "post_spawn_agent"@.len());
            assert("pre_tool"@ != "post_spawn_agent"@);
            reveal_strlit("post_tool");
            assert("post_tool"@.len() != "post_spawn_agent"@.len());
            assert("post_tool"@ != "post_spawn_agent"@);
            reveal_strlit("pre_tool_output");
            assert("pre_tool_output"@.len() != "post_spawn_agent"@.len());
            assert("pre_tool_output"@ != "post_spawn_agent"@);
            reveal_strlit("post_tool_output");
            assert("post_tool_output"@[5] != "post_spawn_agent"@[5]);
            assert("post_tool_output"@ != "post_spawn_agent"@);
            reveal_strlit("pre_clear");
            assert("pre_clear"@.len() != "post_spawn_agent"@.len());
            assert("pre_clear"@ != "post_spawn_agent"@);
            reveal_strlit("post_clear");
            assert("post_clear"@.len() != "post_spawn_agent"@.len());
            assert("post_clear"@ != "post_spawn_agent"@);
            reveal_strlit("pre_compact");
            assert("pre_compact"@.len() != "post_spawn_agent"@.len());
            assert("pre_compact"@ != "post_spawn_agent"@);
            reveal_strlit("post_compact");
            assert("post_compact"@.len() != "post_spawn_agent"@.len());
            assert("post_compact"@ != "post_spawn_agent"@);
            reveal_strlit("pre_rolling_compact");
            assert("pre_rolling_compact"@.len() != "post_spawn_agent"@.len());
            assert("pre_rolling_compact"@ != "post_spawn_agent"@);
            reveal_strlit("post_rolling_compact");
            assert("post_rolling_compact"@.len() != "post_spawn_agent"@.len());
            assert("post_rolling_compact"@ != "post_spawn_agent"@);
            reveal_strlit("on_start");
            assert("on_start"@.len() != "post_spawn_agent"@.len());
            assert("on_start"@ != "post_spawn_agent"@);
            reveal_strlit("on_end");
            assert("on_end"@.len() != "post_spawn_agent"@.len());
            assert("on_end"@ != "post_spawn_agent"@);
            reveal_strlit("pre_system_prompt");
            assert("pre_system_prompt"@.len() != "post_spawn_agent"@.len());
            assert("pre_system_prompt"@ != "post_spawn_agent"@);
            reveal_strlit("post_system_prompt");
            assert("post_system_prompt"@.len() != "post_spawn_agent"@.len());
            assert("post_system_prompt"@ != "post_spawn_agent"@);
            reveal_strlit("pre_send_message");
            assert("pre_send_message"@[1] != "post_spawn_agent"@[1]);
            assert("pre_send_message"@ != "post_spawn_agent"@);
            reveal_strlit("post_send_message");
            assert("post_send_message"@.len() != "post_spawn_agent"@.len());
            assert("post_send_message"@ != "post_spawn_agent"@);
            reveal_strlit("pre_cache_output");
            assert("pre_cache_output"@[1] != "post_spawn_agent"@[1]);
            assert("pre_cache_output"@ != "post_spawn_agent"@);
            reveal_strlit("post_cache_output");
            assert("post_cache_output"@.len() != "post_spawn_agent"@.len());
            assert("post_cache_output"@ != "post_spawn_agent"@);
            reveal_strlit("pre_api_tools");
            assert("pre_api_tools"@.len() != "post_spawn_agent"@.len());
            assert("pre_api_tools"@ != "post_spawn_agent"@);
            reveal_strlit("pre_api_request");
            assert("pre_api_request"@.len() != "post_spawn_agent"@.len());
            assert("pre_api_request"@ != "post_spawn_agent"@);
            reveal_strlit("pre_agentic_loop");
            assert("pre_agentic_loop"@[1] != "post_spawn_agent"@[1]);
            assert("pre_agentic_loop"@ != "post_spawn_agent"@);
            reveal_strlit("post_tool_batch");
            assert("post_tool_batch"@.len() != "post_spawn_agent"@.len());
            assert("post_tool_batch"@ != "post_spawn_agent"@);
            reveal_strlit("pre_file_read");
            assert("pre_file_read"@.len() != "post_spawn_agent"@.len());
            assert("pre_file_read"@ != "post_spawn_agent"@);
            reveal_strlit("pre_file_write");
            assert("pre_file_write"@.len() != "post_spawn_agent"@.len());
            assert("pre_file_write"@ != "post_spawn_agent"@);
            reveal_strlit("pre_shell_exec");
            assert("pre_shell_exec"@.len() != "post_spawn_agent"@.len());
            assert("pre_shell_exec"@ != "post_spawn_agent"@);
            reveal_strlit("pre_fetch_url");
            assert("pre_fetch_url"@.len() != "post_spawn_agent"@.len());
            assert("pre_fetch_url"@ != "post_spawn_agent"@);
            reveal_strlit("pre_spawn_agent");
            assert("pre_spawn_agent"@.len() != "post_spawn_agent"@.len());
            assert("pre_spawn_agent"@ != "post_spawn_agent"@);
        },
        HookPoint::PostIndexFile => {
            reveal_strlit("post_index_file");
            reveal_strlit("pre_message");
            assert("pre_message"@.len() != "post_index_file"@.len());
            assert("pre_message"@ != "post_index_file"@);
            reveal_strlit("post_message");
            assert("post_message"@.len() != "post_index_file"@.len());
            assert("post_message"@ != "post_index_file"@);
            reveal_strlit("pre_tool");
            assert("pre_tool"@.len() != "post_index_file"@.len());
            assert("pre_tool"@ != "post_index_file"@);
            reveal_strlit("post_tool");
            assert("post_tool"@.len() != "post_index_file"@.len());
            assert("post_tool"@ != "post_index_file"@);
            reveal_strlit("pre_tool_output");
            assert("pre_tool_output"@[1] != "post_index_file"@[1]);
            assert("pre_tool_output"@ != "post_index_file"@);
            reveal_strlit("post_tool_output");
            assert("post_tool_output"@.len() != "post_index_file"@.len());
            assert("post_tool_output"@ != "post_index_file"@);
            reveal_strlit("pre_clear");
            assert("pre_clear"@.len() != "post_index_file"@.len());
            assert("pre_clear"@ != "post_index_file"@);
            reveal_strlit("post_clear");
            assert("post_clear"@.len() != "post_index_file"@.len());
            assert("post_clear"@ != "post_index_file"@);
            reveal_strlit("pre_compact");
            assert("pre_compact"@.len() != "post_index_file"@.len());
            assert("pre_compact"@ != "post_index_file"@);
            reveal_strlit("post_compact");
            assert("post_compact"@.len() != "post_index_file"@.len());
            assert("post_compact"@ != "post_index_file"@);
            reveal_strlit("pre_rolling_compact");
            assert("pre_rolling_compact"@.len() != "post_index_file"@.len());
            assert("pre_rolling_compact"@ != "post_index_file"@);
            reveal_strlit("post_rolling_compact");
            assert("post_rolling_compact"@.len() != "post_index_file"@.len());
            assert("post_rolling_compact"@ != "post_index_file"@);
            reveal_strlit("on_start");
            assert("on_start"@.len() != "post_index_file"@.len());
            assert("on_start"@ != "post_index_file"@);
            reveal_strlit("on_end");
            assert("on_end"@.len() != "post_index_file"@.len());
            assert("on_end"@ != "post_index_file"@);
            reveal_strlit("pre_system_prompt");
            assert("pre_system_prompt"@.len() != "post_index_file"@.len());
            assert("pre_system_prompt"@ != "post_index_file"@);
            reveal_strlit("post_system_prompt");
            assert("post_system_prompt"@.len() != "post_index_file"@.len());
            assert("post_system_prompt"@ != "post_index_file"@);
            reveal_strlit("pre_send_message");
            assert("pre_send_message"@.len() != "post_index_file"@.len());
            assert("pre_send_message"@ != "post_index_file"@);
            reveal_strlit("post_send_message");
            assert("post_send_message"@.len() != "post_index_file"@.len());
            assert("post_send_message"@ != "post_index_file"@);
            reveal_strlit("pre_cache_output");
            assert("pre_cache_output"@.len() != "post_index_file"@.len());
            assert("pre_cache_output"@ != "post_index_file"@);
            reveal_strlit("post_cache_output");
            assert("post_cache_output"@.len() != "post_index_file"@.len());
            assert("post_cache_output"@ != "post_index_file"@);
            reveal_strlit("pre_api_tools");
            assert("pre_api_tools"@.len() != "post_index_file"@.len());
            assert("pre_api_tools"@ != "post_index_file"@);
            reveal_strlit("pre_api_request");
            assert("pre_api_request"@[1] != "post_index_file"@[1]);
            assert("pre_api_request"@ != "post_index_file"@);
            reveal_strlit("pre_agentic_loop");
            assert("pre_agentic_loop"@.len() != "post_index_file"@.len());
            assert("pre_agentic_loop"@ != "post_index_file"@);
            reveal_strlit("post_tool_batch");
            assert("post_tool_batch"@[5] != "post_index_file"@[5]);
            assert("post_tool_batch"@ != "post_index_file"@);
            reveal_strlit("pre_file_read");
            assert("pre_file_read"@.len() != "post_index_file"@.len());
            assert("pre_file_read"@ != "post_index_file"@);
            reveal_strlit("pre_file_write");
            assert("pre_file_write"@.len() != "post_index_file"@.len());
            assert("pre_file_write"@ != "post_index_file"@);
            reveal_strlit("pre_shell_exec");
            assert("pre_shell_exec"@.len() != "post_index_file"@.len());
            assert("pre_shell_exec"@ != "post_index_file"@);
            reveal_strlit("pre_fetch_url");
            assert("pre_fetch_url"@.len() != "post_index_file"@.len());
            assert("pre_fetch_url"@ != "post_index_file"@);
            reveal_strlit("pre_spawn_agent");
            assert("pre_spawn_agent"@[1] != "post_index_file"@[1]);
            assert("pre_spawn_agent"@ != "post_index_file"@);
            reveal_strlit("post_spawn_agent");
            assert("post_spawn_agent"@.len() != "post_index_file"@.len());
            assert("post_spawn_agent"@ != "post_index_file"@);
        },
        HookPoint::PreVfsWrite => {
            reveal_strlit("pre_vfs_write");
            reveal_strlit("pre_message");
            assert("pre_message"@.len() != "pre_vfs_write"@.len());
            assert("pre_message"@ != "pre_vfs_write"@);
            reveal_strlit("post_message");
            assert("post_message"@.len() != "pre_vfs_write"@.len());
            assert("post_message"@ != "pre_vfs_write"@);
            reveal_strlit("pre_tool");
            assert("pre_tool"@.len() != "pre_vfs_write"@.len());
            assert("pre_tool"@ != "pre_vfs_write"@);
            reveal_strlit("post_tool");
            assert("post_tool"@.len() != "pre_vfs_write"@.len());
            assert("post_tool"@ != "pre_vfs_write"@);
            reveal_strlit("pre_tool_output");
            assert("pre_tool_output"@.len() != "pre_vfs_write"@.len());
            assert("pre_tool_output"@ != "pre_vfs_write"@);
            reveal_strlit("post_tool_output");
            assert("post_tool_output"@.len() != "pre_vfs_write"@.len());
            assert("post_tool_output"@ != "pre_vfs_write"@);
            reveal_strlit("pre_clear");
            assert("pre_clear"@.len() != "pre_vfs_write"@.len());
            assert("pre_clear"@ != "pre_vfs_write"@);
            reveal_strlit("post_clear");
            assert("post_clear"@.len() != "pre_vfs_write"@.len());
            assert("post_clear"@ != "pre_vfs_write"@);
            reveal_strlit("pre_compact");
            assert("pre_compact"@.len() != "pre_vfs_write"@.len());
            assert("pre_compact"@ != "pre_vfs_write"@);
            reveal_strlit("post_compact");
            assert("post_compact"@.len() != "pre_vfs_write"@.len());
            assert("post_compact"@ != "pre_vfs_write"@);
            reveal_strlit("pre_rolling_compact");
            assert("pre_rolling_compact"@.len() != "pre_vfs_write"@.len());
            assert("pre_rolling_compact"@ != "pre_vfs_write"@);
            reveal_strlit("post_rolling_compact");
            assert("post_rolling_compact"@.len() != "pre_vfs_write"@.len());
            assert("post_rolling_compact"@ != "pre_vfs_write"@);
            reveal_strlit("on_start");
            assert("on_start"@.len() != "pre_vfs_write"@.len());
            assert("on_start"@ != "pre_vfs_write"@);
            reveal_strlit("on_end");
            assert("on_end"@.len() != "pre_vfs_write"@.len());
            assert("on_end"@ != "pre_vfs_write"@);
            reveal_strlit("pre_system_prompt");
            assert("pre_system_prompt"@.len() != "pre_vfs_write"@.len());
            assert("pre_system_prompt"@ != "pre_vfs_write"@);
            reveal_strlit("post_system_prompt");
            assert("post_system_prompt"@.len() != "pre_vfs_write"@.len());
            assert("post_system_prompt"@ != "pre_vfs_write"@);
            reveal_strlit("pre_send_message");
            assert("pre_send_message"@.len() != "pre_vfs_write"@.len());
            assert("pre_send_message"@ != "pre_vfs_write"@);
            reveal_strlit("post_send_message");
            assert("post_send_message"@.len() != "pre_vfs_write"@.len());
            assert("post_send_message"@ != "pre_vfs_write"@);
            reveal_strlit("pre_cache_output");
            assert("pre_cache_output"@.len() != "pre_vfs_write"@.len());
            assert("pre_cache_output"@ != "pre_vfs_write"@);
            reveal_strlit("post_cache_output");
            assert("post_cache_output"@.len() != "pre_vfs_write"@.len());
            assert("post_cache_output"@ != "pre_vfs_write"@);
            reveal_strlit("pre_api_tools");
            assert("pre_api_tools"@[4] != "pre_vfs_write"@[4]);
            assert("pre_api_tools"@ != "pre_vfs_write"@);
            reveal_strlit("pre_api_request");
            assert("pre_api_request"@.len() != "pre_vfs_write"@.len());
            assert("pre_api_request"@ != "pre_vfs_write"@);
            reveal_strlit("pre_agentic_loop");
            assert("pre_agentic_loop"@.len() != "pre_vfs_write"@.len());
            assert("pre_agentic_loop"@ != "pre_vfs_write"@);
            reveal_strlit("post_tool_batch");
            assert("post_tool_batch"@.len() != "pre_vfs_write"@.len());
            assert("post_tool_batch"@ != "pre_vfs_write"@);
            reveal_strlit("pre_file_read");
            assert("pre_file_read"@[4] != "pre_vfs_write"@[4]);
            assert("pre_file_read"@ != "pre_vfs_write"@);
            reveal_strlit("pre_file_write");
            assert("pre_file_write"@.len() != "pre_vfs_write"@.len());
            assert("pre_file_write"@ != "pre_vfs_write"@);
            reveal_strlit("pre_shell_exec");
            assert("pre_shell_exec"@.len() != "pre_vfs_write"@.len());
            assert("pre_shell_exec"@ != "pre_vfs_write"@);
            reveal_strlit("pre_fetch_url");
            assert("pre_fetch_url"@[4] != "pre_vfs_write"@[4]);
            assert("pre_fetch_url"@ != "pre_vfs_write"@);
            reveal_strlit("pre_spawn_agent");
            assert("pre_spawn_agent"@.len() != "pre_vfs_write"@.len());
            assert("pre_spawn_agent"@ != "pre_vfs_write"@);
            reveal_strlit("post_spawn_agent");
            assert("post_spawn_agent"@.len() != "pre_vfs_write"@.len());
            assert("post_spawn_agent"@ != "pre_vfs_write"@);
            reveal_strlit("post_index_file");
            assert("post_index_file"@.len() != "pre_vfs_write"@.len());
            assert("post_index_file"@ != "pre_vfs_write"@);
        },
        HookPoint::PostVfsWrite => {
            reveal_strlit("post_vfs_write");
            reveal_strlit("pre_message");
            assert("pre_message"@.len() != "post_vfs_write"@.len());
            assert("pre_message"@ != "post_vfs_write"@);
            reveal_strlit("post_message");
            assert("post_message"@.len() != "post_vfs_write"@.len());
            assert("post_message"@ != "post_vfs_write"@);
            reveal_strlit("pre_tool");
            assert("pre_tool"@.len() != "post_vfs_write"@.len());
            assert("pre_tool"@ != "post_vfs_write"@);
            reveal_strlit("post_tool");
            assert("post_tool"@.len() != "post_vfs_write"@.len());
            assert("post_tool"@ != "post_vfs_write"@);
            reveal_strlit("pre_tool_output");
            assert("pre_tool_output"@.len() != "post_vfs_write"@.len());
            assert("pre_tool_output"@ != "post_vfs_write"@);
            reveal_strlit("post_tool_output");
            assert("post_tool_output"@.len() != "post_vfs_write"@.len());
            assert("post_tool_output"@ != "post_vfs_write"@);
            reveal_strlit("pre_clear");
            assert("pre_clear"@.len() != "post_vfs_write"@.len());
            assert("pre_clear"@ != "post_vfs_write"@);
            reveal_strlit("post_clear");
            assert("post_clear"@.len() != "post_vfs_write"@.len());
            assert("post_clear"@ != "post_vfs_write"@);
            reveal_strlit("pre_compact");
            assert("pre_compact"@.len() != "post_vfs_write"@.len());
            assert("pre_compact"@ != "post_vfs_write"@);
            reveal_strlit("post_compact");
            assert("post_compact"@.len() != "post_vfs_write"@.len());
            assert("post_compact"@ != "post_vfs_write"@);
            reveal_strlit("pre_rolling_compact");
            assert("pre_rolling_compact"@.len() != "post_vfs_write"@.len());
            assert("pre_rolling_compact"@ != "post_vfs_write"@);
            reveal_strlit("post_rolling_compact");
            assert("post_rolling_compact"@.len() != "post_vfs_write"@.len());
            assert("post_rolling_compact"@ != "post_vfs_write"@);
            reveal_strlit("on_start");
            assert("on_start"@.len() != "post_vfs_write"@.len());
            assert("on_start"@ != "post_vfs_write"@);
            reveal_strlit("on_end");
            assert("on_end"@.len() != "post_vfs_write"@.len());
            assert("on_end"@ != "post_vfs_write"@);
            reveal_strlit("pre_system_prompt");
            assert("pre_system_prompt"@.len() != "post_vfs_write"@.len());
            assert("pre_system_prompt"@ != "post_vfs_write"@);
            reveal_strlit("post_system_prompt");
            assert("post_system_prompt"@.len() != "post_vfs_write"@.len());
            assert("post_system_prompt"@ != "post_vfs_write"@);
            reveal_strlit("pre_send_message");
            assert("pre_send_message"@.len() != "post_vfs_write"@.len());
            assert("pre_send_message"@ != "post_vfs_write"@);
            reveal_strlit("post_send_message");
            assert("post_send_message"@.len() != "post_vfs_write"@.len());
            assert("post_send_message"@ != "post_vfs_write"@);
            reveal_strlit("pre_cache_output");
            assert("pre_cache_output"@.len() != "post_vfs_write"@.len());
            assert("pre_cache_output"@ != "post_vfs_write"@);
            reveal_strlit("post_cache_output");
            assert("post_cache_output"@.len() != "post_vfs_write"@.len());
            assert("post_cache_output"@ != "post_vfs_write"@);
            reveal_strlit("pre_api_tools");
            assert("pre_api_tools"@.len() != "post_vfs_write"@.len());
            assert("pre_api_tools"@ != "post_vfs_write"@);
            reveal_strlit("pre_api_request");
            assert("pre_api_request"@.len() != "post_vfs_write"@.len());
            assert("pre_api_request"@ != "post_vfs_write"@);
            reveal_strlit("pre_agentic_loop");
            assert("pre_agentic_loop"@.len() != "post_vfs_write"@.len());
            assert("pre_agentic_loop"@ != "post_vfs_write"@);
            reveal_strlit("post_tool_batch");
            assert("post_tool_batch"@.len() != "post_vfs_write"@.len());
            assert("post_tool_batch"@ != "post_vfs_write"@);
            reveal_strlit("pre_file_read");
            assert("pre_file_read"@.len() != "post_vfs_write"@.len());
            assert("pre_file_read"@ != "post_vfs_write"@);
            reveal_strlit("pre_file_write");
            assert("pre_file_write"@[1] != "post_vfs_write"@[1]);
            assert("pre_file_write"@ != "post_vfs_write"@);
            reveal_strlit("pre_shell_exec");
            assert("pre_shell_exec"@[1] != "post_vfs_write"@[1]);
            assert("pre_shell_exec"@ != "post_vfs_write"@);
            reveal_strlit("pre_fetch_url");
            assert("pre_fetch_url"@.len() != "post_vfs_write"@.len());
            assert("pre_fetch_url"@ != "post_vfs_write"@);
            reveal_strlit("pre_spawn_agent");
            assert("pre_spawn_agent"@.len() != "post_vfs_write"@.len());
            assert("pre_spawn_agent"@ != "post_vfs_write"@);
            reveal_strlit("post_spawn_agent");
            assert("post_spawn_agent"@.len() != "post_vfs_write"@.len());
            assert("post_spawn_agent"@ != "post_vfs_write"@);
            reveal_strlit("post_index_file");
            assert("post_index_file"@.len() != "post_vfs_write"@.len());
            assert("post_index_file"@ != "post_vfs_write"@);
            reveal_strlit("pre_vfs_write");
            assert("pre_vfs_write"@.len() != "post_vfs_write"@.len());
            assert("pre_vfs_write"@ != "post_vfs_write"@);
        },
    }
}

/// Distinct hook points have distinct names.
pub proof fn law_hook_names_distinct(a: HookPoint, b: HookPoint)
    ensures
        a != b ==> spec_hook_name(a) != spec_hook_name(b),
{
    law_hook_name_round_trip(a, Seq::empty());
    law_hook_name_round_trip(b, Seq::empty());
}

/// Every hook point appears exactly once among all hook points.
pub proof fn law_all_hook_points_complete(h: HookPoint)
    ensures
        spec_all_hook_points().contains(h),
        spec_all_hook_points().no_duplicates(),
{
    let all = spec_all_hook_points();
    match h {
        HookPoint::PreMessage => assert(all[0] == h),
        HookPoint::PostMessage => assert(all[1] == h),
        HookPoint::PreTool => assert(all[2] == h),
        HookPoint::PostTool => assert(all[3] == h),
        HookPoint::PreToolOutput => assert(all[4] == h),
        HookPoint::PostToolOutput => assert(all[5] == h),
        HookPoint::PreClear => assert(all[6] == h),
        HookPoint::PostClear => assert(all[7] == h),
        HookPoint::PreCompact => assert(all[8] == h),
        HookPoint::PostCompact => assert(all[9] == h),
        HookPoint::PreRollingCompact => assert(all[10] == h),
        HookPoint::PostRollingCompact => assert(all[11] == h),
        HookPoint::OnStart => assert(all[12] == h),
        HookPoint::OnEnd => assert(all[13] == h),
        HookPoint::PreSystemPrompt => assert(all[14] == h),
        HookPoint::PostSystemPrompt => assert(all[15] == h),
        HookPoint::PreSendMessage => assert(all[16] == h),
        HookPoint::PostSendMessage => assert(all[17] == h),
        HookPoint::PreCacheOutput => assert(all[18] == h),
        HookPoint::PostCacheOutput => assert(all[19] == h),
        HookPoint::PreApiTools => assert(all[20] == h),
        HookPoint::PreApiRequest => assert(all[21] == h),
        HookPoint::PreAgenticLoop => assert(all[22] == h),
        HookPoint::PostToolBatch => assert(all[23] == h),
        HookPoint::PreFileRead => assert(all[24] == h),
        HookPoint::PreFileWrite => assert(all[25] == h),
        HookPoint::PreShellExec => assert(all[26] == h),
        HookPoint::PreFetchUrl => assert(all[27] == h),
        HookPoint::PreSpawnAgent => assert(all[28] == h),
        HookPoint::PostSpawnAgent => assert(all[29] == h),
        HookPoint::PostIndexFile => assert(all[30] == h),
        HookPoint::PreVfsWrite => assert(all[31] == h),
        HookPoint::PostVfsWrite => assert(all[32] == h),
    }
}

// === Hook metadata ===

/// One field of a hook's payload or return value.
pub struct FieldMeta {
    pub name: &'static str,
    /// Schematic type: "string", "number", "bool", "object", "array".
    pub typ: &'static str,
    pub description: &'static str,
}

/// The documented contract of one hook point.
pub struct HookMeta {
    pub point: HookPoint,
    /// Grouping category, one of `category_keys()`.
    pub category: &'static str,
    /// When the hook fires.
    pub description: &'static str,
    /// Whether the hook callback can return values that modify behaviour.
    pub can_modify: bool,
    pub payload_fields: Vec<FieldMeta>,
    /// Empty for observe-only hooks.
    pub return_fields: Vec<FieldMeta>,
    /// Extra context or caveats; empty if none.
    pub notes: &'static str,
}

/// The mathematical form of a `FieldMeta`.
#[verifier::ext_equal]
pub struct FieldView {
    pub name: Seq<char>,
    pub typ: Seq<char>,
    pub description: Seq<char>,
}

/// The mathematical form of a `HookMeta`.
#[verifier::ext_equal]
pub struct HookMetaView {
    pub point: HookPoint,
    pub category: Seq<char>,
    pub description: Seq<char>,
    pub can_modify: bool,
    pub payload: Seq<FieldView>,
    pub returns: Seq<FieldView>,
    pub notes: Seq<char>,
}

pub open spec fn field_view(f: FieldMeta) -> FieldView {
    FieldView { name: f.name@, typ: f.typ@, description: f.description@ }
}

pub open spec fn fields_view(v: Seq<FieldMeta>) -> Seq<FieldView> {
    v.map_values(|f: FieldMeta| field_view(f))
}

pub open spec fn meta_view(m: HookMeta) -> HookMetaView {
    HookMetaView {
        point: m.point,
        category: m.category@,
        description: m.description@,
        can_modify: m.can_modify,
        payload: fields_view(m.payload_fields@),
        returns: fields_view(m.return_fields@),
        notes: m.notes@,
    }
}

pub open spec fn metas_view(v: Seq<HookMeta>) -> Seq<HookMetaView> {
    v.map_values(|m: HookMeta| meta_view(m))
}

/// The documentation categories in display order, with their titles.
pub open spec fn category_order() -> Seq<(Seq<char>, Seq<char>)> {
    seq![
        ("session"@, "Session Lifecycle"@),
        ("message"@, "Message Lifecycle"@),
        ("system_prompt"@, "System Prompt Lifecycle"@),
        ("tool"@, "Tool Lifecycle"@),
        ("api"@, "API Request Lifecycle"@),
        ("agentic"@, "Agentic Loop Lifecycle"@),
        ("file_permission"@, "File Permission"@),
        ("url_security"@, "URL Security"@),
        ("agent"@, "Sub-Agent Lifecycle"@),
        ("cache"@, "Tool Output Caching"@),
        ("message_delivery"@, "Message Delivery"@),
        ("index"@, "Index Lifecycle"@),
        ("vfs_write"@, "VFS Write Lifecycle"@),
        ("context"@, "Context Lifecycle"@),
    ]
}

/// The documentation category keys, in display order.
pub open spec fn category_keys() -> Seq<Seq<char>> {
    category_order().map_values(|p: (Seq<char>, Seq<char>)| p.0)
}

fn category_order_exec() -> (r: Vec<(&'static str, &'static str)>)
    ensures
        r@.map_values(|p: (&'static str, &'static str)| (p.0@, p.1@)) == category_order(),
{
    let r = vec![
        ("session", "Session Lifecycle"),
        ("message", "Message Lifecycle"),
        ("system_prompt", "System Prompt Lifecycle"),
        ("tool", "Tool Lifecycle"),
        ("api", "API Request Lifecycle"),
        ("agentic", "Agentic Loop Lifecycle"),
        ("file_permission", "File Permission"),
        ("url_security", "URL Security"),
        ("agent", "Sub-Agent Lifecycle"),
        ("cache", "Tool Output Caching"),
        ("message_delivery", "Message Delivery"),
        ("index", "Index Lifecycle"),
        ("vfs_write", "VFS Write Lifecycle"),
        ("context", "Context Lifecycle"),
    ];
    assert(r@.map_values(|p: (&'static str, &'static str)| (p.0@, p.1@)) =~= category_order());
    r
}

// === Markdown reference ===

pub open spec fn yes_no(b: bool) -> Seq<char> {
    if b {
        "Yes"@
    } else {
        "No"@
    }
}

/// One table row: hook, when it fires, whether it can modify.
pub open spec fn table_row(m: HookMetaView) -> Seq<char> {
    "| `"@ + spec_hook_name(m.point) + "` | "@ + m.description + " | "@ + yes_no(m.can_modify)
        + " |\n"@
}

/// The table rows of the hooks in category `cat`, in metadata order.
pub open spec fn category_rows(metas: Seq<HookMetaView>, cat: Seq<char>) -> Seq<char>
    decreases metas.len(),
{
    if metas.len() == 0 {
        Seq::empty()
    } else {
        category_rows(metas.drop_last(), cat) + if metas.last().category == cat {
            table_row(metas.last())
        } else {
            Seq::empty()
        }
    }
}

/// Some hook is in category `cat`.
pub open spec fn has_category(metas: Seq<HookMetaView>, cat: Seq<char>) -> bool {
    exists|i: int| 0 <= i < metas.len() && #[trigger] metas[i].category == cat
}

/// The table of one category; empty when no hook is in it.
pub open spec fn category_section(metas: Seq<HookMetaView>, cat: Seq<char>, title: Seq<char>) -> Seq<
    char,
> {
    if has_category(metas, cat) {
        "\n"@ + "### "@ + title + "\n\n"@ + "| Hook | When | Can Modify |\n"@
            + "|------|------|------------|\n"@ + category_rows(metas, cat)
    } else {
        Seq::empty()
    }
}

/// The tables of all categories in `order`.
pub open spec fn category_sections(
    metas: Seq<HookMetaView>,
    order: Seq<(Seq<char>, Seq<char>)>,
) -> Seq<char>
    decreases order.len(),
{
    if order.len() == 0 {
        Seq::empty()
    } else {
        category_sections(metas, order.drop_last()) + category_section(
            metas,
            order.last().0,
            order.last().1,
        )
    }
}

/// The placeholder value shown for a field of type `typ`.
pub open spec fn example_for(typ: Seq<char>) -> Seq<char> {
    if typ == "string"@ {
        "\"...\""@
    } else if typ == "number"@ {
        "0"@
    } else if typ == "bool"@ {
        "false"@
    } else if typ == "array"@ {
        "[]"@
    } else if typ == "object"@ {
        "{}"@
    } else {
        "null"@
    }
}

/// One line of a JSON example block.
pub open spec fn json_line(f: FieldView, is_last: bool) -> Seq<char> {
    "  \""@ + f.name + "\": "@ + example_for(f.typ) + (if is_last {
        Seq::<char>::empty()
    } else {
        ","@
    }) + "  // "@ + f.description
}

/// The lines of a JSON example block; every line but the last ends its value
/// with a comma.
pub open spec fn json_lines(fields: Seq<FieldView>) -> Seq<Seq<char>> {
    Seq::new(fields.len(), |i: int| json_line(fields[i], i + 1 == fields.len()))
}

/// A fenced JSON example of the fields.
pub open spec fn json_block(fields: Seq<FieldView>) -> Seq<char> {
    "```json\n{\n"@ + join_with(json_lines(fields), "\n"@) + "\n}\n```\n"@
}

/// The detail section of one hook.
pub open spec fn detail_section(m: HookMetaView) -> Seq<char> {
    "\n"@ + "### "@ + spec_hook_name(m.point) + "\n\n"@ + (if m.payload.len() == 0 {
        "Payload: (empty)\n"@
    } else {
        json_block(m.payload)
    }) + (if m.returns.len() > 0 {
        "\n**Can return:**\n"@ + json_block(m.returns)
    } else {
        Seq::empty()
    }) + (if m.notes.len() > 0 {
        "\n> **Note:** "@ + m.notes + "\n"@
    } else {
        Seq::empty()
    })
}

/// The detail sections of all hooks, in metadata order.
pub open spec fn detail_sections(metas: Seq<HookMetaView>) -> Seq<char>
    decreases metas.len(),
{
    if metas.len() == 0 {
        Seq::empty()
    } else {
        detail_sections(metas.drop_last()) + detail_section(metas.last())
    }
}

/// The hook reference: category tables followed by per-hook details.
pub open spec fn hooks_markdown(metas: Seq<HookMetaView>) -> Seq<char> {
    "## Hook Points\n"@ + category_sections(metas, category_order()) + "\n## Hook Data by Type\n"@
        + detail_sections(metas)
}

/// Whether `s` and `t` hold the same characters.
fn same(s: &str, t: &str) -> (r: bool)
    ensures
        r == (s@ == t@),
{
    str_eq(s, t)
}

fn example_str(typ: &str) -> (r: &'static str)
    ensures
        r@ == example_for(typ@),
{
    if same(typ, "string") {
        "\"...\""
    } else if same(typ, "number") {
        "0"
    } else if same(typ, "bool") {
        "false"
    } else if same(typ, "array") {
        "[]"
    } else if same(typ, "object") {
        "{}"
    } else {
        "null"
    }
}

/// Appends the fenced JSON example of `fields` to `out`.
fn push_json_block(out: &mut String, fields: &Vec<FieldMeta>)
    ensures
        final(out)@ == old(out)@ + json_block(fields_view(fields@)),
{
    let ghost fv = fields_view(fields@);
    let n = fields.len();
    let mut lines: Vec<Vec<char>> = Vec::new();
    let mut i: usize = 0;
    while i < n
        invariant
            n == fields@.len(),
            fv == fields_view(fields@),
            i <= n,
            views_of(lines@) == json_lines(fv).take(i as int),
        decreases n - i,
    {
        let f = &fields[i];
        let mut line = String::new();
        push_str(&mut line, "  \"");
        push_str(&mut line, f.name);
        push_str(&mut line, "\": ");
        push_str(&mut line, example_str(f.typ));
        if i + 1 != n {
            push_str(&mut line, ",");
        }
        push_str(&mut line, "  // ");
        push_str(&mut line, f.description);
        let lv = to_chars(line.as_str());
        let ghost old_lines = lines@;
        lines.push(lv);
        proof {
            assert(fv[i as int] == field_view(*f));
            assert(lv@ =~= json_line(fv[i as int], i + 1 == n));
            lemma_views_push(old_lines, lv);
            assert(json_lines(fv).take(i + 1) =~= json_lines(fv).take(i as int).push(
                json_line(fv[i as int], i + 1 == n),
            ));
        }
        i = i + 1;
    }
    assert(json_lines(fv).take(n as int) =~= json_lines(fv));
    let nl = vec!['\n'];
    assert(nl@ =~= "\n"@) by {
        reveal_strlit("\n");
    }
    let joined = join_chars(&lines, nl.as_slice());
    push_str(out, "```json\n{\n");
    push_chars(out, joined.as_slice());
    push_str(out, "\n}\n```\n");
}

/// Appends the table rows of the hooks in category `cat`.
fn push_category_rows(out: &mut String, metas: &Vec<HookMeta>, cat: &str) -> (found: bool)
    ensures
        final(out)@ == old(out)@ + category_rows(metas_view(metas@), cat@),
        found == has_category(metas_view(metas@), cat@),
{
    let ghost mv = metas_view(metas@);
    let n = metas.len();
    let mut found = false;
    let mut i: usize = 0;
    while i < n
        invariant
            n == metas@.len(),
            mv == metas_view(metas@),
            i <= n,
            out@ == old(out)@ + category_rows(mv.take(i as int), cat@),
            found == has_category(mv.take(i as int), cat@),
        decreases n - i,
    {
        let m = &metas[i];
        proof {
            assert(mv.take(i + 1).drop_last() =~= mv.take(i as int));
            assert(mv.take(i + 1).last() == meta_view(*m));
        }
        if same(m.category, cat) {
            push_str(out, "| `");
            push_str(out, m.point.as_str());
            push_str(out, "` | ");
            push_str(out, m.description);
            push_str(out, " | ");
            push_str(out, if m.can_modify { "Yes" } else { "No" });
            push_str(out, " |\n");
            found = true;
            proof {
                assert(mv.take(i + 1)[i as int].category == cat@);
            }
        } else {
            proof {
                if has_category(mv.take(i + 1), cat@) {
                    let k = choose|k: int| 0 <= k < i + 1 && #[trigger] mv.take(i + 1)[k].category == cat@;
                    if k < i {
                        assert(mv.take(i as int)[k].category == cat@);
                    }
                }
                if has_category(mv.take(i as int), cat@) {
                    let k = choose|k: int| 0 <= k < i && #[trigger] mv.take(i as int)[k].category == cat@;
                    assert(mv.take(i + 1)[k].category == cat@);
                }
            }
        }
        proof {
            if found && has_category(mv.take(i as int), cat@) {
                let k = choose|k: int| 0 <= k < i && #[trigger] mv.take(i as int)[k].category == cat@;
                assert(mv.take(i + 1)[k].category == cat@);
            }
        }
        i = i + 1;
    }
    assert(mv.take(n as int) =~= mv);
    found
}

/// Appends the detail section of one hook.
fn push_detail_section(out: &mut String, m: &HookMeta)
    ensures
        final(out)@ == old(out)@ + detail_section(meta_view(*m)),
{
        let ghost before = old(out)@;
    let ghost mvi = meta_view(*m);
    push_str(out, "\n");
    push_str(out, "### ");
    push_str(out, m.point.as_str());
    push_str(out, "\n\n");
    let ghost s1 = out@;
    assert(s1 =~= before + ("\n"@ + "### "@ + spec_hook_name(mvi.point) + "\n\n"@));
    if m.payload_fields.len() == 0 {
        push_str(out, "Payload: (empty)\n");
    } else {
        push_json_block(out, &m.payload_fields);
    }
    let ghost s2 = out@;
    let ghost p2 = if mvi.payload.len() == 0 {
        "Payload: (empty)\n"@
    } else {
        json_block(mvi.payload)
    };
    assert(s2 =~= s1 + p2);
    if m.return_fields.len() > 0 {
        push_str(out, "\n**Can return:**\n");
        push_json_block(out, &m.return_fields);
    }
    let ghost s3 = out@;
    let ghost p3 = if mvi.returns.len() > 0 {
        "\n**Can return:**\n"@ + json_block(mvi.returns)
    } else {
        Seq::<char>::empty()
    };
    assert(s3 =~= s2 + p3);
    let notes = to_chars(m.notes);
    if notes.len() > 0 {
        push_str(out, "\n> **Note:** ");
        push_str(out, m.notes);
        push_str(out, "\n");
    }
    let ghost p4 = if mvi.notes.len() > 0 {
        "\n> **Note:** "@ + mvi.notes + "\n"@
    } else {
        Seq::<char>::empty()
    };
    proof {
        assert(out@ =~= s3 + p4);
        assert(detail_section(mvi) =~= ("\n"@ + "### "@ + spec_hook_name(mvi.point) + "\n\n"@) + p2 + p3 + p4);
        assert(out@ =~= before + detail_section(mvi));
    }
}

/// Renders the hook reference from the given metadata.
pub fn render_hooks_markdown(metas: &Vec<HookMeta>) -> (r: String)
    ensures
        r@ == hooks_markdown(metas_view(metas@)),
{
    let ghost mv = metas_view(metas@);
    let order = category_order_exec();
    let ghost ov = category_order();
    let mut out = String::new();
    push_str(&mut out, "## Hook Points\n");
    let ghost base = out@;
    let no = order.len();
    let mut c: usize = 0;
    while c < no
        invariant
            no == order@.len(),
            ov == category_order(),
            order@.map_values(|p: (&'static str, &'static str)| (p.0@, p.1@)) == ov,
            mv == metas_view(metas@),
            c <= no,
            out@ == base + category_sections(mv, ov.take(c as int)),
        decreases no - c,
    {
        let (key, title) = order[c];
        proof {
            assert(ov[c as int] == (key@, title@));
            assert(ov.take(c + 1).drop_last() =~= ov.take(c as int));
        }
        let mut rows = String::new();
        let found = push_category_rows(&mut rows, metas, key);
        if found {
            push_str(&mut out, "\n");
            push_str(&mut out, "### ");
            push_str(&mut out, title);
            push_str(&mut out, "\n\n");
            push_str(&mut out, "| Hook | When | Can Modify |\n");
            push_str(&mut out, "|------|------|------------|\n");
            push_str(&mut out, rows.as_str());
        }
        c = c + 1;
    }
    assert(ov.take(no as int) =~= ov);
    push_str(&mut out, "\n## Hook Data by Type\n");
    let ghost base2 = out@;
    let n = metas.len();
    let mut i: usize = 0;
    while i < n
        invariant
            n == metas@.len(),
            mv == metas_view(metas@),
            i <= n,
            out@ == base2 + detail_sections(mv.take(i as int)),
        decreases n - i,
    {
        let m = &metas[i];
        proof {
            assert(mv.take(i + 1).drop_last() =~= mv.take(i as int));
            assert(mv.take(i + 1).last() == meta_view(*m));
        }
        push_detail_section(&mut out, m);
        i = i + 1;
    }
    assert(mv.take(n as int) =~= mv);
    out
}

/// Generates the hook reference documentation: one table per category
/// (hook, when it fires, whether it can modify), then a section per hook
/// with JSON examples of its payload and of what it can return.
pub fn generate_hooks_markdown() -> (r: String)
    ensures
        r@ == hooks_markdown(hook_metadata_table()),
{
    let metas = hook_metadata();
    render_hooks_markdown(&metas)
}

/// The documented contract of every hook point, in documentation order.
pub open spec fn hook_metadata_table() -> Seq<HookMetaView> {
    seq![
        HookMetaView {
            point: HookPoint::OnStart,
            category: "session"@,
            description: "fires when chibi starts, before any processing"@,
            can_modify: false,
            payload: seq![
                FieldView { name: "chibi_home"@, typ: "string"@, description: "chibi home directory path"@ },
                FieldView { name: "project_root"@, typ: "string"@, description: "project root directory path"@ },
                FieldView { name: "tool_count"@, typ: "number"@, description: "number of loaded tools"@ },
            ],
            returns: Seq::<FieldView>::empty(),
            notes: ""@,
        },
        HookMetaView {
            point: HookPoint::OnEnd,
            category: "session"@,
            description: "fires when chibi exits, after all processing"@,
            can_modify: false,
            payload: Seq::<FieldView>::empty(),
            returns: Seq::<FieldView>::empty(),
            notes: "receives empty payload"@,
        },
        HookMetaView {
            point: HookPoint::PreMessage,
            category: "message"@,
            description: "fires before sending a prompt to the LLM"@,
            can_modify: true,
            payload: seq![
                FieldView { name: "prompt"@, typ: "string"@, description: "the user's prompt"@ },
                FieldView { name: "context_name"@, typ: "string"@, description: "active context name"@ },
                FieldView { name: "summary"@, typ: "string"@, description: "conversation summary"@ },
            ],
            returns: seq![
                FieldView { name: "prompt"@, typ: "string"@, description: "modified prompt"@ },
            ],
            notes: ""@,
        },
        HookMetaView {
            point: HookPoint::PostMessage,
            category: "message"@,
            description: "fires after receiving the LLM response"@,
            can_modify: false,
            payload: seq![
                FieldView { name: "prompt"@, typ: "string"@, description: "original prompt"@ },
                FieldView { name: "response"@, typ: "string"@, description: "LLM's response"@ },
                FieldView { name: "context_name"@, typ: "string"@, description: "active context name"@ },
            ],
            returns: Seq::<FieldView>::empty(),
            notes: ""@,
        },
        HookMetaView {
            point: HookPoint::PreSystemPrompt,
            category: "system_prompt"@,
            description: "fires before building the system prompt; can inject content"@,
            can_modify: true,
            payload: seq![
                FieldView { name: "context_name"@, typ: "string"@, description: "active context name"@ },
                FieldView { name: "summary"@, typ: "string"@, description: "conversation summary"@ },
                FieldView { name: "flock_goals"@, typ: "array"@, description: "array of {flock, goals} objects"@ },
            ],
            returns: seq![
                FieldView { name: "inject"@, typ: "string"@, description: "content to add to system prompt"@ },
            ],
            notes: "flock_goals replaced the old goals field; todos field removed (use VFS task files)"@,
        },
        HookMetaView {
            point: HookPoint::PostSystemPrompt,
            category: "system_prompt"@,
            description: "fires after building the system prompt; can inject content"@,
            can_modify: true,
            payload: seq![
                FieldView { name: "context_name"@, typ: "string"@, description: "active context name"@ },
                FieldView { name: "summary"@, typ: "string"@, description: "conversation summary"@ },
                FieldView { name: "flock_goals"@, typ: "array"@, description: "array of {flock, goals} objects"@ },
            ],
            returns: seq![
                FieldView { name: "inject"@, typ: "string"@, description: "content to add to system prompt"@ },
            ],
            notes: "same payload/return as pre_system_prompt"@,
        },
        HookMetaView {
            point: HookPoint::PreTool,
            category: "tool"@,
            description: "fires before executing a tool; can modify arguments or block"@,
            can_modify: true,
            payload: seq![
                FieldView { name: "tool_name"@, typ: "string"@, description: "name of the tool being called"@ },
                FieldView { name: "arguments"@, typ: "object"@, description: "tool arguments object"@ },
            ],
            returns: seq![
                FieldView { name: "arguments"@, typ: "object"@, description: "modified arguments"@ },
                FieldView { name: "block"@, typ: "bool"@, description: "set true to block execution"@ },
                FieldView { name: "message"@, typ: "string"@, description: "message shown when blocked"@ },
            ],
            notes: ""@,
        },
        HookMetaView {
            point: HookPoint::PostTool,
            category: "tool"@,
            description: "fires after executing a tool; observe only"@,
            can_modify: false,
            payload: seq![
                FieldView { name: "tool_name"@, typ: "string"@, description: "name of the tool that ran"@ },
                FieldView { name: "arguments"@, typ: "object"@, description: "tool arguments object"@ },
                FieldView { name: "result"@, typ: "string"@, description: "tool output"@ },
                FieldView { name: "cached"@, typ: "bool"@, description: "true if output was cached due to size"@ },
            ],
            returns: Seq::<FieldView>::empty(),
            notes: ""@,
        },
        HookMetaView {
            point: HookPoint::PreToolOutput,
            category: "tool"@,
            description: "fires after tool returns, before caching decisions; can modify or block output"@,
            can_modify: true,
            payload: seq![
                FieldView { name: "tool_name"@, typ: "string"@, description: "name of the tool that ran"@ },
                FieldView { name: "arguments"@, typ: "object"@, description: "tool arguments object"@ },
                FieldView { name: "output"@, typ: "string"@, description: "raw tool output"@ },
            ],
            returns: seq![
                FieldView { name: "output"@, typ: "string"@, description: "modified output"@ },
                FieldView { name: "block"@, typ: "bool"@, description: "set true to replace output entirely"@ },
                FieldView { name: "message"@, typ: "string"@, description: "replacement message shown to LLM when blocked"@ },
            ],
            notes: ""@,
        },
        HookMetaView {
            point: HookPoint::PostToolOutput,
            category: "tool"@,
            description: "fires after tool output processing and caching; observe only"@,
            can_modify: false,
            payload: seq![
                FieldView { name: "tool_name"@, typ: "string"@, description: "name of the tool that ran"@ },
                FieldView { name: "arguments"@, typ: "object"@, description: "tool arguments object"@ },
                FieldView { name: "output"@, typ: "string"@, description: "original output after pre_tool_output modifications"@ },
                FieldView { name: "final_output"@, typ: "string"@, description: "what the LLM will see (may be truncated if cached)"@ },
                FieldView { name: "cached"@, typ: "bool"@, description: "true if output was cached"@ },
            ],
            returns: Seq::<FieldView>::empty(),
            notes: ""@,
        },
        HookMetaView {
            point: HookPoint::PreApiTools,
            category: "api"@,
            description: "fires before tools are sent to the API; can filter tools"@,
            can_modify: true,
            payload: seq![
                FieldView { name: "context_name"@, typ: "string"@, description: "active context name"@ },
                FieldView { name: "tools"@, typ: "array"@, description: "array of {name, type} tool objects"@ },
                FieldView { name: "fuel_remaining"@, typ: "number"@, description: "remaining tool-call budget"@ },
                FieldView { name: "fuel_total"@, typ: "number"@, description: "total fuel budget"@ },
            ],
            returns: seq![
                FieldView { name: "exclude"@, typ: "array"@, description: "tool names to remove (union across hooks)"@ },
                FieldView { name: "include"@, typ: "array"@, description: "allowlist: only these tools remain (intersection across hooks)"@ },
            ],
            notes: "include/exclude are mutually exclusive per response; excludes union, includes intersect across multiple hooks"@,
        },
        HookMetaView {
            point: HookPoint::PreApiRequest,
            category: "api"@,
            description: "fires after tool filtering, before HTTP request; can modify request body"@,
            can_modify: true,
            payload: seq![
                FieldView { name: "context_name"@, typ: "string"@, description: "active context name"@ },
                FieldView { name: "request_body"@, typ: "object"@, description: "full request body (model, messages, tools, etc.)"@ },
                FieldView { name: "fuel_remaining"@, typ: "number"@, description: "remaining tool-call budget"@ },
                FieldView { name: "fuel_total"@, typ: "number"@, description: "total fuel budget"@ },
            ],
            returns: seq![
                FieldView { name: "request_body"@, typ: "object"@, description: "fields to merge into request body (partial override)"@ },
            ],
            notes: "returned fields are merged, not replaced; cache_prompt and exclude_from_output are chibi-internal field names"@,
        },
        HookMetaView {
            point: HookPoint::PreAgenticLoop,
            category: "agentic"@,
            description: "fires before each agentic loop iteration; can override fallback and fuel"@,
            can_modify: true,
            payload: seq![
                FieldView { name: "context_name"@, typ: "string"@, description: "active context name"@ },
                FieldView { name: "fuel_remaining"@, typ: "number"@, description: "remaining tool-call budget"@ },
                FieldView { name: "fuel_total"@, typ: "number"@, description: "total fuel budget"@ },
                FieldView { name: "current_fallback"@, typ: "string"@, description: "current fallback target (call_agent or call_user)"@ },
                FieldView { name: "message"@, typ: "string"@, description: "user message for this loop"@ },
            ],
            returns: seq![
                FieldView { name: "fallback"@, typ: "string"@, description: "override fallback: call_agent or call_user"@ },
                FieldView { name: "fuel"@, typ: "number"@, description: "set fuel_remaining to this value"@ },
            ],
            notes: ""@,
        },
        HookMetaView {
            point: HookPoint::PostToolBatch,
            category: "agentic"@,
            description: "fires after processing a batch of tool calls; can override fallback and adjust fuel"@,
            can_modify: true,
            payload: seq![
                FieldView { name: "context_name"@, typ: "string"@, description: "active context name"@ },
                FieldView { name: "fuel_remaining"@, typ: "number"@, description: "remaining tool-call budget"@ },
                FieldView { name: "fuel_total"@, typ: "number"@, description: "total fuel budget"@ },
                FieldView { name: "current_fallback"@, typ: "string"@, description: "current fallback target"@ },
                FieldView { name: "tool_calls"@, typ: "array"@, description: "array of {name, arguments} for tools that ran"@ },
            ],
            returns: seq![
                FieldView { name: "fallback"@, typ: "string"@, description: "override fallback: call_agent or call_user"@ },
                FieldView { name: "fuel_delta"@, typ: "number"@, description: "adjust fuel by this amount (positive adds, negative consumes, saturating)"@ },
            ],
            notes: "post_tool_batch output > pre_agentic_loop output > config fallback; last hook to set fallback wins"@,
        },
        HookMetaView {
            point: HookPoint::PreFileRead,
            category: "file_permission"@,
            description: "fires before reading a file outside allowed paths; deny-only permission protocol"@,
            can_modify: true,
            payload: seq![
                FieldView { name: "tool_name"@, typ: "string"@, description: "file_head, file_tail, or file_lines"@ },
                FieldView { name: "path"@, typ: "string"@, description: "absolute path being read"@ },
            ],
            returns: seq![
                FieldView { name: "denied"@, typ: "bool"@, description: "set true to block the read"@ },
                FieldView { name: "reason"@, typ: "string"@, description: "reason shown when denied"@ },
            ],
            notes: "fail-safe deny if no handler; empty {} response falls through to frontend handler"@,
        },
        HookMetaView {
            point: HookPoint::PreFileWrite,
            category: "file_permission"@,
            description: "fires before write_file or file_edit; deny-only permission protocol"@,
            can_modify: true,
            payload: seq![
                FieldView { name: "tool_name"@, typ: "string"@, description: "write_file or file_edit"@ },
                FieldView { name: "path"@, typ: "string"@, description: "absolute path being written"@ },
                FieldView { name: "content"@, typ: "string"@, description: "file content (null for file_edit)"@ },
            ],
            returns: seq![
                FieldView { name: "denied"@, typ: "bool"@, description: "set true to block the write"@ },
                FieldView { name: "reason"@, typ: "string"@, description: "reason shown when denied"@ },
            ],
            notes: "fail-safe deny if no permission handler configured"@,
        },
        HookMetaView {
            point: HookPoint::PreShellExec,
            category: "file_permission"@,
            description: "fires before shell_exec; deny-only permission protocol"@,
            can_modify: true,
            payload: seq![
                FieldView { name: "tool_name"@, typ: "string"@, description: "shell_exec"@ },
                FieldView { name: "command"@, typ: "string"@, description: "shell command string"@ },
            ],
            returns: seq![
                FieldView { name: "denied"@, typ: "bool"@, description: "set true to block execution"@ },
                FieldView { name: "reason"@, typ: "string"@, description: "reason shown when denied"@ },
            ],
            notes: "same deny-only protocol as pre_file_read and pre_file_write"@,
        },
        HookMetaView {
            point: HookPoint::PreFetchUrl,
            category: "url_security"@,
            description: "fires before fetching a sensitive URL or invoking a network-category tool without a URL; deny-only"@,
            can_modify: true,
            payload: seq![
                FieldView { name: "tool_name"@, typ: "string"@, description: "name of the tool making the network call"@ },
                FieldView { name: "url"@, typ: "string"@, description: "URL being fetched (absent when safety is \"no_url\")"@ },
                FieldView { name: "safety"@, typ: "string"@, description: "\"sensitive\" for URL-based calls, \"no_url\" for network tools without a URL parameter"@ },
                FieldView { name: "reason"@, typ: "string"@, description: "classification reason (absent when safety is \"no_url\")"@ },
                FieldView { name: "summary"@, typ: "string"@, description: "human-readable summary from summary_params (present only when safety is \"no_url\")"@ },
            ],
            returns: seq![
                FieldView { name: "denied"@, typ: "bool"@, description: "set true to block the fetch"@ },
                FieldView { name: "reason"@, typ: "string"@, description: "reason shown when denied"@ },
            ],
            notes: "only fires when no url_policy is configured; url_policy is authoritative when set"@,
        },
        HookMetaView {
            point: HookPoint::PreSpawnAgent,
            category: "agent"@,
            description: "fires before a sub-agent LLM call; can intercept/replace or block"@,
            can_modify: true,
            payload: seq![
                FieldView { name: "system_prompt"@, typ: "string"@, description: "system prompt for sub-agent"@ },
                FieldView { name: "input"@, typ: "string"@, description: "input content to process"@ },
                FieldView { name: "model"@, typ: "string"@, description: "model identifier"@ },
                FieldView { name: "temperature"@, typ: "number"@, description: "sampling temperature"@ },
                FieldView { name: "max_tokens"@, typ: "number"@, description: "max tokens for response"@ },
            ],
            returns: seq![
                FieldView { name: "response"@, typ: "string"@, description: "pre-computed response to use instead of LLM call"@ },
                FieldView { name: "block"@, typ: "bool"@, description: "set true to block the sub-agent call"@ },
                FieldView { name: "message"@, typ: "string"@, description: "message shown when blocked"@ },
            ],
            notes: ""@,
        },
        HookMetaView {
            point: HookPoint::PostSpawnAgent,
            category: "agent"@,
            description: "fires after sub-agent returns; observe only"@,
            can_modify: false,
            payload: seq![
                FieldView { name: "system_prompt"@, typ: "string"@, description: "system prompt used"@ },
                FieldView { name: "input"@, typ: "string"@, description: "input content"@ },
                FieldView { name: "model"@, typ: "string"@, description: "model identifier"@ },
                FieldView { name: "response"@, typ: "string"@, description: "sub-agent's response"@ },
            ],
            returns: Seq::<FieldView>::empty(),
            notes: ""@,
        },
        HookMetaView {
            point: HookPoint::PreCacheOutput,
            category: "cache"@,
            description: "fires before caching a large tool output; can provide custom summary"@,
            can_modify: true,
            payload: seq![
                FieldView { name: "tool_name"@, typ: "string"@, description: "tool whose output is being cached"@ },
                FieldView { name: "arguments"@, typ: "object"@, description: "tool arguments"@ },
                FieldView { name: "content"@, typ: "string"@, description: "full output content"@ },
                FieldView { name: "char_count"@, typ: "number"@, description: "character count of content"@ },
                FieldView { name: "line_count"@, typ: "number"@, description: "line count of content"@ },
            ],
            returns: seq![
                FieldView { name: "summary"@, typ: "string"@, description: "custom summary to show LLM instead of full content"@ },
            ],
            notes: ""@,
        },
        HookMetaView {
            point: HookPoint::PostCacheOutput,
            category: "cache"@,
            description: "fires after output is cached; observe only"@,
            can_modify: false,
            payload: seq![
                FieldView { name: "tool_name"@, typ: "string"@, description: "tool whose output was cached"@ },
                FieldView { name: "cache_id"@, typ: "string"@, description: "filename under vfs:///sys/tool_cache/<context>/"@ },
                FieldView { name: "output_size"@, typ: "number"@, description: "size of cached output in bytes"@ },
                FieldView { name: "preview_size"@, typ: "number"@, description: "size of preview shown to LLM"@ },
            ],
            returns: Seq::<FieldView>::empty(),
            notes: "access cached content with file_head/file_tail/file_lines using full vfs:// URI"@,
        },
        HookMetaView {
            point: HookPoint::PreSendMessage,
            category: "message_delivery"@,
            description: "fires before delivering an inter-context message; can claim delivery"@,
            can_modify: true,
            payload: seq![
                FieldView { name: "from"@, typ: "string"@, description: "sending context name"@ },
                FieldView { name: "to"@, typ: "string"@, description: "recipient context name"@ },
                FieldView { name: "content"@, typ: "string"@, description: "message content"@ },
                FieldView { name: "context_name"@, typ: "string"@, description: "active context name"@ },
            ],
            returns: seq![
                FieldView { name: "delivered"@, typ: "bool"@, description: "set true to claim delivery was handled"@ },
                FieldView { name: "via"@, typ: "string"@, description: "delivery mechanism name (for logging)"@ },
            ],
            notes: ""@,
        },
        HookMetaView {
            point: HookPoint::PostSendMessage,
            category: "message_delivery"@,
            description: "fires after message delivery; observe only"@,
            can_modify: false,
            payload: seq![
                FieldView { name: "from"@, typ: "string"@, description: "sending context name"@ },
                FieldView { name: "to"@, typ: "string"@, description: "recipient context name"@ },
                FieldView { name: "content"@, typ: "string"@, description: "message content"@ },
                FieldView { name: "context_name"@, typ: "string"@, description: "active context name"@ },
                FieldView { name: "delivery_result"@, typ: "string"@, description: "delivery outcome description"@ },
            ],
            returns: Seq::<FieldView>::empty(),
            notes: ""@,
        },
        HookMetaView {
            point: HookPoint::PostIndexFile,
            category: "index"@,
            description: "fires after a file is indexed by the code indexer; observe only"@,
            can_modify: false,
            payload: seq![
                FieldView { name: "path"@, typ: "string"@, description: "relative path of indexed file"@ },
                FieldView { name: "lang"@, typ: "string"@, description: "detected language"@ },
                FieldView { name: "symbol_count"@, typ: "number"@, description: "number of symbols indexed"@ },
                FieldView { name: "ref_count"@, typ: "number"@, description: "number of references indexed"@ },
            ],
            returns: Seq::<FieldView>::empty(),
            notes: ""@,
        },
        HookMetaView {
            point: HookPoint::PreVfsWrite,
            category: "vfs_write"@,
            description: "fires before a VFS file write via tool dispatch; advisory, non-blocking"@,
            can_modify: false,
            payload: seq![
                FieldView { name: "tool_name"@, typ: "string"@, description: "write_file or file_edit"@ },
                FieldView { name: "path"@, typ: "string"@, description: "VFS path being written"@ },
                FieldView { name: "content"@, typ: "string"@, description: "new content (null for file_edit)"@ },
                FieldView { name: "caller"@, typ: "string"@, description: "context initiating the write"@ },
            ],
            returns: Seq::<FieldView>::empty(),
            notes: "only fires for context-initiated writes via send.rs; VfsCaller::System and (harness io) bypass this hook"@,
        },
        HookMetaView {
            point: HookPoint::PostVfsWrite,
            category: "vfs_write"@,
            description: "fires after a successful VFS file write via tool dispatch; observe only"@,
            can_modify: false,
            payload: seq![
                FieldView { name: "tool_name"@, typ: "string"@, description: "write_file or file_edit"@ },
                FieldView { name: "path"@, typ: "string"@, description: "VFS path that was written"@ },
                FieldView { name: "caller"@, typ: "string"@, description: "context that initiated the write"@ },
            ],
            returns: Seq::<FieldView>::empty(),
            notes: "same caller restriction as pre_vfs_write"@,
        },
        HookMetaView {
            point: HookPoint::PreClear,
            category: "context"@,
            description: "fires before clearing a context; observe only"@,
            can_modify: false,
            payload: seq![
                FieldView { name: "context_name"@, typ: "string"@, description: "context being cleared"@ },
                FieldView { name: "message_count"@, typ: "number"@, description: "number of messages before clear"@ },
                FieldView { name: "summary"@, typ: "string"@, description: "existing conversation summary"@ },
            ],
            returns: Seq::<FieldView>::empty(),
            notes: ""@,
        },
        HookMetaView {
            point: HookPoint::PostClear,
            category: "context"@,
            description: "fires after clearing a context; observe only"@,
            can_modify: false,
            payload: seq![
                FieldView { name: "context_name"@, typ: "string"@, description: "context that was cleared"@ },
                FieldView { name: "message_count"@, typ: "number"@, description: "message count before clear"@ },
                FieldView { name: "summary"@, typ: "string"@, description: "summary before clear"@ },
            ],
            returns: Seq::<FieldView>::empty(),
            notes: ""@,
        },
        HookMetaView {
            point: HookPoint::PreCompact,
            category: "context"@,
            description: "fires before full compaction; observe only"@,
            can_modify: false,
            payload: seq![
                FieldView { name: "context_name"@, typ: "string"@, description: "context being compacted"@ },
                FieldView { name: "message_count"@, typ: "number"@, description: "number of messages before compact"@ },
                FieldView { name: "summary"@, typ: "string"@, description: "conversation summary"@ },
            ],
            returns: Seq::<FieldView>::empty(),
            notes: ""@,
        },
        HookMetaView {
            point: HookPoint::PostCompact,
            category: "context"@,
            description: "fires after full compaction; observe only"@,
            can_modify: false,
            payload: seq![
                FieldView { name: "context_name"@, typ: "string"@, description: "context that was compacted"@ },
                FieldView { name: "message_count"@, typ: "number"@, description: "message count before compact"@ },
                FieldView { name: "summary"@, typ: "string"@, description: "conversation summary"@ },
            ],
            returns: Seq::<FieldView>::empty(),
            notes: ""@,
        },
        HookMetaView {
            point: HookPoint::PreRollingCompact,
            category: "context"@,
            description: "fires before rolling compaction; observe only"@,
            can_modify: false,
            payload: seq![
                FieldView { name: "context_name"@, typ: "string"@, description: "context being compacted"@ },
                FieldView { name: "message_count"@, typ: "number"@, description: "total message count"@ },
                FieldView { name: "non_system_count"@, typ: "number"@, description: "non-system message count"@ },
                FieldView { name: "summary"@, typ: "string"@, description: "conversation summary"@ },
            ],
            returns: Seq::<FieldView>::empty(),
            notes: ""@,
        },
        HookMetaView {
            point: HookPoint::PostRollingCompact,
            category: "context"@,
            description: "fires after rolling compaction; observe only"@,
            can_modify: false,
            payload: seq![
                FieldView { name: "context_name"@, typ: "string"@, description: "context that was compacted"@ },
                FieldView { name: "message_count"@, typ: "number"@, description: "message count after archiving"@ },
                FieldView { name: "messages_archived"@, typ: "number"@, description: "number of messages archived"@ },
                FieldView { name: "summary"@, typ: "string"@, description: "updated summary"@ },
            ],
            returns: Seq::<FieldView>::empty(),
            notes: ""@,
        },
    ]
}

/// The documented contract of every hook point, in documentation order.
pub fn hook_metadata() -> (r: Vec<HookMeta>)
    ensures
        metas_view(r@) == hook_metadata_table(),
{
    let r = vec![
        HookMeta {
            point: HookPoint::OnStart,
            category: "session",
            description: "fires when chibi starts, before any processing",
            can_modify: false,
            payload_fields: vec![
                FieldMeta { name: "chibi_home", typ: "string", description: "chibi home directory path" },
                FieldMeta { name: "project_root", typ: "string", description: "project root directory path" },
                FieldMeta { name: "tool_count", typ: "number", description: "number of loaded tools" },
            ],
            return_fields: Vec::new(),
            notes: "",
        },
        HookMeta {
            point: HookPoint::OnEnd,
            category: "session",
            description: "fires when chibi exits, after all processing",
            can_modify: false,
            payload_fields: Vec::new(),
            return_fields: Vec::new(),
            notes: "receives empty payload",
        },
        HookMeta {
            point: HookPoint::PreMessage,
            category: "message",
            description: "fires before sending a prompt to the LLM",
            can_modify: true,
            payload_fields: vec![
                FieldMeta { name: "prompt", typ: "string", description: "the user's prompt" },
                FieldMeta { name: "context_name", typ: "string", description: "active context name" },
                FieldMeta { name: "summary", typ: "string", description: "conversation summary" },
            ],
            return_fields: vec![
                FieldMeta { name: "prompt", typ: "string", description: "modified prompt" },
            ],
            notes: "",
        },
        HookMeta {
            point: HookPoint::PostMessage,
            category: "message",
            description: "fires after receiving the LLM response",
            can_modify: false,
            payload_fields: vec![
                FieldMeta { name: "prompt", typ: "string", description: "original prompt" },
                FieldMeta { name: "response", typ: "string", description: "LLM's response" },
                FieldMeta { name: "context_name", typ: "string", description: "active context name" },
            ],
            return_fields: Vec::new(),
            notes: "",
        },
        HookMeta {
            point: HookPoint::PreSystemPrompt,
            category: "system_prompt",
            description: "fires before building the system prompt; can inject content",
            can_modify: true,
            payload_fields: vec![
                FieldMeta { name: "context_name", typ: "string", description: "active context name" },
                FieldMeta { name: "summary", typ: "string", description: "conversation summary" },
                FieldMeta { name: "flock_goals", typ: "array", description: "array of {flock, goals} objects" },
            ],
            return_fields: vec![
                FieldMeta { name: "inject", typ: "string", description: "content to add to system prompt" },
            ],
            notes: "flock_goals replaced the old goals field; todos field removed (use VFS task files)",
        },
        HookMeta {
            point: HookPoint::PostSystemPrompt,
            category: "system_prompt",
            description: "fires after building the system prompt; can inject content",
            can_modify: true,
            payload_fields: vec![
                FieldMeta { name: "context_name", typ: "string", description: "active context name" },
                FieldMeta { name: "summary", typ: "string", description: "conversation summary" },
                FieldMeta { name: "flock_goals", typ: "array", description: "array of {flock, goals} objects" },
            ],
            return_fields: vec![
                FieldMeta { name: "inject", typ: "string", description: "content to add to system prompt" },
            ],
            notes: "same payload/return as pre_system_prompt",
        },
        HookMeta {
            point: HookPoint::PreTool,
            category: "tool",
            description: "fires before executing a tool; can modify arguments or block",
            can_modify: true,
            payload_fields: vec![
                FieldMeta { name: "tool_name", typ: "string", description: "name of the tool being called" },
                FieldMeta { name: "arguments", typ: "object", description: "tool arguments object" },
            ],
            return_fields: vec![
                FieldMeta { name: "arguments", typ: "object", description: "modified arguments" },
                FieldMeta { name: "block", typ: "bool", description: "set true to block execution" },
                FieldMeta { name: "message", typ: "string", description: "message shown when blocked" },
            ],
            notes: "",
        },
        HookMeta {
            point: HookPoint::PostTool,
            category: "tool",
            description: "fires after executing a tool; observe only",
            can_modify: false,
            payload_fields: vec![
                FieldMeta { name: "tool_name", typ: "string", description: "name of the tool that ran" },
                FieldMeta { name: "arguments", typ: "object", description: "tool arguments object" },
                FieldMeta { name: "result", typ: "string", description: "tool output" },
                FieldMeta { name: "cached", typ: "bool", description: "true if output was cached due to size" },
            ],
            return_fields: Vec::new(),
            notes: "",
        },
        HookMeta {
            point: HookPoint::PreToolOutput,
            category: "tool",
            description: "fires after tool returns, before caching decisions; can modify or block output",
            can_modify: true,
            payload_fields: vec![
                FieldMeta { name: "tool_name", typ: "string", description: "name of the tool that ran" },
                FieldMeta { name: "arguments", typ: "object", description: "tool arguments object" },
                FieldMeta { name: "output", typ: "string", description: "raw tool output" },
            ],
            return_fields: vec![
                FieldMeta { name: "output", typ: "string", description: "modified output" },
                FieldMeta { name: "block", typ: "bool", description: "set true to replace output entirely" },
                FieldMeta { name: "message", typ: "string", description: "replacement message shown to LLM when blocked" },
            ],
            notes: "",
        },
        HookMeta {
            point: HookPoint::PostToolOutput,
            category: "tool",
            description: "fires after tool output processing and caching; observe only",
            can_modify: false,
            payload_fields: vec![
                FieldMeta { name: "tool_name", typ: "string", description: "name of the tool that ran" },
                FieldMeta { name: "arguments", typ: "object", description: "tool arguments object" },
                FieldMeta { name: "output", typ: "string", description: "original output after pre_tool_output modifications" },
                FieldMeta { name: "final_output", typ: "string", description: "what the LLM will see (may be truncated if cached)" },
                FieldMeta { name: "cached", typ: "bool", description: "true if output was cached" },
            ],
            return_fields: Vec::new(),
            notes: "",
        },
        HookMeta {
            point: HookPoint::PreApiTools,
            category: "api",
            description: "fires before tools are sent to the API; can filter tools",
            can_modify: true,
            payload_fields: vec![
                FieldMeta { name: "context_name", typ: "string", description: "active context name" },
                FieldMeta { name: "tools", typ: "array", description: "array of {name, type} tool objects" },
                FieldMeta { name: "fuel_remaining", typ: "number", description: "remaining tool-call budget" },
                FieldMeta { name: "fuel_total", typ: "number", description: "total fuel budget" },
            ],
            return_fields: vec![
                FieldMeta { name: "exclude", typ: "array", description: "tool names to remove (union across hooks)" },
                FieldMeta { name: "include", typ: "array", description: "allowlist: only these tools remain (intersection across hooks)" },
            ],
            notes: "include/exclude are mutually exclusive per response; excludes union, includes intersect across multiple hooks",
        },
        HookMeta {
            point: HookPoint::PreApiRequest,
            category: "api",
            description: "fires after tool filtering, before HTTP request; can modify request body",
            can_modify: true,
            payload_fields: vec![
                FieldMeta { name: "context_name", typ: "string", description: "active context name" },
                FieldMeta { name: "request_body", typ: "object", description: "full request body (model, messages, tools, etc.)" },
                FieldMeta { name: "fuel_remaining", typ: "number", description: "remaining tool-call budget" },
                FieldMeta { name: "fuel_total", typ: "number", description: "total fuel budget" },
            ],
            return_fields: vec![
                FieldMeta { name: "request_body", typ: "object", description: "fields to merge into request body (partial override)" },
            ],
            notes: "returned fields are merged, not replaced; cache_prompt and exclude_from_output are chibi-internal field names",
        },
        HookMeta {
            point: HookPoint::PreAgenticLoop,
            category: "agentic",
            description: "fires before each agentic loop iteration; can override fallback and fuel",
            can_modify: true,
            payload_fields: vec![
                FieldMeta { name: "context_name", typ: "string", description: "active context name" },
                FieldMeta { name: "fuel_remaining", typ: "number", description: "remaining tool-call budget" },
                FieldMeta { name: "fuel_total", typ: "number", description: "total fuel budget" },
                FieldMeta { name: "current_fallback", typ: "string", description: "current fallback target (call_agent or call_user)" },
                FieldMeta { name: "message", typ: "string", description: "user message for this loop" },
            ],
            return_fields: vec![
                FieldMeta { name: "fallback", typ: "string", description: "override fallback: call_agent or call_user" },
                FieldMeta { name: "fuel", typ: "number", description: "set fuel_remaining to this value" },
            ],
            notes: "",
        },
        HookMeta {
            point: HookPoint::PostToolBatch,
            category: "agentic",
            description: "fires after processing a batch of tool calls; can override fallback and adjust fuel",
            can_modify: true,
            payload_fields: vec![
                FieldMeta { name: "context_name", typ: "string", description: "active context name" },
                FieldMeta { name: "fuel_remaining", typ: "number", description: "remaining tool-call budget" },
                FieldMeta { name: "fuel_total", typ: "number", description: "total fuel budget" },
                FieldMeta { name: "current_fallback", typ: "string", description: "current fallback target" },
                FieldMeta { name: "tool_calls", typ: "array", description: "array of {name, arguments} for tools that ran" },
            ],
            return_fields: vec![
                FieldMeta { name: "fallback", typ: "string", description: "override fallback: call_agent or call_user" },
                FieldMeta { name: "fuel_delta", typ: "number", description: "adjust fuel by this amount (positive adds, negative consumes, saturating)" },
            ],
            notes: "post_tool_batch output > pre_agentic_loop output > config fallback; last hook to set fallback wins",
        },
        HookMeta {
            point: HookPoint::PreFileRead,
            category: "file_permission",
            description: "fires before reading a file outside allowed paths; deny-only permission protocol",
            can_modify: true,
            payload_fields: vec![
                FieldMeta { name: "tool_name", typ: "string", description: "file_head, file_tail, or file_lines" },
                FieldMeta { name: "path", typ: "string", description: "absolute path being read" },
            ],
            return_fields: vec![
                FieldMeta { name: "denied", typ: "bool", description: "set true to block the read" },
                FieldMeta { name: "reason", typ: "string", description: "reason shown when denied" },
            ],
            notes: "fail-safe deny if no handler; empty {} response falls through to frontend handler",
        },
        HookMeta {
            point: HookPoint::PreFileWrite,
            category: "file_permission",
            description: "fires before write_file or file_edit; deny-only permission protocol",
            can_modify: true,
            payload_fields: vec![
                FieldMeta { name: "tool_name", typ: "string", description: "write_file or file_edit" },
                FieldMeta { name: "path", typ: "string", description: "absolute path being written" },
                FieldMeta { name: "content", typ: "string", description: "file content (null for file_edit)" },
            ],
            return_fields: vec![
                FieldMeta { name: "denied", typ: "bool", description: "set true to block the write" },
                FieldMeta { name: "reason", typ: "string", description: "reason shown when denied" },
            ],
            notes: "fail-safe deny if no permission handler configured",
        },
        HookMeta {
            point: HookPoint::PreShellExec,
            category: "file_permission",
            description: "fires before shell_exec; deny-only permission protocol",
            can_modify: true,
            payload_fields: vec![
                FieldMeta { name: "tool_name", typ: "string", description: "shell_exec" },
                FieldMeta { name: "command", typ: "string", description: "shell command string" },
            ],
            return_fields: vec![
                FieldMeta { name: "denied", typ: "bool", description: "set true to block execution" },
                FieldMeta { name: "reason", typ: "string", description: "reason shown when denied" },
            ],
            notes: "same deny-only protocol as pre_file_read and pre_file_write",
        },
        HookMeta {
            point: HookPoint::PreFetchUrl,
            category: "url_security",
            description: "fires before fetching a sensitive URL or invoking a network-category tool without a URL; deny-only",
            can_modify: true,
            payload_fields: vec![
                FieldMeta { name: "tool_name", typ: "string", description: "name of the tool making the network call" },
                FieldMeta { name: "url", typ: "string", description: "URL being fetched (absent when safety is \"no_url\")" },
                FieldMeta { name: "safety", typ: "string", description: "\"sensitive\" for URL-based calls, \"no_url\" for network tools without a URL parameter" },
                FieldMeta { name: "reason", typ: "string", description: "classification reason (absent when safety is \"no_url\")" },
                FieldMeta { name: "summary", typ: "string", description: "human-readable summary from summary_params (present only when safety is \"no_url\")" },
            ],
            return_fields: vec![
                FieldMeta { name: "denied", typ: "bool", description: "set true to block the fetch" },
                FieldMeta { name: "reason", typ: "string", description: "reason shown when denied" },
            ],
            notes: "only fires when no url_policy is configured; url_policy is authoritative when set",
        },
        HookMeta {
            point: HookPoint::PreSpawnAgent,
            category: "agent",
            description: "fires before a sub-agent LLM call; can intercept/replace or block",
            can_modify: true,
            payload_fields: vec![
                FieldMeta { name: "system_prompt", typ: "string", description: "system prompt for sub-agent" },
                FieldMeta { name: "input", typ: "string", description: "input content to process" },
                FieldMeta { name: "model", typ: "string", description: "model identifier" },
                FieldMeta { name: "temperature", typ: "number", description: "sampling temperature" },
                FieldMeta { name: "max_tokens", typ: "number", description: "max tokens for response" },
            ],
            return_fields: vec![
                FieldMeta { name: "response", typ: "string", description: "pre-computed response to use instead of LLM call" },
                FieldMeta { name: "block", typ: "bool", description: "set true to block the sub-agent call" },
                FieldMeta { name: "message", typ: "string", description: "message shown when blocked" },
            ],
            notes: "",
        },
        HookMeta {
            point: HookPoint::PostSpawnAgent,
            category: "agent",
            description: "fires after sub-agent returns; observe only",
            can_modify: false,
            payload_fields: vec![
                FieldMeta { name: "system_prompt", typ: "string", description: "system prompt used" },
                FieldMeta { name: "input", typ: "string", description: "input content" },
                FieldMeta { name: "model", typ: "string", description: "model identifier" },
                FieldMeta { name: "response", typ: "string", description: "sub-agent's response" },
            ],
            return_fields: Vec::new(),
            notes: "",
        },
        HookMeta {
            point: HookPoint::PreCacheOutput,
            category: "cache",
            description: "fires before caching a large tool output; can provide custom summary",
            can_modify: true,
            payload_fields: vec![
                FieldMeta { name: "tool_name", typ: "string", description: "tool whose output is being cached" },
                FieldMeta { name: "arguments", typ: "object", description: "tool arguments" },
                FieldMeta { name: "content", typ: "string", description: "full output content" },
                FieldMeta { name: "char_count", typ: "number", description: "character count of content" },
                FieldMeta { name: "line_count", typ: "number", description: "line count of content" },
            ],
            return_fields: vec![
                FieldMeta { name: "summary", typ: "string", description: "custom summary to show LLM instead of full content" },
            ],
            notes: "",
        },
        HookMeta {
            point: HookPoint::PostCacheOutput,
            category: "cache",
            description: "fires after output is cached; observe only",
            can_modify: false,
            payload_fields: vec![
                FieldMeta { name: "tool_name", typ: "string", description: "tool whose output was cached" },
                FieldMeta { name: "cache_id", typ: "string", description: "filename under vfs:///sys/tool_cache/<context>/" },
                FieldMeta { name: "output_size", typ: "number", description: "size of cached output in bytes" },
                FieldMeta { name: "preview_size", typ: "number", description: "size of preview shown to LLM" },
            ],
            return_fields: Vec::new(),
            notes: "access cached content with file_head/file_tail/file_lines using full vfs:// URI",
        },
        HookMeta {
            point: HookPoint::PreSendMessage,
            category: "message_delivery",
            description: "fires before delivering an inter-context message; can claim delivery",
            can_modify: true,
            payload_fields: vec![
                FieldMeta { name: "from", typ: "string", description: "sending context name" },
                FieldMeta { name: "to", typ: "string", description: "recipient context name" },
                FieldMeta { name: "content", typ: "string", description: "message content" },
                FieldMeta { name: "context_name", typ: "string", description: "active context name" },
            ],
            return_fields: vec![
                FieldMeta { name: "delivered", typ: "bool", description: "set true to claim delivery was handled" },
                FieldMeta { name: "via", typ: "string", description: "delivery mechanism name (for logging)" },
            ],
            notes: "",
        },
        HookMeta {
            point: HookPoint::PostSendMessage,
            category: "message_delivery",
            description: "fires after message delivery; observe only",
            can_modify: false,
            payload_fields: vec![
                FieldMeta { name: "from", typ: "string", description: "sending context name" },
                FieldMeta { name: "to", typ: "string", description: "recipient context name" },
                FieldMeta { name: "content", typ: "string", description: "message content" },
                FieldMeta { name: "context_name", typ: "string", description: "active context name" },
                FieldMeta { name: "delivery_result", typ: "string", description: "delivery outcome description" },
            ],
            return_fields: Vec::new(),
            notes: "",
        },
        HookMeta {
            point: HookPoint::PostIndexFile,
            category: "index",
            description: "fires after a file is indexed by the code indexer; observe only",
            can_modify: false,
            payload_fields: vec![
                FieldMeta { name: "path", typ: "string", description: "relative path of indexed file" },
                FieldMeta { name: "lang", typ: "string", description: "detected language" },
                FieldMeta { name: "symbol_count", typ: "number", description: "number of symbols indexed" },
                FieldMeta { name: "ref_count", typ: "number", description: "number of references indexed" },
            ],
            return_fields: Vec::new(),
            notes: "",
        },
        HookMeta {
            point: HookPoint::PreVfsWrite,
            category: "vfs_write",
            description: "fires before a VFS file write via tool dispatch; advisory, non-blocking",
            can_modify: false,
            payload_fields: vec![
                FieldMeta { name: "tool_name", typ: "string", description: "write_file or file_edit" },
                FieldMeta { name: "path", typ: "string", description: "VFS path being written" },
                FieldMeta { name: "content", typ: "string", description: "new content (null for file_edit)" },
                FieldMeta { name: "caller", typ: "string", description: "context initiating the write" },
            ],
            return_fields: Vec::new(),
            notes: "only fires for context-initiated writes via send.rs; VfsCaller::System and (harness io) bypass this hook",
        },
        HookMeta {
            point: HookPoint::PostVfsWrite,
            category: "vfs_write",
            description: "fires after a successful VFS file write via tool dispatch; observe only",
            can_modify: false,
            payload_fields: vec![
                FieldMeta { name: "tool_name", typ: "string", description: "write_file or file_edit" },
                FieldMeta { name: "path", typ: "string", description: "VFS path that was written" },
                FieldMeta { name: "caller", typ: "string", description: "context that initiated the write" },
            ],
            return_fields: Vec::new(),
            notes: "same caller restriction as pre_vfs_write",
        },
        HookMeta {
            point: HookPoint::PreClear,
            category: "context",
            description: "fires before clearing a context; observe only",
            can_modify: false,
            payload_fields: vec![
                FieldMeta { name: "context_name", typ: "string", description: "context being cleared" },
                FieldMeta { name: "message_count", typ: "number", description: "number of messages before clear" },
                FieldMeta { name: "summary", typ: "string", description: "existing conversation summary" },
            ],
            return_fields: Vec::new(),
            notes: "",
        },
        HookMeta {
            point: HookPoint::PostClear,
            category: "context",
            description: "fires after clearing a context; observe only",
            can_modify: false,
            payload_fields: vec![
                FieldMeta { name: "context_name", typ: "string", description: "context that was cleared" },
                FieldMeta { name: "message_count", typ: "number", description: "message count before clear" },
                FieldMeta { name: "summary", typ: "string", description: "summary before clear" },
            ],
            return_fields: Vec::new(),
            notes: "",
        },
        HookMeta {
            point: HookPoint::PreCompact,
            category: "context",
            description: "fires before full compaction; observe only",
            can_modify: false,
            payload_fields: vec![
                FieldMeta { name: "context_name", typ: "string", description: "context being compacted" },
                FieldMeta { name: "message_count", typ: "number", description: "number of messages before compact" },
                FieldMeta { name: "summary", typ: "string", description: "conversation summary" },
            ],
            return_fields: Vec::new(),
            notes: "",
        },
        HookMeta {
            point: HookPoint::PostCompact,
            category: "context",
            description: "fires after full compaction; observe only",
            can_modify: false,
            payload_fields: vec![
                FieldMeta { name: "context_name", typ: "string", description: "context that was compacted" },
                FieldMeta { name: "message_count", typ: "number", description: "message count before compact" },
                FieldMeta { name: "summary", typ: "string", description: "conversation summary" },
            ],
            return_fields: Vec::new(),
            notes: "",
        },
        HookMeta {
            point: HookPoint::PreRollingCompact,
            category: "context",
            description: "fires before rolling compaction; observe only",
            can_modify: false,
            payload_fields: vec![
                FieldMeta { name: "context_name", typ: "string", description: "context being compacted" },
                FieldMeta { name: "message_count", typ: "number", description: "total message count" },
                FieldMeta { name: "non_system_count", typ: "number", description: "non-system message count" },
                FieldMeta { name: "summary", typ: "string", description: "conversation summary" },
            ],
            return_fields: Vec::new(),
            notes: "",
        },
        HookMeta {
            point: HookPoint::PostRollingCompact,
            category: "context",
            description: "fires after rolling compaction; observe only",
            can_modify: false,
            payload_fields: vec![
                FieldMeta { name: "context_name", typ: "string", description: "context that was compacted" },
                FieldMeta { name: "message_count", typ: "number", description: "message count after archiving" },
                FieldMeta { name: "messages_archived", typ: "number", description: "number of messages archived" },
                FieldMeta { name: "summary", typ: "string", description: "updated summary" },
            ],
            return_fields: Vec::new(),
            notes: "",
        },
    ];
    assert(metas_view(r@) =~~= hook_metadata_table());
    r
}

/// Every hook point has exactly one entry in the hook metadata, and every
/// entry's category is one of the documented categories.
pub proof fn law_hook_metadata_complete(h: HookPoint)
    ensures
        exists|i: int| 0 <= i < hook_metadata_table().len() && #[trigger] hook_metadata_table()[i].point == h,
        hook_metadata_table().len() == spec_all_hook_points().len(),
        forall|i: int, j: int| 0 <= i < j < hook_metadata_table().len() ==> hook_metadata_table()[i].point != hook_metadata_table()[j].point,
        forall|i: int| 0 <= i < hook_metadata_table().len() ==> category_keys().contains(#[trigger] hook_metadata_table()[i].category),
{
    let t = hook_metadata_table();
    let keys = category_keys();
    match h {
        HookPoint::OnStart => assert(t[0].point == h),
        HookPoint::OnEnd => assert(t[1].point == h),
        HookPoint::PreMessage => assert(t[2].point == h),
        HookPoint::PostMessage => assert(t[3].point == h),
        HookPoint::PreSystemPrompt => assert(t[4].point == h),
        HookPoint::PostSystemPrompt => assert(t[5].point == h),
        HookPoint::PreTool => assert(t[6].point == h),
        HookPoint::PostTool => assert(t[7].point == h),
        HookPoint::PreToolOutput => assert(t[8].point == h),
        HookPoint::PostToolOutput => assert(t[9].point == h),
        HookPoint::PreApiTools => assert(t[10].point == h),
        HookPoint::PreApiRequest => assert(t[11].point == h),
        HookPoint::PreAgenticLoop => assert(t[12].point == h),
        HookPoint::PostToolBatch => assert(t[13].point == h),
        HookPoint::PreFileRead => assert(t[14].point == h),
        HookPoint::PreFileWrite => assert(t[15].point == h),
        HookPoint::PreShellExec => assert(t[16].point == h),
        HookPoint::PreFetchUrl => assert(t[17].point == h),
        HookPoint::PreSpawnAgent => assert(t[18].point == h),
        HookPoint::PostSpawnAgent => assert(t[19].point == h),
        HookPoint::PreCacheOutput => assert(t[20].point == h),
        HookPoint::PostCacheOutput => assert(t[21].point == h),
        HookPoint::PreSendMessage => assert(t[22].point == h),
        HookPoint::PostSendMessage => assert(t[23].point == h),
        HookPoint::PostIndexFile => assert(t[24].point == h),
        HookPoint::PreVfsWrite => assert(t[25].point == h),
        HookPoint::PostVfsWrite => assert(t[26].point == h),
        HookPoint::PreClear => assert(t[27].point == h),
        HookPoint::PostClear => assert(t[28].point == h),
        HookPoint::PreCompact => assert(t[29].point == h),
        HookPoint::PostCompact => assert(t[30].point == h),
        HookPoint::PreRollingCompact => assert(t[31].point == h),
        HookPoint::PostRollingCompact => assert(t[32].point == h),
    }
    assert(keys[0] == t[0].category);
    assert(keys[0] == t[1].category);
    assert(keys[1] == t[2].category);
    assert(keys[1] == t[3].category);
    assert(keys[2] == t[4].category);
    assert(keys[2] == t[5].category);
    assert(keys[3] == t[6].category);
    assert(keys[3] == t[7].category);
    assert(keys[3] == t[8].category);
    assert(keys[3] == t[9].category);
    assert(keys[4] == t[10].category);
    assert(keys[4] == t[11].category);
    assert(keys[5] == t[12].category);
    assert(keys[5] == t[13].category);
    assert(keys[6] == t[14].category);
    assert(keys[6] == t[15].category);
    assert(keys[6] == t[16].category);
    assert(keys[7] == t[17].category);
    assert(keys[8] == t[18].category);
    assert(keys[8] == t[19].category);
    assert(keys[9] == t[20].category);
    assert(keys[9] == t[21].category);
    assert(keys[10] == t[22].category);
    assert(keys[10] == t[23].category);
    assert(keys[11] == t[24].category);
    assert(keys[12] == t[25].category);
    assert(keys[12] == t[26].category);
    assert(keys[13] == t[27].category);
    assert(keys[13] == t[28].category);
    assert(keys[13] == t[29].category);
    assert(keys[13] == t[30].category);
    assert(keys[13] == t[31].category);
    assert(keys[13] == t[32].category);
}

// ---------------------------------------------------------------------------
// Dispatching a hook to plugins
// ---------------------------------------------------------------------------

/// A tool registered for `hook` that runs as a plugin executable.
pub open spec fn plugin_for_hook(t: Tool, hook: HookPoint) -> bool {
    t.hooks@.contains(hook) && t.implementation is Plugin
}

/// The plugins to run for `hook`, in tool order: each tool registered for
/// the hook that is a plugin, with its executable path.
pub open spec fn hook_plugins_of(tools: Seq<Tool>, hook: HookPoint) -> Seq<(Seq<char>, Seq<char>)>
    decreases tools.len(),
{
    if tools.len() == 0 {
        Seq::empty()
    } else {
        let before = hook_plugins_of(tools.drop_last(), hook);
        let t = tools.last();
        if plugin_for_hook(t, hook) {
            before.push((t.name@, t.implementation->Plugin_0@))
        } else {
            before
        }
    }
}

/// Whether `hooks` holds `hook`.
fn has_hook(hooks: &Vec<HookPoint>, hook: HookPoint) -> (r: bool)
    ensures
        r == hooks@.contains(hook),
{
    let n = hooks.len();
    let mut i: usize = 0;
    while i < n
        invariant
            n == hooks@.len(),
            i <= n,
            forall|j: int| 0 <= j < i ==> hooks@[j] != hook,
        decreases n - i,
    {
        if hooks[i] == hook {
            assert(hooks@[i as int] == hook);
            return true;
        }
        i = i + 1;
    }
    false
}

/// The plugins to run for a hook: each tool registered for it that is a
/// plugin, with its executable path, in tool order. Other tools do not run
/// hooks as subprocesses.
pub fn hook_plugins(tools: &[Tool], hook: HookPoint) -> (r: Vec<(String, String)>)
    ensures
        r@.map_values(|p: (String, String)| (p.0@, p.1@)) == hook_plugins_of(tools@, hook),
{
    let mut out: Vec<(String, String)> = Vec::new();
    let n = tools.len();
    let mut i: usize = 0;
    while i < n
        invariant
            n == tools@.len(),
            i <= n,
            out@.map_values(|p: (String, String)| (p.0@, p.1@)) =~= hook_plugins_of(
                tools@.take(i as int),
                hook,
            ),
        decreases n - i,
    {
        let t = &tools[i];
        assert(tools@.take(i + 1).drop_last() =~= tools@.take(i as int));
        assert(tools@.take(i + 1).last() == *t);
        let ghost before = out@.map_values(|p: (String, String)| (p.0@, p.1@));
        if has_hook(&t.hooks, hook) {
            if let ToolImpl::Plugin(path) = &t.implementation {
                out.push((copy_str(t.name.as_str()), copy_str(path.as_str())));
                assert(out@.map_values(|p: (String, String)| (p.0@, p.1@)) =~= before.push(
                    (t.name@, path@),
                ));
            }
        }
        i = i + 1;
    }
    assert(tools@.take(n as int) =~= tools@);
    out
}

/// What a plugin's run of a hook contributes: nothing when it failed or
/// printed only white space; else its trimmed output, as JSON when it parses
/// and as a string when it does not.
pub open spec fn hook_response_of(success: bool, stdout: Seq<char>) -> Option<JsonView> {
    let t = trimmed(stdout);
    if !success || t.len() == 0 {
        None
    } else {
        match parsed_json(t) {
            Some(v) => Some(v),
            None => Some(JsonView::Str(t)),
        }
    }
}

/// The result of one plugin's run of a hook, given whether it exited
/// successfully and what it printed: the tool's name with its response, or
/// nothing.
pub fn hook_response(tool_name: &str, success: bool, stdout: &str) -> (r: Option<(String, Json)>)
    ensures
        match r {
            Some((name, v)) => name@ == tool_name@ && hook_response_of(success, stdout@) == Some(
                json_view(v),
            ),
            None => hook_response_of(success, stdout@) is None,
        },
{
    if !success {
        return None;
    }
    let t = trim_text(stdout);
    if t.as_str().is_empty() {
        return None;
    }
    let value = match parse_json(t.as_str()) {
        Some(v) => v,
        None => Json::Str(t),
    };
    Some((copy_str(tool_name), value))
}

// ---------------------------------------------------------------------------
// Hook documentation for Scheme
// ---------------------------------------------------------------------------

/// One field as the Scheme documentation shows it: `name (type): description`.
pub open spec fn doc_field(f: FieldView) -> Seq<char> {
    f.name + " ("@ + f.typ + "): "@ + f.description
}

/// A list of fields for the Scheme documentation.
pub open spec fn doc_fields(fs: Seq<FieldView>) -> Seq<char> {
    join_with(fs.map_values(|f: FieldView| doc_field(f)), ", "@)
}

/// The documentation text of one hook: category, description and whether
/// it can modify, then its payload, its returns and any note.
pub open spec fn doc_text(m: HookMetaView) -> Seq<char> {
    "category: "@ + m.category + " | "@ + m.description + " | can modify: "@ + if m.can_modify {
        "yes"@
    } else {
        "no"@
    } + "\n"@ + if m.payload.len() == 0 {
        "  payload: (none)"@
    } else {
        "  payload: "@ + doc_fields(m.payload)
    } + "\n"@ + if m.returns.len() == 0 {
        "  returns: (observe only)"@
    } else {
        "  returns: "@ + doc_fields(m.returns)
    } + if m.notes.len() == 0 {
        Seq::empty()
    } else {
        "\n  note: "@ + m.notes
    }
}

/// A character as it appears inside a Scheme string literal: backslashes
/// and double quotes escaped.
pub open spec fn escape_char(c: char) -> Seq<char> {
    if c == '\\' {
        seq!['\\', '\\']
    } else if c == '"' {
        seq!['\\', '"']
    } else {
        seq![c]
    }
}

/// A text as the inside of a Scheme string literal.
pub open spec fn scheme_escaped(s: Seq<char>) -> Seq<char>
    decreases s.len(),
{
    if s.len() == 0 {
        Seq::empty()
    } else {
        scheme_escaped(s.drop_last()) + escape_char(s.last())
    }
}

/// The association-list entry of one hook: its name as a symbol, its
/// documentation as a string.
pub open spec fn doc_entry(m: HookMetaView) -> Seq<char> {
    "    ("@ + spec_hook_name(m.point) + " . \""@ + scheme_escaped(doc_text(m)) + "\")\n"@
}

/// The entries of all hooks, in order.
pub open spec fn doc_entries(ms: Seq<HookMetaView>) -> Seq<char>
    decreases ms.len(),
{
    if ms.len() == 0 {
        Seq::empty()
    } else {
        doc_entries(ms.drop_last()) + doc_entry(ms.last())
    }
}

/// The first line of the documentation list.
pub open spec fn docs_header() -> Seq<char> {
    "'((__module__ . \"hook points — lifecycle hooks for plugins and synthesised tools\")"@
}

/// Appends the fields for the Scheme documentation.
fn push_doc_fields(out: &mut String, fields: &Vec<FieldMeta>)
    ensures
        final(out)@ == old(out)@ + doc_fields(fields_view(fields@)),
{
    let ghost fv = fields_view(fields@);
    let ghost texts = fv.map_values(|f: FieldView| doc_field(f));
    let ghost start = out@;
    let n = fields.len();
    let mut i: usize = 0;
    while i < n
        invariant
            n == fields@.len(),
            fv == fields_view(fields@),
            texts == fv.map_values(|f: FieldView| doc_field(f)),
            i <= n,
            out@ == start + join_with(texts.take(i as int), ", "@),
        decreases n - i,
    {
        let ghost prev = out@;
        let f = &fields[i];
        if i > 0 {
            push_str(out, ", ");
        }
        push_str(out, f.name);
        push_str(out, " (");
        push_str(out, f.typ);
        push_str(out, "): ");
        push_str(out, f.description);
        proof {
            assert(texts.take(i + 1).drop_last() =~= texts.take(i as int));
            assert(texts.take(i + 1).last() == doc_field(field_view(*f)));
            if i == 0 {
                assert(texts.take(0).len() == 0);
                assert(out@ =~= start + doc_field(field_view(*f)));
            } else {
                assert(out@ =~= prev + ", "@ + doc_field(field_view(*f)));
            }
        }
        i = i + 1;
    }
    assert(texts.take(n as int) =~= texts);
}

/// Appends `s` escaped for a Scheme string literal.
fn push_escaped(out: &mut String, s: &String)
    ensures
        final(out)@ == old(out)@ + scheme_escaped(s@),
{
    let cs = to_chars(s.as_str());
    let ghost start = out@;
    let n = cs.len();
    let mut i: usize = 0;
    while i < n
        invariant
            n == cs@.len(),
            cs@ == s@,
            i <= n,
            out@ == start + scheme_escaped(cs@.take(i as int)),
        decreases n - i,
    {
        let c = cs[i];
        let ghost prev = out@;
        if c == '\\' {
            push_str(out, "\\\\");
            proof {
                reveal_strlit("\\\\");
            }
        } else if c == '"' {
            push_str(out, "\\\"");
            proof {
                reveal_strlit("\\\"");
            }
        } else {
            crate::text::push_char(out, c);
        }
        proof {
            assert(cs@.take(i + 1).drop_last() =~= cs@.take(i as int));
            assert(cs@.take(i + 1).last() == c);
            assert(out@ =~= prev + escape_char(c));
        }
        i = i + 1;
    }
    assert(cs@.take(n as int) =~= cs@);
}

/// The documentation text of one hook.
fn doc_text_of(m: &HookMeta) -> (r: String)
    ensures
        r@ == doc_text(meta_view(*m)),
{
    let mut v = copy_str("category: ");
    push_str(&mut v, m.category);
    push_str(&mut v, " | ");
    push_str(&mut v, m.description);
    push_str(&mut v, " | can modify: ");
    push_str(&mut v, if m.can_modify { "yes" } else { "no" });
    push_str(&mut v, "\n");
    if m.payload_fields.len() == 0 {
        push_str(&mut v, "  payload: (none)");
    } else {
        push_str(&mut v, "  payload: ");
        push_doc_fields(&mut v, &m.payload_fields);
    }
    push_str(&mut v, "\n");
    if m.return_fields.len() == 0 {
        push_str(&mut v, "  returns: (observe only)");
    } else {
        push_str(&mut v, "  returns: ");
        push_doc_fields(&mut v, &m.return_fields);
    }
    if !m.notes.is_empty() {
        push_str(&mut v, "\n  note: ");
        push_str(&mut v, m.notes);
    }
    v
}

/// The hook reference for Scheme code: an association list from each hook
/// point's name to a string describing its category, payload and returns,
/// with a `__module__` entry first.
pub fn generate_hooks_docs_alist() -> (r: String)
    ensures
        r@ == docs_header() + "\n"@ + doc_entries(hook_metadata_table()) + ")"@,
{
    let metas = hook_metadata();
    let ghost mv = metas_view(metas@);
    let mut out = copy_str(
        "'((__module__ . \"hook points — lifecycle hooks for plugins and synthesised tools\")",
    );
    push_str(&mut out, "\n");
    let ghost head = out@;
    let n = metas.len();
    let mut i: usize = 0;
    while i < n
        invariant
            n == metas@.len(),
            mv == metas_view(metas@),
            i <= n,
            out@ == head + doc_entries(mv.take(i as int)),
        decreases n - i,
    {
        let m = &metas[i];
        let value = doc_text_of(m);
        push_str(&mut out, "    (");
        push_str(&mut out, m.point.as_str());
        push_str(&mut out, " . \"");
        push_escaped(&mut out, &value);
        push_str(&mut out, "\")\n");
        proof {
            assert(mv.take(i + 1).drop_last() =~= mv.take(i as int));
            assert(mv.take(i + 1).last() == meta_view(*m));
        }
        i = i + 1;
    }
    assert(mv.take(n as int) =~= mv);
    push_str(&mut out, ")");
    out
}

} // verus!
