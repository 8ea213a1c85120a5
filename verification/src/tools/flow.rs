//! Flow tools: control flow, spawning, coordination, and model introspection.
//! call_agent, call_user, send_message, model_info, spawn_agent, summarize_content.

use vstd::prelude::*;

use super::{
    default_metadata, has_def_named, table_names, table_of, BuiltinToolDef, DefSummary,
    ToolMetadata, ToolPropertyDef,
};
use super::fs_write::{missing_param_msg, require_str_param};
use super::schema::{function_json, schema_json, schema_json_over};
use crate::error::{ErrorKind, ToolError};
use crate::json::{json_view, jsons_view, members_view, view_get_bool, view_get_str, Json, JsonView};
use crate::text::{
    copy_str, has_prefix, join_strings, join_with, push_str, str_eq, str_starts_with, trim_text,
    trimmed,
};

verus! {

pub const SEND_MESSAGE_TOOL_NAME: &'static str = "send_message";
pub const CALL_AGENT_TOOL_NAME: &'static str = "call_agent";
pub const CALL_USER_TOOL_NAME: &'static str = "call_user";
pub const MODEL_INFO_TOOL_NAME: &'static str = "model_info";
pub const SPAWN_AGENT_TOOL_NAME: &'static str = "spawn_agent";
pub const SUMMARIZE_CONTENT_TOOL_NAME: &'static str = "summarize_content";

/// The summaries of the flow tool definitions.
pub open spec fn flow_table() -> Seq<DefSummary> {
    seq![
        DefSummary {
            name: "send_message"@,
            required: seq!["to"@, "content"@],
            summary_params: seq!["to"@],
            property_names: seq!["to"@, "content"@, "from"@],
        },
        DefSummary {
            name: "call_user"@,
            required: Seq::<Seq<char>>::empty(),
            summary_params: Seq::<Seq<char>>::empty(),
            property_names: seq!["message"@],
        },
        DefSummary {
            name: "model_info"@,
            required: seq!["model"@],
            summary_params: seq!["model"@],
            property_names: seq!["model"@],
        },
        DefSummary {
            name: "spawn_agent"@,
            required: seq!["system_prompt"@, "input"@],
            summary_params: Seq::<Seq<char>>::empty(),
            property_names: seq!["system_prompt"@, "input"@, "model"@, "temperature"@, "max_tokens"@, "preset"@],
        },
        DefSummary {
            name: "summarize_content"@,
            required: seq!["source"@, "instructions"@],
            summary_params: seq!["source"@],
            property_names: seq!["source"@, "instructions"@, "model"@, "temperature"@, "max_tokens"@],
        },
    ]
}

/// All flow tool definitions.
pub fn flow_tool_defs() -> (r: Vec<BuiltinToolDef>)
    ensures
        table_of(r@) == flow_table(),
{
    let r = vec![
        BuiltinToolDef {
            name: "send_message",
            description: "Send a message to another context's inbox. The message will be delivered to the target context and shown to them before their next prompt.",
            properties: vec![
                ToolPropertyDef {
                    name: "to",
                    prop_type: "string",
                    description: "Target context name",
                    default: None,
                },
                ToolPropertyDef {
                    name: "content",
                    prop_type: "string",
                    description: "Message content",
                    default: None,
                },
                ToolPropertyDef {
                    name: "from",
                    prop_type: "string",
                    description: "Optional sender name (defaults to current context)",
                    default: None,
                },
            ],
            required: vec!["to", "content"],
            summary_params: vec!["to"],
        },
        BuiltinToolDef {
            name: "call_user",
            description: "End your turn immediately and return control to the user.",
            properties: vec![
                ToolPropertyDef {
                    name: "message",
                    prop_type: "string",
                    description: "Final message to show the user.",
                    default: None,
                },
            ],
            required: Vec::new(),
            summary_params: Vec::new(),
        },
        BuiltinToolDef {
            name: "model_info",
            description: "Look up metadata for a model: context window, max output tokens, pricing, capabilities, and parameter ranges. Use this to check model specifications before making recommendations or decisions about model selection.",
            properties: vec![
                ToolPropertyDef {
                    name: "model",
                    prop_type: "string",
                    description: "Model identifier (e.g. 'openrouter/auto')",
                    default: None,
                },
            ],
            required: vec!["model"],
            summary_params: vec!["model"],
        },
        BuiltinToolDef {
            name: "spawn_agent",
            description: "Spawn a sub-agent with a custom system prompt to process input. Returns the sub-agent's response. Use for analysis, summarization, translation, or any task benefiting from a focused system prompt.",
            properties: vec![
                ToolPropertyDef {
                    name: "system_prompt",
                    prop_type: "string",
                    description: "System prompt for the sub-agent",
                    default: None,
                },
                ToolPropertyDef {
                    name: "input",
                    prop_type: "string",
                    description: "Content for the sub-agent to process",
                    default: None,
                },
                ToolPropertyDef {
                    name: "model",
                    prop_type: "string",
                    description: "Model override (defaults to parent's model)",
                    default: None,
                },
                ToolPropertyDef {
                    name: "temperature",
                    prop_type: "number",
                    description: "Temperature override for the sub-agent",
                    default: None,
                },
                ToolPropertyDef {
                    name: "max_tokens",
                    prop_type: "integer",
                    description: "Max tokens override for the sub-agent",
                    default: None,
                },
                ToolPropertyDef {
                    name: "preset",
                    prop_type: "string",
                    description: "Named preset configuration for the sub-agent (dynamically populated)",
                    default: None,
                },
            ],
            required: vec!["system_prompt", "input"],
            summary_params: Vec::new(),
        },
        BuiltinToolDef {
            name: "summarize_content",
            description: "Read a file or fetch a URL, then summarize or process the content through a sub-agent with your instructions. Use for summarizing documents, extracting information, or analyzing content.",
            properties: vec![
                ToolPropertyDef {
                    name: "source",
                    prop_type: "string",
                    description: "File path or URL to read",
                    default: None,
                },
                ToolPropertyDef {
                    name: "instructions",
                    prop_type: "string",
                    description: "How to process/summarize the content",
                    default: None,
                },
                ToolPropertyDef {
                    name: "model",
                    prop_type: "string",
                    description: "Model override (defaults to parent's model)",
                    default: None,
                },
                ToolPropertyDef {
                    name: "temperature",
                    prop_type: "number",
                    description: "Temperature override for the sub-agent",
                    default: None,
                },
                ToolPropertyDef {
                    name: "max_tokens",
                    prop_type: "integer",
                    description: "Max tokens override for the sub-agent",
                    default: None,
                },
            ],
            required: vec!["source", "instructions"],
            summary_params: vec!["source"],
        },
    ];
    assert(table_of(r@) =~~= flow_table());
    r
}

// === Predicates ===

/// Whether a tool name is a flow tool.
pub fn is_flow_tool(name: &str) -> (r: bool)
    ensures
        r == table_names(flow_table()).contains(name@),
{
    has_def_named(&flow_tool_defs(), name)
}

/// The metadata of the flow tools that have non-default metadata.
pub open spec fn spec_flow_tool_metadata(name: Seq<char>) -> ToolMetadata {
    if name == CALL_AGENT_TOOL_NAME@ {
        ToolMetadata { parallel: false, flow_control: true, ends_turn: false }
    } else if name == CALL_USER_TOOL_NAME@ {
        ToolMetadata { parallel: false, flow_control: true, ends_turn: true }
    } else if name == SPAWN_AGENT_TOOL_NAME@ {
        ToolMetadata { parallel: false, flow_control: false, ends_turn: false }
    } else {
        default_metadata()
    }
}

/// Get metadata for flow tools. `call_agent` is not offered to the LLM but
/// keeps its metadata for the fallback mechanism and hook overrides.
pub fn flow_tool_metadata(name: &str) -> (m: ToolMetadata)
    ensures
        m == spec_flow_tool_metadata(name@),
{
    if str_eq(name, CALL_AGENT_TOOL_NAME) {
        ToolMetadata { parallel: false, flow_control: true, ends_turn: false }
    } else if str_eq(name, CALL_USER_TOOL_NAME) {
        ToolMetadata { parallel: false, flow_control: true, ends_turn: true }
    } else if str_eq(name, SPAWN_AGENT_TOOL_NAME) {
        ToolMetadata { parallel: false, flow_control: false, ends_turn: false }
    } else {
        ToolMetadata::new()
    }
}

/// The source is a URL (`http://` or `https://`).
pub open spec fn spec_is_url(source: Seq<char>) -> bool {
    has_prefix(source, "http://"@) || has_prefix(source, "https://"@)
}

/// Check if a source string is a URL (http:// or https://).
pub fn is_url(source: &str) -> (r: bool)
    ensures
        r == spec_is_url(source@),
{
    str_starts_with(source, "http://") || str_starts_with(source, "https://")
}

// === Handoff ===

/// Target for control handoff after tool execution.
#[derive(Debug, Clone)]
pub enum HandoffTarget {
    /// Continue with LLM processing.
    Agent { prompt: String },
    /// Return control to user.
    User { message: String },
}

/// The mathematical form of a handoff target.
pub enum TargetView {
    Agent(Seq<char>),
    User(Seq<char>),
}

impl View for HandoffTarget {
    type V = TargetView;

    open spec fn view(&self) -> TargetView {
        match self {
            HandoffTarget::Agent { prompt } => TargetView::Agent(prompt@),
            HandoffTarget::User { message } => TargetView::User(message@),
        }
    }
}

impl HandoffTarget {
    /// A copy of this target.
    pub fn duplicate(&self) -> (r: HandoffTarget)
        ensures
            r@ == self@,
    {
        match self {
            HandoffTarget::Agent { prompt } => HandoffTarget::Agent { prompt: copy_str(prompt.as_str()) },
            HandoffTarget::User { message } => HandoffTarget::User {
                message: copy_str(message.as_str()),
            },
        }
    }
}

impl Default for HandoffTarget {
    /// Continue with the agent and an empty prompt.
    fn default() -> (r: Self)
        ensures
            r@ == TargetView::Agent(Seq::empty()),
    {
        HandoffTarget::Agent { prompt: String::new() }
    }
}

/// Tracks the handoff decision during tool execution.
/// The last explicit call wins; otherwise the configured fallback applies.
#[derive(Debug)]
pub struct Handoff {
    next: Option<HandoffTarget>,
    fallback: HandoffTarget,
}

/// The mathematical form of a handoff: the pending explicit decision and the
/// fallback.
pub struct HandoffView {
    pub next: Option<TargetView>,
    pub fallback: TargetView,
}

impl View for Handoff {
    type V = HandoffView;

    closed spec fn view(&self) -> HandoffView {
        HandoffView {
            next: match self.next {
                Some(t) => Some(t@),
                None => None,
            },
            fallback: self.fallback@,
        }
    }
}

/// The decision that `take` hands out from state `h`.
pub open spec fn taken(h: HandoffView) -> TargetView {
    match h.next {
        Some(t) => t,
        None => h.fallback,
    }
}

impl Handoff {
    /// A handoff with no explicit decision and the given fallback.
    pub fn new(fallback: HandoffTarget) -> (h: Handoff)
        ensures
            h@ == (HandoffView { next: None, fallback: fallback@ }),
    {
        Handoff { next: None, fallback }
    }

    /// Request to continue with the agent.
    pub fn set_agent(&mut self, prompt: String)
        ensures
            final(self)@ == (HandoffView {
                next: Some(TargetView::Agent(prompt@)),
                fallback: old(self)@.fallback,
            }),
    {
        self.next = Some(HandoffTarget::Agent { prompt });
    }

    /// Request to return control to the user.
    pub fn set_user(&mut self, message: String)
        ensures
            final(self)@ == (HandoffView {
                next: Some(TargetView::User(message@)),
                fallback: old(self)@.fallback,
            }),
    {
        self.next = Some(HandoffTarget::User { message });
    }

    /// Take the handoff decision, resetting to the fallback for the next use.
    pub fn take(&mut self) -> (t: HandoffTarget)
        ensures
            t@ == taken(old(self)@),
            final(self)@ == (HandoffView { next: None, fallback: old(self)@.fallback }),
    {
        match self.next.take() {
            Some(t) => t,
            None => self.fallback.duplicate(),
        }
    }

    /// Override the fallback target (used by hooks).
    pub fn set_fallback(&mut self, target: HandoffTarget)
        ensures
            final(self)@ == (HandoffView { next: old(self)@.next, fallback: target@ }),
    {
        self.fallback = target;
    }

    /// Whether an explicit end-turn (call_user) has been requested.
    pub fn ends_turn_requested(&self) -> (r: bool)
        ensures
            r == (self@.next matches Some(TargetView::User(_))),
    {
        match &self.next {
            Some(HandoffTarget::User { .. }) => true,
            _ => false,
        }
    }
}

/// Taking the decision twice: the first take yields the explicit decision if
/// there is one, and the second always yields the fallback.
pub proof fn law_take_then_fallback(h: HandoffView)
    ensures
        taken(HandoffView { next: None, fallback: h.fallback }) == h.fallback,
        h.next matches Some(t) ==> taken(h) == t,
{
}

/// The last explicit request wins: after setting the agent or the user, the
/// decision taken is that request, whatever came before.
pub proof fn law_last_request_wins(h: HandoffView, s: Seq<char>)
    ensures
        taken(HandoffView { next: Some(TargetView::Agent(s)), fallback: h.fallback })
            == TargetView::Agent(s),
        taken(HandoffView { next: Some(TargetView::User(s)), fallback: h.fallback })
            == TargetView::User(s),
{
}

// === Sub-agent calls ===

/// What the results of the hooks run before a sub-agent call decide, hook
/// by hook: the first that gives a `response` string supplies the reply;
/// one that sets `block` ends the call with its `message` (or a default
/// message). `None`: make the call.
pub open spec fn spawn_hook_reply(results: Seq<(Seq<char>, JsonView)>) -> Option<Seq<char>>
    decreases results.len(),
{
    if results.len() == 0 {
        None
    } else {
        let r = results[0].1;
        match view_get_str(r, "response"@) {
            Some(s) => Some(s),
            None => if view_get_bool(r, "block"@) == Some(true) {
                Some(
                    match view_get_str(r, "message"@) {
                        Some(m) => m,
                        None => "Sub-agent call blocked by hook"@,
                    },
                )
            } else {
                spawn_hook_reply(results.drop_first())
            },
        }
    }
}

/// The reply that the `pre_spawn_agent` hook results give in place of the
/// sub-agent call, if any (see `spawn_hook_reply`).
pub fn pre_spawn_reply(results: &Vec<(String, Json)>) -> (r: Option<String>)
    ensures
        match r {
            Some(s) => spawn_hook_reply(members_view(results@)) == Some(s@),
            None => spawn_hook_reply(members_view(results@)) is None,
        },
{
    let ghost all = members_view(results@);
    let n = results.len();
    let mut i: usize = 0;
    assert(all.skip(0) =~= all);
    while i < n
        invariant
            n == results@.len(),
            all == members_view(results@),
            i <= n,
            spawn_hook_reply(all) == spawn_hook_reply(all.skip(i as int)),
        decreases n - i,
    {
        let r = &results[i].1;
        assert(all.skip(i as int)[0] == all[i as int]);
        assert(all.skip(i as int).drop_first() =~= all.skip(i + 1));
        match r.get_str("response") {
            Some(s) => {
                return Some(s);
            },
            None => {},
        }
        if r.get_bool("block") == Some(true) {
            let m = match r.get_str("message") {
                Some(m) => m,
                None => copy_str("Sub-agent call blocked by hook"),
            };
            return Some(m);
        }
        i = i + 1;
    }
    None
}

/// The input of a summarizing sub-agent call: the instructions, then the
/// content under a heading that names its source.
pub open spec fn summarize_input_text(
    instructions: Seq<char>,
    source: Seq<char>,
    content: Seq<char>,
) -> Seq<char> {
    "## Instructions\n"@ + instructions + "\n\n## Content from: "@ + source + "\n"@ + content
}

/// What `summarize_content` does once the content is read.
pub enum SummarizeStep {
    /// Reply with this text without a sub-agent call.
    Reply(String),
    /// Call a sub-agent with this system prompt and input.
    Spawn { system_prompt: String, input: String },
}

/// The step of `summarize_content` for `content` read from `source`: an
/// empty source is reported as such; otherwise a sub-agent is called with
/// the summarizing prompt, trimmed, and the instructions and content.
pub fn summarize_step(
    prompt: &str,
    source: &str,
    instructions: &str,
    content: &str,
) -> (r: SummarizeStep)
    ensures
        content@.len() == 0 ==> (r matches SummarizeStep::Reply(m) && m@ == "Source '"@ + source@
            + "' is empty."@),
        content@.len() > 0 ==> (r matches SummarizeStep::Spawn { system_prompt, input } && (
        system_prompt@ == trimmed(prompt@) && input@ == summarize_input_text(
            instructions@,
            source@,
            content@,
        ))),
{
    if content.is_empty() {
        let mut m = copy_str("Source '");
        push_str(&mut m, source);
        push_str(&mut m, "' is empty.");
        return SummarizeStep::Reply(m);
    }
    let mut input = copy_str("## Instructions\n");
    push_str(&mut input, instructions);
    push_str(&mut input, "\n\n## Content from: ");
    push_str(&mut input, source);
    push_str(&mut input, "\n");
    push_str(&mut input, content);
    SummarizeStep::Spawn { system_prompt: trim_text(prompt), input }
}

/// A flow tool call that the flow tools carry out themselves.
pub enum FlowRequest {
    /// `spawn_agent`: a sub-agent call with this system prompt and input.
    Spawn { system_prompt: String, input: String },
    /// `summarize_content`: a summary of `source` following `instructions`.
    Summarize { source: String, instructions: String },
}

/// The request a call of the flow tool `tool_name` makes, read from its
/// arguments: `spawn_agent` needs `system_prompt` and `input`,
/// `summarize_content` needs `source` and `instructions` (each a string);
/// other tools make none (`Ok(None)`).
pub fn flow_request(tool_name: &str, args: &Json) -> (r: Result<Option<FlowRequest>, ToolError>)
    ensures
        tool_name@ == SPAWN_AGENT_TOOL_NAME@ ==> match r {
            Ok(Some(FlowRequest::Spawn { system_prompt, input })) => view_get_str(
                json_view(*args),
                "system_prompt"@,
            ) == Some(system_prompt@) && view_get_str(json_view(*args), "input"@) == Some(input@),
            Ok(_) => false,
            Err(e) => e.kind == ErrorKind::InvalidInput && e.message@ == if view_get_str(
                json_view(*args),
                "system_prompt"@,
            ) is None {
                missing_param_msg("system_prompt"@)
            } else {
                missing_param_msg("input"@)
            } && (view_get_str(json_view(*args), "system_prompt"@) is None || view_get_str(
                json_view(*args),
                "input"@,
            ) is None),
        },
        tool_name@ == SUMMARIZE_CONTENT_TOOL_NAME@ ==> match r {
            Ok(Some(FlowRequest::Summarize { source, instructions })) => view_get_str(
                json_view(*args),
                "source"@,
            ) == Some(source@) && view_get_str(json_view(*args), "instructions"@) == Some(
                instructions@,
            ),
            Ok(_) => false,
            Err(e) => e.kind == ErrorKind::InvalidInput && e.message@ == if view_get_str(
                json_view(*args),
                "source"@,
            ) is None {
                missing_param_msg("source"@)
            } else {
                missing_param_msg("instructions"@)
            } && (view_get_str(json_view(*args), "source"@) is None || view_get_str(
                json_view(*args),
                "instructions"@,
            ) is None),
        },
        tool_name@ != SPAWN_AGENT_TOOL_NAME@ && tool_name@ != SUMMARIZE_CONTENT_TOOL_NAME@ ==> (r
            matches Ok(None)),
{
    proof {
        reveal_strlit("spawn_agent");
        reveal_strlit("summarize_content");
        assert(SPAWN_AGENT_TOOL_NAME@.len() != SUMMARIZE_CONTENT_TOOL_NAME@.len());
    }
    if str_eq(tool_name, SPAWN_AGENT_TOOL_NAME) {
        let system_prompt = match require_str_param(args, "system_prompt") {
            Ok(s) => s,
            Err(e) => return Err(e),
        };
        let input = match require_str_param(args, "input") {
            Ok(s) => s,
            Err(e) => return Err(e),
        };
        Ok(Some(FlowRequest::Spawn { system_prompt, input }))
    } else if str_eq(tool_name, SUMMARIZE_CONTENT_TOOL_NAME) {
        let source = match require_str_param(args, "source") {
            Ok(s) => s,
            Err(e) => return Err(e),
        };
        let instructions = match require_str_param(args, "instructions") {
            Ok(s) => s,
            Err(e) => return Err(e),
        };
        Ok(Some(FlowRequest::Summarize { source, instructions }))
    } else {
        Ok(None)
    }
}

// === Flow tools in API format ===

/// The description of `spawn_agent`'s `preset` parameter for the preset
/// capabilities of the configured cost tier.
pub open spec fn preset_description(capabilities: Seq<Seq<char>>) -> Seq<char> {
    if capabilities.len() == 0 {
        "Preset capability name (no presets configured for this tier)"@
    } else {
        "Preset capability name — one of: "@ + join_with(capabilities, ", "@)
            + " (cost tier set by config). Sets the model and default parameters for the sub-agent. Explicit model/temperature/max_tokens override preset defaults."@
    }
}

/// The API form of a flow tool definition: `spawn_agent`'s `preset`
/// parameter is described for the given capabilities.
pub open spec fn flow_api_json(d: BuiltinToolDef, capabilities: Seq<Seq<char>>) -> JsonView {
    if d.name@ == SPAWN_AGENT_TOOL_NAME@ {
        function_json(
            d.name@,
            d.description@,
            schema_json_over(d, Some(("preset"@, preset_description(capabilities)))),
        )
    } else {
        function_json(d.name@, d.description@, schema_json(d))
    }
}

/// The description of the `preset` parameter.
fn preset_description_text(capabilities: &[&str]) -> (r: String)
    ensures
        r@ == preset_description(capabilities@.map_values(|c: &str| c@)),
{
    if capabilities.len() == 0 {
        return copy_str("Preset capability name (no presets configured for this tier)");
    }
    let mut names: Vec<String> = Vec::new();
    let n = capabilities.len();
    let mut i: usize = 0;
    while i < n
        invariant
            n == capabilities@.len(),
            i <= n,
            names@.map_values(|x: String| x@) =~= capabilities@.take(i as int).map_values(
                |c: &str| c@,
            ),
        decreases n - i,
    {
        let ghost before = names@.map_values(|x: String| x@);
        names.push(copy_str(capabilities[i]));
        assert(names@.map_values(|x: String| x@) =~= before.push(capabilities@[i as int]@));
        assert(capabilities@.take(i + 1).map_values(|c: &str| c@) =~= capabilities@.take(
            i as int,
        ).map_values(|c: &str| c@).push(capabilities@[i as int]@));
        i = i + 1;
    }
    assert(capabilities@.take(n as int) =~= capabilities@);
    let mut r = copy_str("Preset capability name — one of: ");
    let joined = join_strings(&names, ", ");
    push_str(&mut r, joined.as_str());
    push_str(
        &mut r,
        " (cost tier set by config). Sets the model and default parameters for the sub-agent. Explicit model/temperature/max_tokens override preset defaults.",
    );
    r
}

/// The given flow tool definitions in API format, with `spawn_agent`'s
/// `preset` parameter described for the given capabilities.
pub fn flow_tools_to_api_format(defs: &Vec<BuiltinToolDef>, preset_capabilities: &[&str]) -> (r: Vec<
    Json,
>)
    ensures
        jsons_view(r@) == defs@.map_values(
            |d: BuiltinToolDef| flow_api_json(d, preset_capabilities@.map_values(|c: &str| c@)),
        ),
{
    let ghost caps = preset_capabilities@.map_values(|c: &str| c@);
    let desc = preset_description_text(preset_capabilities);
    let mut out: Vec<Json> = Vec::new();
    let n = defs.len();
    let mut i: usize = 0;
    while i < n
        invariant
            n == defs@.len(),
            caps == preset_capabilities@.map_values(|c: &str| c@),
            desc@ == preset_description(caps),
            i <= n,
            jsons_view(out@) =~= defs@.take(i as int).map_values(
                |d: BuiltinToolDef| flow_api_json(d, caps),
            ),
        decreases n - i,
    {
        let d = &defs[i];
        let j = if str_eq(d.name, SPAWN_AGENT_TOOL_NAME) {
            d.to_api_format_described("preset", desc.as_str())
        } else {
            d.to_api_format()
        };
        let ghost before = jsons_view(out@);
        out.push(j);
        assert(jsons_view(out@) =~= before.push(flow_api_json(*d, caps)));
        assert(defs@.take(i + 1).map_values(|d: BuiltinToolDef| flow_api_json(d, caps))
            =~= defs@.take(i as int).map_values(|d: BuiltinToolDef| flow_api_json(d, caps)).push(
            flow_api_json(*d, caps),
        ));
        i = i + 1;
    }
    assert(defs@.take(n as int) =~= defs@);
    out
}

/// All flow tools in API format, with `spawn_agent`'s `preset` parameter
/// described for the preset capabilities of the configured cost tier (or
/// as having none configured when the list is empty).
pub fn all_flow_tools_to_api_format(preset_capabilities: &[&str]) -> (r: Vec<Json>)
    ensures
        exists|defs: Seq<BuiltinToolDef>|
            table_of(defs) == flow_table() && jsons_view(r@) == defs.map_values(
                |d: BuiltinToolDef| flow_api_json(d, preset_capabilities@.map_values(|c: &str| c@)),
            ),
{
    let defs = flow_tool_defs();
    let r = flow_tools_to_api_format(&defs, preset_capabilities);
    assert(table_of(defs@) == flow_table());
    r
}

} // verus!
