//! Memory tools: reflection, goals, read_context, flock membership.
//! These tools read and write internal context state.

use vstd::prelude::*;

use crate::error::{ErrorKind, ToolError};
use crate::json::{
    array_of, json_view, jsons_view, members_view, object_of, str_member, view_get_str,
    view_get_u64, Json, JsonNumber, JsonView,
};
use crate::state::entries::{entries_view, EntryView, TranscriptEntry};
use crate::state::flocks::FlockContext;
use crate::text::{copy_str, decimal, push_decimal, push_str, str_eq};
use super::fs_write::{missing_param_msg, require_str_param};
use super::{table_of, BuiltinToolDef, DefSummary, ToolPropertyDef};

verus! {

pub const REFLECTION_TOOL_NAME: &'static str = "update_reflection";
pub const GOALS_TOOL_NAME: &'static str = "update_goals";
pub const READ_CONTEXT_TOOL_NAME: &'static str = "read_context";
pub const FLOCK_JOIN_TOOL_NAME: &'static str = "flock_join";
pub const FLOCK_LEAVE_TOOL_NAME: &'static str = "flock_leave";

/// The summaries of the memory tool definitions.
pub open spec fn memory_table() -> Seq<DefSummary> {
    seq![
        DefSummary {
            name: "update_reflection"@,
            required: seq!["content"@],
            summary_params: Seq::<Seq<char>>::empty(),
            property_names: seq!["content"@],
        },
        DefSummary {
            name: "update_goals"@,
            required: seq!["flock"@, "content"@],
            summary_params: seq!["flock"@],
            property_names: seq!["flock"@, "content"@],
        },
        DefSummary {
            name: "read_context"@,
            required: seq!["context_name"@],
            summary_params: seq!["context_name"@],
            property_names: seq!["context_name"@, "include_messages"@, "num_messages"@],
        },
        DefSummary {
            name: "flock_join"@,
            required: seq!["flock"@],
            summary_params: seq!["flock"@],
            property_names: seq!["flock"@],
        },
        DefSummary {
            name: "flock_leave"@,
            required: seq!["flock"@],
            summary_params: seq!["flock"@],
            property_names: seq!["flock"@],
        },
    ]
}

/// All memory tool definitions.
pub fn memory_tool_defs() -> (r: Vec<BuiltinToolDef>)
    ensures
        table_of(r@) == memory_table(),
{
    let r = vec![
        BuiltinToolDef {
            name: "update_reflection",
            description: "Update your persistent reflection/memory that persists across all contexts and sessions. Use this to store anything you want to remember: insights about the user, preferences, important facts, or notes to your future self. Keep it concise and organized. The content will completely replace the previous reflection.",
            properties: vec![
                ToolPropertyDef {
                    name: "content",
                    prop_type: "string",
                    description: "The new reflection content. This replaces the entire previous reflection.",
                    default: None,
                },
            ],
            required: vec!["content"],
            summary_params: Vec::new(),
        },
        BuiltinToolDef {
            name: "update_goals",
            description: "Update the goals for a flock. Goals are high-level objectives shared by all contexts in a flock. Use 'site' to update site-wide goals or a specific flock name for team goals.",
            properties: vec![
                ToolPropertyDef {
                    name: "flock",
                    prop_type: "string",
                    description: "The flock to update goals for ('site' for site-wide, or a named flock)",
                    default: None,
                },
                ToolPropertyDef {
                    name: "content",
                    prop_type: "string",
                    description: "The goals content (markdown format)",
                    default: None,
                },
            ],
            required: vec!["flock", "content"],
            summary_params: vec!["flock"],
        },
        BuiltinToolDef {
            name: "read_context",
            description: "Read the state of another context (read-only). Returns summary, todos, goals, and recent messages. Useful for inspecting sub-agents or coordinating with related contexts.",
            properties: vec![
                ToolPropertyDef {
                    name: "context_name",
                    prop_type: "string",
                    description: "Name of the context to read",
                    default: None,
                },
                ToolPropertyDef {
                    name: "include_messages",
                    prop_type: "string",
                    description: "Include recent messages (\"true\"/\"false\", default: \"true\")",
                    default: None,
                },
                ToolPropertyDef {
                    name: "num_messages",
                    prop_type: "integer",
                    description: "Number of recent messages to include (default: 5)",
                    default: Some(5),
                },
            ],
            required: vec!["context_name"],
            summary_params: vec!["context_name"],
        },
        BuiltinToolDef {
            name: "flock_join",
            description: "Join a flock (named group of contexts that share goals). Creates the flock if it doesn't exist.",
            properties: vec![
                ToolPropertyDef {
                    name: "flock",
                    prop_type: "string",
                    description: "Name of the flock to join (lowercase alphanumeric + hyphens)",
                    default: None,
                },
            ],
            required: vec!["flock"],
            summary_params: vec!["flock"],
        },
        BuiltinToolDef {
            name: "flock_leave",
            description: "Leave a flock. Cannot leave the site flock.",
            properties: vec![
                ToolPropertyDef {
                    name: "flock",
                    prop_type: "string",
                    description: "Name of the flock to leave",
                    default: None,
                },
            ],
            required: vec!["flock"],
            summary_params: vec!["flock"],
        },
    ];
    assert(table_of(r@) =~~= memory_table());
    r
}

// ---------------------------------------------------------------------------
// update_reflection and update_goals
// ---------------------------------------------------------------------------

/// The number of bytes of a text in UTF-8, as `str::len` gives it.
pub open spec fn byte_len(s: Seq<char>) -> nat {
    (vstd::utf8::encode_utf8(s).len() as usize) as nat
}

/// What an update_reflection call does: refuse content longer than the
/// limit (a reply to the model, not an error), or write it.
pub enum ReflectionAction {
    /// Reply with this message and write nothing.
    Refuse(String),
    /// Write `content` as the reflection and reply with `confirmation`.
    Write { content: String, confirmation: String },
}

/// The decision of an update_reflection call with arguments `args` and a
/// limit of `character_limit` bytes. Fails with `InvalidInput` when the
/// `content` argument is missing.
pub fn reflection_action(args: &Json, character_limit: usize) -> (r: Result<
    ReflectionAction,
    ToolError,
>)
    ensures
        match view_get_str(json_view(*args), "content"@) {
            None => r matches Err(e) && e.kind == ErrorKind::InvalidInput && e.message@
                == "Missing 'content' parameter"@,
            Some(c) => if byte_len(c) > character_limit {
                r matches Ok(ReflectionAction::Refuse(m)) && m@ == "Error: Content exceeds the "@
                    + decimal(character_limit as nat) + " character limit ("@ + decimal(byte_len(c))
                    + " characters provided). Please shorten your reflection."@
            } else {
                r matches Ok(ReflectionAction::Write { content, confirmation }) && content@ == c
                    && confirmation@ == "Reflection updated successfully ("@ + decimal(byte_len(c))
                    + " characters)."@
            },
        },
{
    let content = match args.get_str("content") {
        Some(c) => c,
        None => {
            return Err(
                ToolError::new(ErrorKind::InvalidInput, copy_str("Missing 'content' parameter")),
            );
        },
    };
    let len = content.as_str().len();
    if len > character_limit {
        let mut m = copy_str("Error: Content exceeds the ");
        push_decimal(&mut m, character_limit as u64);
        push_str(&mut m, " character limit (");
        push_decimal(&mut m, len as u64);
        push_str(&mut m, " characters provided). Please shorten your reflection.");
        return Ok(ReflectionAction::Refuse(m));
    }
    let mut confirmation = copy_str("Reflection updated successfully (");
    push_decimal(&mut confirmation, len as u64);
    push_str(&mut confirmation, " characters).");
    Ok(ReflectionAction::Write { content, confirmation })
}

/// The reply to a successful update_goals call.
pub fn goals_confirmation(flock: &str, content: &str) -> (r: String)
    ensures
        r@ == "Goals updated for flock '"@ + flock@ + "' ("@ + decimal(byte_len(content@))
            + " characters)."@,
{
    let mut m = copy_str("Goals updated for flock '");
    push_str(&mut m, flock);
    push_str(&mut m, "' (");
    push_decimal(&mut m, content.len() as u64);
    push_str(&mut m, " characters).");
    m
}

// ---------------------------------------------------------------------------
// read_context
// ---------------------------------------------------------------------------

/// The options of a read_context call: whether to include recent messages
/// (unless `include_messages` is a string other than `"true"`) and how many
/// (`num_messages`, 5 by default).
pub open spec fn read_context_options_of(args: JsonView) -> (bool, u64) {
    (
        match view_get_str(args, "include_messages"@) {
            Some(s) => s == "true"@,
            None => true,
        },
        match view_get_u64(args, "num_messages"@) {
            Some(n) => n,
            None => 5,
        },
    )
}

/// The options of a read_context call.
pub fn read_context_options(args: &Json) -> (r: (bool, u64))
    ensures
        r == read_context_options_of(json_view(*args)),
{
    let wanted = match args.get_str("include_messages") {
        Some(s) => str_eq(s.as_str(), "true"),
        None => true,
    };
    let n = match args.get_u64("num_messages") {
        Some(n) => n,
        None => 5,
    };
    (wanted, n)
}

/// The goals of each flock that has goals, attributed by flock name.
pub open spec fn flock_goals_json(fcs: Seq<FlockContext>) -> Seq<JsonView>
    decreases fcs.len(),
{
    if fcs.len() == 0 {
        Seq::empty()
    } else {
        let before = flock_goals_json(fcs.drop_last());
        match fcs.last().goals {
            Some(g) => before.push(
                JsonView::Object(
                    seq![
                        ("flock"@, JsonView::Str(fcs.last().flock_name@)),
                        ("goals"@, JsonView::Str(g@)),
                    ],
                ),
            ),
            None => before,
        }
    }
}

/// A recent message as read_context shows it.
pub open spec fn recent_message_json(e: EntryView) -> JsonView {
    JsonView::Object(
        seq![
            ("from"@, JsonView::Str(e.from)),
            ("content"@, JsonView::Str(e.content)),
            ("type"@, JsonView::Str(e.entry_type)),
        ],
    )
}

/// The last `n` entries of `es`, in order.
pub open spec fn last_entries(es: Seq<EntryView>, n: nat) -> Seq<EntryView> {
    es.skip(if n < es.len() { es.len() - n } else { 0 })
}

/// The report of a read_context call: the context's name, summary, todos
/// (its task table) and flock goals, and, when messages are wanted, the number of its
/// entries and the last `num_messages` of them (none when its entries
/// could not be read).
pub open spec fn read_context_json(
    name: Seq<char>,
    summary: Seq<char>,
    tasks: Seq<char>,
    flocks: Seq<FlockContext>,
    entries: Option<Seq<EntryView>>,
    include_messages: bool,
    num_messages: nat,
) -> JsonView {
    let base = seq![
        ("name"@, JsonView::Str(name)),
        ("summary"@, JsonView::Str(summary)),
        ("todos"@, JsonView::Str(tasks)),
        ("flock_goals"@, JsonView::Array(flock_goals_json(flocks))),
    ];
    if !include_messages {
        JsonView::Object(base)
    } else {
        match entries {
            Some(es) => JsonView::Object(
                base + seq![
                    ("message_count"@, JsonView::Number(JsonNumber::PosInt(es.len() as u64))),
                    (
                        "recent_messages"@,
                        JsonView::Array(
                            last_entries(es, num_messages).map_values(
                                |e: EntryView| recent_message_json(e),
                            ),
                        ),
                    ),
                ],
            ),
            None => JsonView::Object(
                base + seq![
                    ("message_count"@, JsonView::Number(JsonNumber::PosInt(0))),
                    ("recent_messages"@, JsonView::Array(Seq::empty())),
                ],
            ),
        }
    }
}

/// The goals entries of the flocks.
fn flock_goals_array(fcs: &[FlockContext]) -> (r: Vec<Json>)
    ensures
        jsons_view(r@) == flock_goals_json(fcs@),
{
    let mut out: Vec<Json> = Vec::new();
    let n = fcs.len();
    let mut i: usize = 0;
    while i < n
        invariant
            n == fcs@.len(),
            i <= n,
            jsons_view(out@) =~= flock_goals_json(fcs@.take(i as int)),
        decreases n - i,
    {
        let fc = &fcs[i];
        assert(fcs@.take(i + 1).drop_last() =~= fcs@.take(i as int));
        assert(fcs@.take(i + 1).last() == *fc);
        if let Some(g) = &fc.goals {
            let mut m: Vec<(String, Json)> = Vec::new();
            m.push(str_member("flock", fc.flock_name.as_str()));
            m.push(str_member("goals", g.as_str()));
            assert(members_view(m@) =~= seq![
                ("flock"@, JsonView::Str(fc.flock_name@)),
                ("goals"@, JsonView::Str(g@)),
            ]);
            let ghost before = jsons_view(out@);
            out.push(object_of(m));
            assert(jsons_view(out@) =~= before.push(json_view(out@.last())));
        }
        i = i + 1;
    }
    assert(fcs@.take(n as int) =~= fcs@);
    out
}

/// Builds the report of a read_context call from what was read about the
/// target context: its summary, its task table, its flocks, and its entries
/// (`None` when they could not be read).
pub fn read_context_report(
    context_name: &str,
    summary: &str,
    task_table: &str,
    flocks: &[FlockContext],
    entries: Option<&[TranscriptEntry]>,
    include_messages: bool,
    num_messages: u64,
) -> (r: Json)
    ensures
        json_view(r) == read_context_json(
            context_name@,
            summary@,
            task_table@,
            flocks@,
            match entries {
                Some(es) => Some(entries_view(es@)),
                None => None,
            },
            include_messages,
            num_messages as nat,
        ),
{
    let goals = flock_goals_array(flocks);
    let ghost gv = jsons_view(goals@);
    let mut m: Vec<(String, Json)> = Vec::new();
    m.push(str_member("name", context_name));
    m.push(str_member("summary", summary));
    m.push(str_member("todos", task_table));
    m.push((copy_str("flock_goals"), array_of(goals)));
    let ghost base = members_view(m@);
    assert(base =~= seq![
        ("name"@, JsonView::Str(context_name@)),
        ("summary"@, JsonView::Str(summary@)),
        ("todos"@, JsonView::Str(task_table@)),
        ("flock_goals"@, JsonView::Array(flock_goals_json(flocks@))),
    ]);
    if include_messages {
        match entries {
            Some(es) => {
                let ghost ev = entries_view(es@);
                let total = es.len();
                let start = if (num_messages as u128) < (total as u128) {
                    total - num_messages as usize
                } else {
                    0
                };
                let mut recent: Vec<Json> = Vec::new();
                let mut i: usize = start;
                while i < total
                    invariant
                        start <= i <= total,
                        total == es@.len(),
                        ev == entries_view(es@),
                        jsons_view(recent@) =~= ev.subrange(start as int, i as int).map_values(
                            |e: EntryView| recent_message_json(e),
                        ),
                    decreases total - i,
                {
                    let e = &es[i];
                    let mut mm: Vec<(String, Json)> = Vec::new();
                    mm.push(str_member("from", e.from.as_str()));
                    mm.push(str_member("content", e.content.as_str()));
                    mm.push(str_member("type", e.entry_type.as_str()));
                    assert(members_view(mm@) =~= seq![
                        ("from"@, JsonView::Str(e@.from)),
                        ("content"@, JsonView::Str(e@.content)),
                        ("type"@, JsonView::Str(e@.entry_type)),
                    ]);
                    let ghost before = jsons_view(recent@);
                    recent.push(object_of(mm));
                    assert(ev[i as int] == e@);
                    assert(jsons_view(recent@) =~= before.push(recent_message_json(e@)));
                    assert(ev.subrange(start as int, i + 1).map_values(
                        |e: EntryView| recent_message_json(e),
                    ) =~= ev.subrange(start as int, i as int).map_values(
                        |e: EntryView| recent_message_json(e),
                    ).push(recent_message_json(ev[i as int])));
                    i = i + 1;
                }
                assert(ev.subrange(start as int, total as int) =~= last_entries(ev, num_messages as nat));
                m.push((copy_str("message_count"), Json::Number(JsonNumber::PosInt(total as u64))));
                m.push((copy_str("recent_messages"), array_of(recent)));
                assert(members_view(m@) =~= base + seq![
                    ("message_count"@, JsonView::Number(JsonNumber::PosInt(ev.len() as u64))),
                    (
                        "recent_messages"@,
                        JsonView::Array(
                            last_entries(ev, num_messages as nat).map_values(
                                |e: EntryView| recent_message_json(e),
                            ),
                        ),
                    ),
                ]);
            },
            None => {
                m.push((copy_str("message_count"), Json::Number(JsonNumber::PosInt(0))));
                let empty: Vec<Json> = Vec::new();
                assert(jsons_view(empty@) =~= Seq::<JsonView>::empty());
                m.push((copy_str("recent_messages"), array_of(empty)));
                assert(members_view(m@) =~= base + seq![
                    ("message_count"@, JsonView::Number(JsonNumber::PosInt(0))),
                    ("recent_messages"@, JsonView::Array(Seq::empty())),
                ]);
            },
        }
    }
    object_of(m)
}

// ---------------------------------------------------------------------------
// Which memory tool call is made
// ---------------------------------------------------------------------------

/// A memory tool call with the arguments it needs.
pub enum MemoryRequest {
    /// update_goals: write `content` as the goals of `flock`.
    Goals { flock: String, content: String },
    /// update_reflection: decided by `reflection_action` under the
    /// configured character limit.
    Reflection,
    /// read_context: a report on the context `target`.
    ReadContext { target: String },
    /// flock_join: add the calling context to `flock`.
    FlockJoin { flock: String },
    /// flock_leave: remove the calling context from `flock`.
    FlockLeave { flock: String },
}

/// The call of the memory tool `name` with arguments `args`: `None` exactly
/// when `name` is not a memory tool; otherwise the request, or the error for
/// a missing string parameter (`flock`, then `content` for update_goals;
/// `context_name` for read_context).
pub fn memory_request(name: &str, args: &Json) -> (r: Option<Result<MemoryRequest, ToolError>>)
    ensures
        name@ == GOALS_TOOL_NAME@ ==> match r {
            Some(Ok(MemoryRequest::Goals { flock, content })) => view_get_str(
                json_view(*args),
                "flock"@,
            ) == Some(flock@) && view_get_str(json_view(*args), "content"@) == Some(content@),
            Some(Err(e)) => e.kind == ErrorKind::InvalidInput && if view_get_str(
                json_view(*args),
                "flock"@,
            ) is None {
                e.message@ == missing_param_msg("flock"@)
            } else {
                view_get_str(json_view(*args), "content"@) is None && e.message@
                    == missing_param_msg("content"@)
            },
            _ => false,
        },
        name@ == REFLECTION_TOOL_NAME@ ==> (r matches Some(Ok(MemoryRequest::Reflection))),
        name@ == READ_CONTEXT_TOOL_NAME@ ==> match view_get_str(json_view(*args), "context_name"@) {
            Some(t) => r matches Some(Ok(MemoryRequest::ReadContext { target })) && target@ == t,
            None => r matches Some(Err(e)) && e.kind == ErrorKind::InvalidInput && e.message@
                == missing_param_msg("context_name"@),
        },
        name@ == FLOCK_JOIN_TOOL_NAME@ ==> match view_get_str(json_view(*args), "flock"@) {
            Some(f) => r matches Some(Ok(MemoryRequest::FlockJoin { flock })) && flock@ == f,
            None => r matches Some(Err(e)) && e.kind == ErrorKind::InvalidInput && e.message@
                == missing_param_msg("flock"@),
        },
        name@ == FLOCK_LEAVE_TOOL_NAME@ ==> match view_get_str(json_view(*args), "flock"@) {
            Some(f) => r matches Some(Ok(MemoryRequest::FlockLeave { flock })) && flock@ == f,
            None => r matches Some(Err(e)) && e.kind == ErrorKind::InvalidInput && e.message@
                == missing_param_msg("flock"@),
        },
        name@ != GOALS_TOOL_NAME@ && name@ != REFLECTION_TOOL_NAME@ && name@
            != READ_CONTEXT_TOOL_NAME@ && name@ != FLOCK_JOIN_TOOL_NAME@ && name@
            != FLOCK_LEAVE_TOOL_NAME@ ==> r is None,
{
    proof {
        reveal_strlit("update_goals");
        reveal_strlit("update_reflection");
        reveal_strlit("read_context");
        reveal_strlit("flock_join");
        reveal_strlit("flock_leave");
        assert(GOALS_TOOL_NAME@.len() == 12 && READ_CONTEXT_TOOL_NAME@.len() == 12);
        assert(REFLECTION_TOOL_NAME@.len() == 17);
        assert(FLOCK_JOIN_TOOL_NAME@.len() == 10 && FLOCK_LEAVE_TOOL_NAME@.len() == 11);
        assert(GOALS_TOOL_NAME@[0] != READ_CONTEXT_TOOL_NAME@[0]);
    }
    if str_eq(name, GOALS_TOOL_NAME) {
        let flock = match require_str_param(args, "flock") {
            Ok(f) => f,
            Err(e) => return Some(Err(e)),
        };
        let content = match require_str_param(args, "content") {
            Ok(c) => c,
            Err(e) => return Some(Err(e)),
        };
        Some(Ok(MemoryRequest::Goals { flock, content }))
    } else if str_eq(name, REFLECTION_TOOL_NAME) {
        Some(Ok(MemoryRequest::Reflection))
    } else if str_eq(name, READ_CONTEXT_TOOL_NAME) {
        match require_str_param(args, "context_name") {
            Ok(target) => Some(Ok(MemoryRequest::ReadContext { target })),
            Err(e) => Some(Err(e)),
        }
    } else if str_eq(name, FLOCK_JOIN_TOOL_NAME) {
        match require_str_param(args, "flock") {
            Ok(flock) => Some(Ok(MemoryRequest::FlockJoin { flock })),
            Err(e) => Some(Err(e)),
        }
    } else if str_eq(name, FLOCK_LEAVE_TOOL_NAME) {
        match require_str_param(args, "flock") {
            Ok(flock) => Some(Ok(MemoryRequest::FlockLeave { flock })),
            Err(e) => Some(Err(e)),
        }
    } else {
        None
    }
}

/// The reply to a successful flock_join (`joined`) or flock_leave call.
pub fn flock_membership_reply(joined: bool, flock: &str) -> (r: String)
    ensures
        r@ == if joined {
            "Joined flock '"@ + flock@ + "'."@
        } else {
            "Left flock '"@ + flock@ + "'."@
        },
{
    let mut m = if joined {
        copy_str("Joined flock '")
    } else {
        copy_str("Left flock '")
    };
    push_str(&mut m, flock);
    push_str(&mut m, "'.");
    m
}

} // verus!
