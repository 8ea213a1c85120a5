//! What saving a conversation and loading it back gives: every message comes
//! back with its role, its content, the id of the call it answers and the
//! calls it makes.

use vstd::prelude::*;

use crate::json::{view_get, view_get_str, JsonView};
use super::entries::{EntryView, ENTRY_TYPE_MESSAGE, ENTRY_TYPE_TOOL_CALL, ENTRY_TYPE_TOOL_RESULT};
use super::messages::{
    call_entry, call_id, call_json, calls_message_json, chat_core, core_of, entries_for,
    entries_of_messages, is_chat_message, lemma_leading_calls_exact, lemma_leading_results_exact,
    leading_calls, leading_results, message_json, messages_of, nested_str_or, nonempty_id,
    paired_id, result_json, results_json, str_or, EntryCore,
};

verus! {

/// One turn of a conversation: a plain chat message, or an assistant
/// message with tool calls followed by the tool messages that answer them.
pub enum Turn {
    Chat(JsonView),
    Calls(JsonView, Seq<JsonView>),
}

/// The messages of one turn, in order.
pub open spec fn turn_messages(t: Turn) -> Seq<JsonView> {
    match t {
        Turn::Chat(m) => seq![m],
        Turn::Calls(a, replies) => seq![a] + replies,
    }
}

/// The messages of a conversation told turn by turn.
pub open spec fn conversation(turns: Seq<Turn>) -> Seq<JsonView>
    decreases turns.len(),
{
    if turns.len() == 0 {
        Seq::empty()
    } else {
        turn_messages(turns[0]) + conversation(turns.drop_first())
    }
}

/// The `tool_calls` of a message, when it carries an array of them.
pub open spec fn tool_calls_of(m: JsonView) -> Seq<JsonView> {
    match view_get(m, "tool_calls"@) {
        Some(JsonView::Array(calls)) => calls,
        _ => Seq::empty(),
    }
}

/// Whether a message carries an array of tool calls.
pub open spec fn has_tool_calls(m: JsonView) -> bool {
    view_get(m, "tool_calls"@) matches Some(JsonView::Array(_))
}

/// A tool call as the model writes it: a non-empty `id`, `type`
/// `function`, and a `function` with a string `name` and string
/// `arguments`.
pub open spec fn well_formed_call(tc: JsonView) -> bool {
    &&& match view_get_str(tc, "id"@) {
        Some(id) => id.len() > 0,
        None => false,
    }
    &&& view_get_str(tc, "type"@) == Some("function"@)
    &&& match view_get(tc, "function"@) {
        Some(f) => view_get_str(f, "name"@) is Some && view_get_str(f, "arguments"@) is Some,
        None => false,
    }
}

/// A tool message answering the call with id `id`.
pub open spec fn is_reply_to(m: JsonView, id: Seq<char>) -> bool {
    &&& str_or(m, "role"@, Seq::empty()) == "tool"@
    &&& str_or(m, "tool_call_id"@, Seq::empty()) == id
    &&& !has_tool_calls(m)
}

/// A turn as a conversation holds it: a user or assistant message without
/// tool calls and without a `tool_call_id`; or an assistant message without
/// content whose non-empty list of well-formed calls is answered at once,
/// call by call and in order, by tool messages.
pub open spec fn valid_turn(t: Turn) -> bool {
    match t {
        Turn::Chat(m) => is_chat_message(m) && str_or(m, "tool_call_id"@, Seq::empty())
            == Seq::<char>::empty(),
        Turn::Calls(a, replies) => {
            &&& str_or(a, "role"@, Seq::empty()) == "assistant"@
            &&& has_tool_calls(a)
            &&& str_or(a, "content"@, Seq::empty()) == Seq::<char>::empty()
            &&& str_or(a, "tool_call_id"@, Seq::empty()) == Seq::<char>::empty()
            &&& replies.len() > 0
            &&& tool_calls_of(a).len() == replies.len()
            &&& forall|j: int|
                0 <= j < replies.len() ==> well_formed_call(#[trigger] tool_calls_of(a)[j])
                    && is_reply_to(replies[j], str_or(tool_calls_of(a)[j], "id"@, Seq::empty()))
        },
    }
}

/// What identifies a tool call: its id, its type, and its function's name
/// and arguments.
pub open spec fn call_summary(tc: JsonView) -> (Seq<char>, Seq<char>, Seq<char>, Seq<char>) {
    (
        str_or(tc, "id"@, Seq::empty()),
        str_or(tc, "type"@, Seq::empty()),
        nested_str_or(tc, "function"@, "name"@, Seq::empty()),
        nested_str_or(tc, "function"@, "arguments"@, Seq::empty()),
    )
}

/// The calls a message makes, summarised; `None` when it makes none.
pub open spec fn calls_summary(m: JsonView) -> Option<Seq<(Seq<char>, Seq<char>, Seq<char>, Seq<char>)>> {
    match view_get(m, "tool_calls"@) {
        Some(JsonView::Array(calls)) => Some(calls.map_values(|tc: JsonView| call_summary(tc))),
        _ => None,
    }
}

/// Two messages agree on role, content, the call answered and the calls
/// made (only their `_id` may differ).
pub open spec fn same_message(l: JsonView, m: JsonView) -> bool {
    &&& str_or(l, "role"@, Seq::empty()) == str_or(m, "role"@, Seq::empty())
    &&& str_or(l, "content"@, Seq::empty()) == str_or(m, "content"@, Seq::empty())
    &&& str_or(l, "tool_call_id"@, Seq::empty()) == str_or(m, "tool_call_id"@, Seq::empty())
    &&& calls_summary(l) == calls_summary(m)
}

/// Saving messages one after another saves each part in turn.
proof fn lemma_entries_append(a: Seq<JsonView>, b: Seq<JsonView>, ctx: Seq<char>)
    ensures
        entries_of_messages(a + b, ctx) == entries_of_messages(a, ctx) + entries_of_messages(b, ctx),
    decreases b.len(),
{
    if b.len() == 0 {
        assert(a + b =~= a);
        assert(entries_of_messages(b, ctx) =~= Seq::<EntryCore>::empty());
        assert(entries_of_messages(a, ctx) + entries_of_messages(b, ctx) =~= entries_of_messages(a, ctx));
    } else {
        assert((a + b).drop_last() =~= a + b.drop_last());
        assert((a + b).last() == b.last());
        lemma_entries_append(a, b.drop_last(), ctx);
        assert(entries_of_messages(a, ctx) + entries_of_messages(b.drop_last(), ctx) + entries_for(
            b.last(),
            ctx,
        ) =~= entries_of_messages(a, ctx) + (entries_of_messages(b.drop_last(), ctx) + entries_for(
            b.last(),
            ctx,
        )));
    }
}

/// The member names met below differ from one another.
proof fn lemma_member_names()
    ensures
        "_id"@ != "role"@,
        "_id"@ != "content"@,
        "_id"@ != "tool_call_id"@,
        "_id"@ != "tool_calls"@,
        "role"@ != "content"@,
        "role"@ != "tool_call_id"@,
        "role"@ != "tool_calls"@,
        "content"@ != "tool_call_id"@,
        "content"@ != "tool_calls"@,
        "tool_call_id"@ != "tool_calls"@,
        "tool_calls"@ != "content"@,
        "id"@ != "type"@,
        "id"@ != "function"@,
        "type"@ != "function"@,
        "name"@ != "arguments"@,
{
    reveal_strlit("_id");
    reveal_strlit("role");
    reveal_strlit("content");
    reveal_strlit("tool_call_id");
    reveal_strlit("tool_calls");
    reveal_strlit("id");
    reveal_strlit("type");
    reveal_strlit("function");
    reveal_strlit("name");
    reveal_strlit("arguments");
    assert("_id"@.len() == 3 && "role"@.len() == 4 && "content"@.len() == 7);
    assert("tool_call_id"@.len() == 12 && "tool_calls"@.len() == 10);
    assert("id"@.len() == 2 && "type"@.len() == 4 && "function"@.len() == 8);
    assert("name"@.len() == 4 && "arguments"@.len() == 9);
}

/// What a loaded chat message holds.
proof fn lemma_message_json_fields(e: EntryView)
    ensures
        str_or(message_json(e), "role"@, Seq::empty()) == (if e.to == "user"@ {
            "assistant"@
        } else {
            "user"@
        }),
        str_or(message_json(e), "content"@, Seq::empty()) == e.content,
        str_or(message_json(e), "tool_call_id"@, Seq::empty()) == Seq::<char>::empty(),
        calls_summary(message_json(e)) is None,
{
    lemma_member_names();
    reveal_with_fuel(crate::json::assoc_get, 4);
}

/// What a loaded tool message holds.
proof fn lemma_result_json_fields(r: EntryView, id: Seq<char>)
    ensures
        str_or(result_json(r, id), "role"@, Seq::empty()) == "tool"@,
        str_or(result_json(r, id), "content"@, Seq::empty()) == r.content,
        str_or(result_json(r, id), "tool_call_id"@, Seq::empty()) == id,
        calls_summary(result_json(r, id)) is None,
{
    lemma_member_names();
    reveal_with_fuel(crate::json::assoc_get, 5);
}

/// What a loaded call holds.
proof fn lemma_call_json_fields(e: EntryView)
    ensures
        call_summary(call_json(e)) == (call_id(e), "function"@, e.to, e.content),
{
    lemma_member_names();
    reveal_with_fuel(crate::json::assoc_get, 4);
}

/// What a loaded assistant message with calls holds.
proof fn lemma_calls_message_fields(calls: Seq<EntryView>)
    requires
        calls.len() > 0,
    ensures
        str_or(calls_message_json(calls), "role"@, Seq::empty()) == "assistant"@,
        str_or(calls_message_json(calls), "content"@, Seq::empty()) == Seq::<char>::empty(),
        str_or(calls_message_json(calls), "tool_call_id"@, Seq::empty()) == Seq::<char>::empty(),
        calls_summary(calls_message_json(calls)) == Some(
            calls.map_values(|c: EntryView| call_summary(call_json(c))),
        ),
{
    lemma_member_names();
    reveal_with_fuel(crate::json::assoc_get, 4);
    let js = calls.map_values(|c: EntryView| call_json(c));
    assert(js.map_values(|tc: JsonView| call_summary(tc)) =~= calls.map_values(
        |c: EntryView| call_summary(call_json(c)),
    ));
}

/// The entry a tool message is saved as.
pub open spec fn reply_core(m: JsonView, ctx: Seq<char>) -> EntryCore {
    EntryCore {
        from: "tool"@,
        to: ctx,
        content: str_or(m, "content"@, Seq::empty()),
        entry_type: ENTRY_TYPE_TOOL_RESULT@,
        tool_call_id: nonempty_id(str_or(m, "tool_call_id"@, Seq::empty())),
    }
}

/// The roles met below differ from one another.
proof fn lemma_role_names()
    ensures
        "user"@ != "tool"@,
        "user"@ != "system"@,
        "user"@ != "assistant"@,
        "assistant"@ != "system"@,
        "tool"@ != "system"@,
        "tool"@ != "assistant"@,
        ENTRY_TYPE_MESSAGE@ != ENTRY_TYPE_TOOL_CALL@,
        ENTRY_TYPE_MESSAGE@ != ENTRY_TYPE_TOOL_RESULT@,
        ENTRY_TYPE_TOOL_CALL@ != ENTRY_TYPE_TOOL_RESULT@,
{
    reveal_strlit("user");
    reveal_strlit("tool");
    reveal_strlit("system");
    reveal_strlit("assistant");
    reveal_strlit("message");
    reveal_strlit("tool_call");
    reveal_strlit("tool_result");
    assert("user"@[0] != "tool"@[0]);
    assert("user"@.len() != "system"@.len());
    assert("user"@.len() != "assistant"@.len());
    assert("assistant"@.len() != "system"@.len());
    assert("tool"@.len() != "system"@.len());
    assert("tool"@.len() != "assistant"@.len());
    assert(ENTRY_TYPE_MESSAGE@.len() == 7 && ENTRY_TYPE_TOOL_CALL@.len() == 9);
    assert(ENTRY_TYPE_TOOL_RESULT@.len() == 11);
}

/// Tool messages are saved one result entry each.
proof fn lemma_reply_entries(ms: Seq<JsonView>, ctx: Seq<char>)
    requires
        forall|i: int| 0 <= i < ms.len() ==> str_or(#[trigger] ms[i], "role"@, Seq::empty()) == "tool"@,
    ensures
        entries_of_messages(ms, ctx) == ms.map_values(|m: JsonView| reply_core(m, ctx)),
    decreases ms.len(),
{
    lemma_role_names();
    if ms.len() > 0 {
        let d = ms.drop_last();
        assert forall|i: int| 0 <= i < d.len() implies str_or(#[trigger] d[i], "role"@, Seq::empty())
            == "tool"@ by {
            assert(d[i] == ms[i]);
        }
        lemma_reply_entries(d, ctx);
        assert(str_or(ms[ms.len() - 1], "role"@, Seq::empty()) == "tool"@);
        assert(entries_for(ms.last(), ctx) =~= seq![reply_core(ms.last(), ctx)]);
        assert(ms.map_values(|m: JsonView| reply_core(m, ctx)) =~= d.map_values(
            |m: JsonView| reply_core(m, ctx),
        ).push(reply_core(ms.last(), ctx)));
    } else {
        assert(ms.map_values(|m: JsonView| reply_core(m, ctx)) =~= Seq::<EntryCore>::empty());
    }
}

/// One message is saved as its own entries.
proof fn lemma_single_entries(m: JsonView, ctx: Seq<char>)
    ensures
        entries_of_messages(seq![m], ctx) == entries_for(m, ctx),
{
    let one = seq![m];
    assert(one.drop_last() =~= Seq::<JsonView>::empty());
    assert(one.last() == m);
    assert(entries_of_messages(Seq::<JsonView>::empty(), ctx) == Seq::<EntryCore>::empty());
    assert(entries_of_messages(one, ctx) == entries_of_messages(one.drop_last(), ctx) + entries_for(
        m,
        ctx,
    ));
    assert(Seq::<EntryCore>::empty() + entries_for(m, ctx) =~= entries_for(m, ctx));
}

/// The entries a turn is saved as.
pub open spec fn turn_cores(t: Turn, ctx: Seq<char>) -> Seq<EntryCore> {
    match t {
        Turn::Chat(m) => seq![chat_core(m, ctx)],
        Turn::Calls(a, replies) => tool_calls_of(a).map_values(|tc: JsonView| call_entry(tc, ctx))
            + replies.map_values(|m: JsonView| reply_core(m, ctx)),
    }
}

/// A valid turn is saved as `turn_cores`.
proof fn lemma_turn_entries(t: Turn, ctx: Seq<char>)
    requires
        valid_turn(t),
    ensures
        entries_of_messages(turn_messages(t), ctx) == turn_cores(t, ctx),
{
    lemma_role_names();
    match t {
        Turn::Chat(m) => {
            lemma_single_entries(m, ctx);
            assert(entries_for(m, ctx) =~= seq![chat_core(m, ctx)]);
        },
        Turn::Calls(a, replies) => {
            lemma_entries_append(seq![a], replies, ctx);
            lemma_single_entries(a, ctx);
            assert forall|i: int| 0 <= i < replies.len() implies str_or(
                #[trigger] replies[i],
                "role"@,
                Seq::empty(),
            ) == "tool"@ by {
                assert(well_formed_call(tool_calls_of(a)[i]));
            }
            lemma_reply_entries(replies, ctx);
            assert(entries_for(a, ctx) == tool_calls_of(a).map_values(
                |tc: JsonView| call_entry(tc, ctx),
            ));
        },
    }
}

/// The number of entries a turn is saved as.
pub open spec fn turn_len(t: Turn) -> nat {
    match t {
        Turn::Chat(_) => 1,
        Turn::Calls(_, replies) => 2 * replies.len(),
    }
}

/// The messages loaded from the entries `block` that a turn was saved as.
pub open spec fn loaded_turn(t: Turn, block: Seq<EntryView>) -> Seq<JsonView> {
    match t {
        Turn::Chat(_) => seq![message_json(block[0])],
        Turn::Calls(_, replies) => {
            let k = replies.len() as int;
            seq![calls_message_json(block.take(k))] + results_json(
                block.take(k),
                block.subrange(k, 2 * k),
            )
        },
    }
}

/// Loading the entries of a valid turn, followed by more entries, gives the
/// turn's messages followed by what the rest gives.
proof fn lemma_turn_loads(t: Turn, ctx: Seq<char>, block: Seq<EntryView>, rest: Seq<EntryView>)
    requires
        valid_turn(t),
        block.map_values(|e: EntryView| core_of(e)) == turn_cores(t, ctx),
    ensures
        block.len() == turn_len(t),
        messages_of(block + rest) == loaded_turn(t, block) + messages_of(rest),
{
    lemma_role_names();
    let s = block + rest;
    let cores = block.map_values(|e: EntryView| core_of(e));
    match t {
        Turn::Chat(m) => {
            assert(cores.len() == 1);
            assert(core_of(block[0]) == cores[0]);
            assert(s[0] == block[0]);
            assert(s.drop_first() =~= rest);
        },
        Turn::Calls(a, replies) => {
            let k = replies.len() as int;
            let calls = tool_calls_of(a);
            assert(cores.len() == 2 * k);
            assert forall|i: int| 0 <= i < k implies #[trigger] s[i].entry_type == ENTRY_TYPE_TOOL_CALL@ by {
                assert(s[i] == block[i]);
                assert(core_of(block[i]) == cores[i]);
                assert(cores[i] == call_entry(calls[i], ctx));
            }
            assert(s[k] == block[k]);
            assert(core_of(block[k]) == cores[k]);
            assert(cores[k] == reply_core(replies[0], ctx));
            lemma_leading_calls_exact(s, k);
            let after = s.skip(k);
            assert forall|i: int| 0 <= i < k implies #[trigger] after[i].entry_type
                == ENTRY_TYPE_TOOL_RESULT@ by {
                assert(after[i] == block[k + i]);
                assert(core_of(block[k + i]) == cores[k + i]);
                assert(cores[k + i] == reply_core(replies[i], ctx));
            }
            lemma_leading_results_exact(after, k as nat, k);
            assert(s[0].entry_type == ENTRY_TYPE_TOOL_CALL@);
            assert(s.take(k) =~= block.take(k));
            assert(after.take(k) =~= block.subrange(k, 2 * k));
            assert(after.skip(k) =~= rest);
            assert(leading_calls(s) == k);
            assert(leading_results(after, k as nat) == k);
        },
    }
}

/// A well-formed call is loaded back with its id, type, name and arguments.
proof fn lemma_call_round_trip(tc: JsonView, e: EntryView, ctx: Seq<char>)
    requires
        well_formed_call(tc),
        core_of(e) == call_entry(tc, ctx),
    ensures
        call_summary(call_json(e)) == call_summary(tc),
        call_id(e) == str_or(tc, "id"@, Seq::empty()),
{
    lemma_call_json_fields(e);
    reveal_strlit("function");
    let f = view_get(tc, "function"@).unwrap();
    assert(view_get_str(f, "name"@) is Some);
    assert(view_get_str(f, "arguments"@) is Some);
    let id = view_get_str(tc, "id"@).unwrap();
    assert(id.len() > 0);
    assert(str_or(tc, "id"@, Seq::empty()) == id);
}

/// The messages loaded from a valid turn agree with the turn's messages.
proof fn lemma_turn_same(t: Turn, ctx: Seq<char>, block: Seq<EntryView>)
    requires
        valid_turn(t),
        ctx != "user"@,
        block.map_values(|e: EntryView| core_of(e)) == turn_cores(t, ctx),
    ensures
        loaded_turn(t, block).len() == turn_messages(t).len(),
        forall|i: int|
            0 <= i < turn_messages(t).len() ==> same_message(
                #[trigger] loaded_turn(t, block)[i],
                turn_messages(t)[i],
            ),
{
    lemma_role_names();
    let cores = block.map_values(|e: EntryView| core_of(e));
    match t {
        Turn::Chat(m) => {
            assert(cores.len() == 1);
            assert(core_of(block[0]) == cores[0]);
            lemma_message_json_fields(block[0]);
            assert(same_message(loaded_turn(t, block)[0], turn_messages(t)[0]));
        },
        Turn::Calls(a, replies) => {
            let k = replies.len() as int;
            let calls = tool_calls_of(a);
            assert(cores.len() == 2 * k);
            let cb = block.take(k);
            let rb = block.subrange(k, 2 * k);
            let loaded = loaded_turn(t, block);
            let msgs = turn_messages(t);
            // The assistant message and its calls.
            lemma_calls_message_fields(cb);
            assert forall|j: int| 0 <= j < k implies #[trigger] call_summary(call_json(cb[j]))
                == call_summary(calls[j]) by {
                assert(cb[j] == block[j]);
                assert(core_of(block[j]) == cores[j]);
                assert(cores[j] == call_entry(calls[j], ctx));
                assert(well_formed_call(calls[j]));
                lemma_call_round_trip(calls[j], block[j], ctx);
            }
            assert(cb.map_values(|c: EntryView| call_summary(call_json(c))) =~= calls.map_values(
                |tc: JsonView| call_summary(tc),
            ));
            assert(view_get(a, "tool_calls"@) == Some(JsonView::Array(calls)));
            assert(loaded[0] == calls_message_json(cb));
            assert(msgs[0] == a);
            assert(same_message(loaded[0], msgs[0]));
            // The tool messages answering them.
            assert forall|j: int| 0 <= j < k implies same_message(
                #[trigger] loaded[1 + j],
                msgs[1 + j],
            ) by {
                assert(loaded[1 + j] == result_json(rb[j], paired_id(rb[j], cb[j])));
                assert(msgs[1 + j] == replies[j]);
                assert(rb[j] == block[k + j]);
                assert(core_of(block[k + j]) == cores[k + j]);
                assert(cores[k + j] == reply_core(replies[j], ctx));
                assert(well_formed_call(calls[j]));
                assert(is_reply_to(replies[j], str_or(calls[j], "id"@, Seq::empty())));
                let id = view_get_str(calls[j], "id"@).unwrap();
                assert(str_or(calls[j], "id"@, Seq::empty()) == id);
                assert(paired_id(rb[j], cb[j]) == id);
                lemma_result_json_fields(rb[j], id);
            }
            assert forall|i: int| 0 <= i < msgs.len() implies same_message(
                #[trigger] loaded[i],
                msgs[i],
            ) by {
                if i > 0 {
                    assert(loaded[1 + (i - 1)] == loaded[i]);
                    assert(msgs[1 + (i - 1)] == msgs[i]);
                }
            }
        },
    }
}

/// Saving a conversation for a context (other than one named `user`) and
/// loading the saved entries back gives the conversation again: as many
/// messages, in the same order, each with its role, its content, the id of
/// the call it answers and the calls it makes (each call's id, type, name
/// and arguments). Only the `_id` of each message is new. The conversation
/// is told turn by turn: plain chat messages, and assistant messages whose
/// tool calls are answered at once, in order, by tool messages.
pub proof fn law_conversation_save_load(turns: Seq<Turn>, ctx: Seq<char>, saved: Seq<EntryView>)
    requires
        ctx != "user"@,
        forall|i: int| 0 <= i < turns.len() ==> valid_turn(#[trigger] turns[i]),
        saved.map_values(|e: EntryView| core_of(e)) == entries_of_messages(conversation(turns), ctx),
    ensures
        messages_of(saved).len() == conversation(turns).len(),
        forall|i: int|
            0 <= i < conversation(turns).len() ==> same_message(
                #[trigger] messages_of(saved)[i],
                conversation(turns)[i],
            ),
    decreases turns.len(),
{
    if turns.len() == 0 {
        assert(entries_of_messages(Seq::<JsonView>::empty(), ctx) == Seq::<EntryCore>::empty());
        assert(saved.map_values(|e: EntryView| core_of(e)).len() == 0);
        assert(saved =~= Seq::<EntryView>::empty());
    } else {
        let t = turns[0];
        let later = turns.drop_first();
        assert(valid_turn(turns[0]));
        assert forall|i: int| 0 <= i < later.len() implies valid_turn(#[trigger] later[i]) by {
            assert(later[i] == turns[i + 1]);
        }
        lemma_entries_append(turn_messages(t), conversation(later), ctx);
        lemma_turn_entries(t, ctx);
        let head = turn_cores(t, ctx);
        let tail = entries_of_messages(conversation(later), ctx);
        let cores = saved.map_values(|e: EntryView| core_of(e));
        assert(cores == head + tail);
        let n = head.len() as int;
        let block = saved.take(n);
        let rest = saved.skip(n);
        assert(cores.len() == saved.len());
        let bc = block.map_values(|e: EntryView| core_of(e));
        let rc = rest.map_values(|e: EntryView| core_of(e));
        assert forall|i: int| 0 <= i < n implies #[trigger] bc[i] == head[i] by {
            assert(cores[i] == core_of(saved[i]));
            assert((head + tail)[i] == head[i]);
            assert(block[i] == saved[i]);
        }
        assert(bc =~= head);
        assert forall|i: int| 0 <= i < tail.len() implies #[trigger] rc[i] == tail[i] by {
            assert(cores[n + i] == core_of(saved[n + i]));
            assert((head + tail)[n + i] == tail[i]);
            assert(rest[i] == saved[n + i]);
        }
        assert(rc =~= tail);
        assert(saved =~= block + rest);
        law_conversation_save_load(later, ctx, rest);
        lemma_turn_loads(t, ctx, block, rest);
        lemma_turn_same(t, ctx, block);
        let loaded = loaded_turn(t, block);
        let msgs = turn_messages(t);
        let all = messages_of(saved);
        assert(all == loaded + messages_of(rest));
        assert(conversation(turns) == msgs + conversation(later));
        assert forall|i: int| 0 <= i < conversation(turns).len() implies same_message(
            #[trigger] messages_of(saved)[i],
            conversation(turns)[i],
        ) by {
            if i < msgs.len() {
                assert(all[i] == loaded[i]);
                assert(conversation(turns)[i] == msgs[i]);
            } else {
                let j = i - msgs.len();
                assert(all[i] == messages_of(rest)[j]);
                assert(conversation(turns)[i] == conversation(later)[j]);
            }
        }
    }
}

} // verus!
