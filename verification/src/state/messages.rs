//! Conversion between transcript entries and the chat messages sent to the
//! model, and the choice of what a context's working window holds.

use vstd::prelude::*;

use crate::json::{
    array_of, json_view, jsons_view, members_view, object_of, str_member, view_get, view_get_str,
    Json, JsonView,
};
use crate::text::{push_str, str_eq};
use super::entries::{
    entries_view, is_uuid_v4_text, made_entry_from, opt_str, EntryView, TranscriptEntry, ENTRY_TYPE_MESSAGE, ENTRY_TYPE_TOOL_CALL,
    ENTRY_TYPE_TOOL_RESULT,
};

verus! {

// ---------------------------------------------------------------------------
// Entries to messages
// ---------------------------------------------------------------------------

/// The number of tool-call entries at the front of `es`.
pub open spec fn leading_calls(es: Seq<EntryView>) -> nat
    decreases es.len(),
{
    if es.len() > 0 && es[0].entry_type == ENTRY_TYPE_TOOL_CALL@ {
        1 + leading_calls(es.drop_first())
    } else {
        0
    }
}

/// The number of tool-result entries at the front of `es`, at most `max`.
pub open spec fn leading_results(es: Seq<EntryView>, max: nat) -> nat
    decreases es.len(),
{
    if max > 0 && es.len() > 0 && es[0].entry_type == ENTRY_TYPE_TOOL_RESULT@ {
        1 + leading_results(es.drop_first(), (max - 1) as nat)
    } else {
        0
    }
}

/// A run of calls is no longer than the sequence.
pub proof fn lemma_leading_calls_bound(es: Seq<EntryView>)
    ensures
        leading_calls(es) <= es.len(),
    decreases es.len(),
{
    if es.len() > 0 {
        lemma_leading_calls_bound(es.drop_first());
    }
}

/// A run of results is no longer than the sequence nor than its cap.
pub proof fn lemma_leading_results_bound(es: Seq<EntryView>, max: nat)
    ensures
        leading_results(es, max) <= es.len(),
        leading_results(es, max) <= max,
    decreases es.len(),
{
    if max > 0 && es.len() > 0 {
        lemma_leading_results_bound(es.drop_first(), (max - 1) as nat);
    }
}

/// The id under which a tool call is sent: its own, or one derived from the
/// entry's id for entries written before calls carried ids.
pub open spec fn call_id(e: EntryView) -> Seq<char> {
    match e.tool_call_id {
        Some(id) => id,
        None => "synth_"@ + e.id,
    }
}

/// The id a tool result answers: its own, or else that of the call in the
/// same position of its batch.
pub open spec fn paired_id(result: EntryView, call: EntryView) -> Seq<char> {
    match result.tool_call_id {
        Some(id) => id,
        None => call_id(call),
    }
}

/// A JSON string.
pub open spec fn jstr(s: Seq<char>) -> JsonView {
    JsonView::Str(s)
}

/// The message for a chat entry: an entry addressed to the user is the
/// assistant speaking.
pub open spec fn message_json(e: EntryView) -> JsonView {
    JsonView::Object(
        seq![
            ("_id"@, jstr(e.id)),
            ("role"@, jstr(if e.to == "user"@ { "assistant"@ } else { "user"@ })),
            ("content"@, jstr(e.content)),
        ],
    )
}

/// One element of an assistant message's `tool_calls`.
pub open spec fn call_json(e: EntryView) -> JsonView {
    JsonView::Object(
        seq![
            ("id"@, jstr(call_id(e))),
            ("type"@, jstr("function"@)),
            (
                "function"@,
                JsonView::Object(seq![("name"@, jstr(e.to)), ("arguments"@, jstr(e.content))]),
            ),
        ],
    )
}

/// The assistant message carrying one batch of tool calls.
pub open spec fn calls_message_json(calls: Seq<EntryView>) -> JsonView {
    JsonView::Object(
        seq![
            ("_id"@, jstr(calls[0].id)),
            ("role"@, jstr("assistant"@)),
            ("tool_calls"@, JsonView::Array(calls.map_values(|c: EntryView| call_json(c)))),
        ],
    )
}

/// The tool message for a result answering the call with id `id`.
pub open spec fn result_json(r: EntryView, id: Seq<char>) -> JsonView {
    JsonView::Object(
        seq![
            ("_id"@, jstr(r.id)),
            ("role"@, jstr("tool"@)),
            ("tool_call_id"@, jstr(id)),
            ("content"@, jstr(r.content)),
        ],
    )
}

/// The tool messages for the results of one batch, paired by position.
pub open spec fn results_json(calls: Seq<EntryView>, results: Seq<EntryView>) -> Seq<JsonView> {
    Seq::new(results.len(), |i: int| result_json(results[i], paired_id(results[i], calls[i])))
}

/// The chat messages for a sequence of entries. A chat entry is one message.
/// A run of tool calls is one batch: one assistant message with all the
/// calls, then the tool results that follow, at most one per call. A result
/// outside any batch is a tool message of its own. Anchors and other entry
/// kinds give no message.
pub open spec fn messages_of(es: Seq<EntryView>) -> Seq<JsonView>
    decreases es.len(),
{
    if es.len() == 0 {
        Seq::empty()
    } else if es[0].entry_type == ENTRY_TYPE_MESSAGE@ {
        seq![message_json(es[0])] + messages_of(es.drop_first())
    } else if es[0].entry_type == ENTRY_TYPE_TOOL_CALL@ {
        let k = leading_calls(es);
        let rest = es.skip(k as int);
        let r = leading_results(rest, k);
        proof {
            lemma_leading_calls_bound(es);
            lemma_leading_results_bound(rest, k);
        }
        seq![calls_message_json(es.take(k as int))] + results_json(es.take(k as int), rest.take(r as int))
            + messages_of(rest.skip(r as int))
    } else if es[0].entry_type == ENTRY_TYPE_TOOL_RESULT@ {
        seq![result_json(es[0], call_id(es[0]))] + messages_of(es.drop_first())
    } else {
        messages_of(es.drop_first())
    }
}

/// A run of `k` calls ended by a non-call or by the end is counted exactly.
pub proof fn lemma_leading_calls_exact(s: Seq<EntryView>, k: int)
    requires
        0 <= k <= s.len(),
        forall|t: int| 0 <= t < k ==> #[trigger] s[t].entry_type == ENTRY_TYPE_TOOL_CALL@,
        k == s.len() || s[k].entry_type != ENTRY_TYPE_TOOL_CALL@,
    ensures
        leading_calls(s) == k,
    decreases k,
{
    if k > 0 {
        let d = s.drop_first();
        assert forall|t: int| 0 <= t < k - 1 implies #[trigger] d[t].entry_type
            == ENTRY_TYPE_TOOL_CALL@ by {
            assert(d[t] == s[t + 1]);
        }
        lemma_leading_calls_exact(d, k - 1);
    }
}

/// A run of `k` results, ended by the cap, a non-result or the end, is
/// counted exactly.
pub proof fn lemma_leading_results_exact(s: Seq<EntryView>, max: nat, k: int)
    requires
        0 <= k <= s.len(),
        k <= max,
        forall|t: int| 0 <= t < k ==> #[trigger] s[t].entry_type == ENTRY_TYPE_TOOL_RESULT@,
        k == max || k == s.len() || s[k].entry_type != ENTRY_TYPE_TOOL_RESULT@,
    ensures
        leading_results(s, max) == k,
    decreases k,
{
    if k > 0 {
        let d = s.drop_first();
        assert forall|t: int| 0 <= t < k - 1 implies #[trigger] d[t].entry_type
            == ENTRY_TYPE_TOOL_RESULT@ by {
            assert(d[t] == s[t + 1]);
        }
        lemma_leading_results_exact(d, (max - 1) as nat, k - 1);
    }
}

/// Whether an entry is of the given kind.
fn entry_is(e: &TranscriptEntry, t: &str) -> (r: bool)
    ensures
        r == (e@.entry_type == t@),
{
    str_eq(e.entry_type.as_str(), t)
}

/// The id under which a tool call is sent.
fn call_id_text(e: &TranscriptEntry) -> (r: String)
    ensures
        r@ == call_id(e@),
{
    match &e.tool_call_id {
        Some(id) => crate::text::copy_str(id.as_str()),
        None => {
            let mut s = crate::text::copy_str("synth_");
            push_str(&mut s, e.id.as_str());
            s
        },
    }
}

/// The id a tool result answers, given the call in its position.
fn paired_id_text(r: &TranscriptEntry, c: &TranscriptEntry) -> (s: String)
    ensures
        s@ == paired_id(r@, c@),
{
    match &r.tool_call_id {
        Some(id) => crate::text::copy_str(id.as_str()),
        None => call_id_text(c),
    }
}

/// The message for a chat entry.
fn message_json_of(e: &TranscriptEntry) -> (j: Json)
    ensures
        json_view(j) == message_json(e@),
{
    let role = if str_eq(e.to.as_str(), "user") {
        "assistant"
    } else {
        "user"
    };
    let mut m: Vec<(String, Json)> = Vec::new();
    m.push(str_member("_id", e.id.as_str()));
    m.push(str_member("role", role));
    m.push(str_member("content", e.content.as_str()));
    assert(members_view(m@) =~= seq![
        ("_id"@, jstr(e@.id)),
        ("role"@, jstr(if e@.to == "user"@ { "assistant"@ } else { "user"@ })),
        ("content"@, jstr(e@.content)),
    ]);
    object_of(m)
}

/// One element of `tool_calls`.
fn call_json_of(e: &TranscriptEntry) -> (j: Json)
    ensures
        json_view(j) == call_json(e@),
{
    let mut f: Vec<(String, Json)> = Vec::new();
    f.push(str_member("name", e.to.as_str()));
    f.push(str_member("arguments", e.content.as_str()));
    assert(members_view(f@) =~= seq![("name"@, jstr(e@.to)), ("arguments"@, jstr(e@.content))]);
    let function = object_of(f);
    let mut m: Vec<(String, Json)> = Vec::new();
    m.push((crate::text::copy_str("id"), Json::Str(call_id_text(e))));
    m.push(str_member("type", "function"));
    m.push((crate::text::copy_str("function"), function));
    assert(members_view(m@) =~= seq![
        ("id"@, jstr(call_id(e@))),
        ("type"@, jstr("function"@)),
        (
            "function"@,
            JsonView::Object(seq![("name"@, jstr(e@.to)), ("arguments"@, jstr(e@.content))]),
        ),
    ]);
    object_of(m)
}

/// The assistant message for the calls `entries[lo..hi]`.
fn calls_message_of(entries: &[TranscriptEntry], lo: usize, hi: usize) -> (j: Json)
    requires
        lo < hi <= entries@.len(),
    ensures
        json_view(j) == calls_message_json(entries_view(entries@).subrange(lo as int, hi as int)),
{
    let ghost es = entries_view(entries@);
    let ghost calls = es.subrange(lo as int, hi as int);
    let mut v: Vec<Json> = Vec::new();
    let mut t: usize = lo;
    while t < hi
        invariant
            lo <= t <= hi,
            hi <= entries@.len(),
            es == entries_view(entries@),
            calls == es.subrange(lo as int, hi as int),
            jsons_view(v@) =~= calls.subrange(0, t - lo).map_values(|c: EntryView| call_json(c)),
        decreases hi - t,
    {
        let ghost before = v@;
        v.push(call_json_of(&entries[t]));
        assert(calls[t - lo] == entries@[t as int]@);
        assert(jsons_view(v@) =~= jsons_view(before).push(call_json(calls[t - lo])));
        assert(calls.subrange(0, t + 1 - lo).map_values(|c: EntryView| call_json(c))
            =~= calls.subrange(0, t - lo).map_values(|c: EntryView| call_json(c)).push(
            call_json(calls[t - lo]),
        ));
        t = t + 1;
    }
    assert(calls.subrange(0, hi - lo) =~= calls);
    let tool_calls = array_of(v);
    let mut m: Vec<(String, Json)> = Vec::new();
    m.push(str_member("_id", entries[lo].id.as_str()));
    m.push(str_member("role", "assistant"));
    m.push((crate::text::copy_str("tool_calls"), tool_calls));
    assert(calls[0] == entries@[lo as int]@);
    assert(members_view(m@) =~= seq![
        ("_id"@, jstr(calls[0].id)),
        ("role"@, jstr("assistant"@)),
        ("tool_calls"@, JsonView::Array(calls.map_values(|c: EntryView| call_json(c)))),
    ]);
    object_of(m)
}

/// The tool message for a result answering the call with id `id`.
fn result_json_of(r: &TranscriptEntry, id: String) -> (j: Json)
    ensures
        json_view(j) == result_json(r@, id@),
{
    let ghost idv = id@;
    let mut m: Vec<(String, Json)> = Vec::new();
    m.push(str_member("_id", r.id.as_str()));
    m.push(str_member("role", "tool"));
    m.push((crate::text::copy_str("tool_call_id"), Json::Str(id)));
    m.push(str_member("content", r.content.as_str()));
    assert(members_view(m@) =~= seq![
        ("_id"@, jstr(r@.id)),
        ("role"@, jstr("tool"@)),
        ("tool_call_id"@, jstr(idv)),
        ("content"@, jstr(r@.content)),
    ]);
    object_of(m)
}

/// Converts transcript entries to the chat messages sent to the model,
/// keeping the tool history: each chat entry becomes one message, each run
/// of tool calls one assistant message with `tool_calls` followed by the
/// tool messages of its results, paired by `tool_call_id` or by position.
pub fn entries_to_messages(entries: &[TranscriptEntry]) -> (r: Vec<Json>)
    ensures
        jsons_view(r@) == messages_of(entries_view(entries@)),
{
    let ghost es = entries_view(entries@);
    let n = entries.len();
    let mut out: Vec<Json> = Vec::new();
    let mut i: usize = 0;
    assert(es.skip(0) =~= es);
    while i < n
        invariant
            n == entries@.len(),
            es == entries_view(entries@),
            i <= n,
            jsons_view(out@) + messages_of(es.skip(i as int)) =~= messages_of(es),
        decreases n - i,
    {
        let ghost rest = es.skip(i as int);
        let ghost before = jsons_view(out@);
        let e = &entries[i];
        assert(rest[0] == e@);
        assert(rest.drop_first() =~= es.skip(i + 1));
        if entry_is(e, ENTRY_TYPE_MESSAGE) {
            out.push(message_json_of(e));
            assert(jsons_view(out@) =~= before.push(message_json(e@)));
            i = i + 1;
        } else if entry_is(e, ENTRY_TYPE_TOOL_CALL) {
            let mut j: usize = i + 1;
            while j < n && entry_is(&entries[j], ENTRY_TYPE_TOOL_CALL)
                invariant
                    n == entries@.len(),
                    es == entries_view(entries@),
                    i < j <= n,
                    forall|t: int| i <= t < j ==> #[trigger] es[t].entry_type == ENTRY_TYPE_TOOL_CALL@,
                decreases n - j,
            {
                j = j + 1;
            }
            proof {
                assert forall|t: int| 0 <= t < j - i implies #[trigger] rest[t].entry_type
                    == ENTRY_TYPE_TOOL_CALL@ by {
                    assert(rest[t] == es[i + t]);
                }
                if j < n {
                    assert(rest[j - i] == es[j as int]);
                }
                lemma_leading_calls_exact(rest, j - i);
            }
            let k = j - i;
            let mut m: usize = j;
            while m - j < k && m < n && entry_is(&entries[m], ENTRY_TYPE_TOOL_RESULT)
                invariant
                    n == entries@.len(),
                    es == entries_view(entries@),
                    j <= m <= n,
                    m - j <= k,
                    forall|t: int| j <= t < m ==> #[trigger] es[t].entry_type
                        == ENTRY_TYPE_TOOL_RESULT@,
                decreases n - m,
            {
                m = m + 1;
            }
            let ghost after_calls = es.skip(j as int);
            proof {
                assert(rest.skip(k as int) =~= after_calls);
                assert forall|t: int| 0 <= t < m - j implies #[trigger] after_calls[t].entry_type
                    == ENTRY_TYPE_TOOL_RESULT@ by {
                    assert(after_calls[t] == es[j + t]);
                }
                if m < n {
                    assert(after_calls[m - j] == es[m as int]);
                }
                lemma_leading_results_exact(after_calls, k as nat, m - j);
            }
            let ghost calls = es.subrange(i as int, j as int);
            let ghost results = es.subrange(j as int, m as int);
            assert(rest.take(k as int) =~= calls);
            assert(after_calls.take(m - j) =~= results);
            assert(after_calls.skip(m - j) =~= es.skip(m as int));
            out.push(calls_message_of(entries, i, j));
            let ghost mid = jsons_view(out@);
            assert(mid =~= before.push(calls_message_json(calls)));
            let mut idx: usize = 0;
            while idx < m - j
                invariant
                    n == entries@.len(),
                    es == entries_view(entries@),
                    i < j <= m <= n,
                    m - j <= j - i,
                    calls == es.subrange(i as int, j as int),
                    results == es.subrange(j as int, m as int),
                    idx <= m - j,
                    jsons_view(out@) =~= mid + results_json(calls, results).take(idx as int),
                decreases m - j - idx,
            {
                let ghost prev = jsons_view(out@);
                let r = &entries[j + idx];
                let c = &entries[i + idx];
                assert(results[idx as int] == r@);
                assert(calls[idx as int] == c@);
                let id = paired_id_text(r, c);
                out.push(result_json_of(r, id));
                assert(results_json(calls, results).take(idx + 1) =~= results_json(
                    calls,
                    results,
                ).take(idx as int).push(results_json(calls, results)[idx as int]));
                assert(jsons_view(out@) =~= prev.push(results_json(calls, results)[idx as int]));
                idx = idx + 1;
            }
            assert(results_json(calls, results).take((m - j) as int) =~= results_json(
                calls,
                results,
            ));
            i = m;
        } else if entry_is(e, ENTRY_TYPE_TOOL_RESULT) {
            out.push(result_json_of(e, call_id_text(e)));
            assert(jsons_view(out@) =~= before.push(result_json(e@, call_id(e@))));
            i = i + 1;
        } else {
            i = i + 1;
        }
    }
    assert(es.skip(n as int) =~= Seq::<EntryView>::empty());
    out
}

// ---------------------------------------------------------------------------
// Messages to entries
// ---------------------------------------------------------------------------

/// The parts of an entry that a conversion fixes; identifiers and times are
/// fresh.
pub struct EntryCore {
    pub from: Seq<char>,
    pub to: Seq<char>,
    pub content: Seq<char>,
    pub entry_type: Seq<char>,
    pub tool_call_id: Option<Seq<char>>,
}

/// The fixed parts of an entry.
pub open spec fn core_of(e: EntryView) -> EntryCore {
    EntryCore {
        from: e.from,
        to: e.to,
        content: e.content,
        entry_type: e.entry_type,
        tool_call_id: e.tool_call_id,
    }
}

/// `v[key]` as a string, or `default` when it is missing or not a string.
pub open spec fn str_or(v: JsonView, key: Seq<char>, default: Seq<char>) -> Seq<char> {
    match view_get_str(v, key) {
        Some(s) => s,
        None => default,
    }
}

/// `v[outer][inner]` as a string, or `default`.
pub open spec fn nested_str_or(
    v: JsonView,
    outer: Seq<char>,
    inner: Seq<char>,
    default: Seq<char>,
) -> Seq<char> {
    match view_get(v, outer) {
        Some(o) => str_or(o, inner, default),
        None => default,
    }
}

/// An id that is kept only when it is not empty.
pub open spec fn nonempty_id(id: Seq<char>) -> Option<Seq<char>> {
    if id.len() == 0 {
        None
    } else {
        Some(id)
    }
}

/// The entry for one element of an assistant message's `tool_calls`.
pub open spec fn call_entry(tc: JsonView, ctx: Seq<char>) -> EntryCore {
    EntryCore {
        from: ctx,
        to: nested_str_or(tc, "function"@, "name"@, "unknown"@),
        content: nested_str_or(tc, "function"@, "arguments"@, "{}"@),
        entry_type: ENTRY_TYPE_TOOL_CALL@,
        tool_call_id: nonempty_id(str_or(tc, "id"@, Seq::empty())),
    }
}

/// The entries for one message: none for a system message, one per call for
/// an assistant message with `tool_calls`, else one chat or result entry.
pub open spec fn entries_for(m: JsonView, ctx: Seq<char>) -> Seq<EntryCore> {
    let role = str_or(m, "role"@, Seq::empty());
    let content = str_or(m, "content"@, Seq::empty());
    if role == "system"@ {
        Seq::empty()
    } else if role == "assistant"@ {
        match view_get(m, "tool_calls"@) {
            Some(JsonView::Array(calls)) => calls.map_values(|tc: JsonView| call_entry(tc, ctx)),
            _ => seq![
                EntryCore {
                    from: ctx,
                    to: "user"@,
                    content,
                    entry_type: ENTRY_TYPE_MESSAGE@,
                    tool_call_id: None,
                },
            ],
        }
    } else if role == "tool"@ {
        seq![
            EntryCore {
                from: "tool"@,
                to: ctx,
                content,
                entry_type: ENTRY_TYPE_TOOL_RESULT@,
                tool_call_id: nonempty_id(str_or(m, "tool_call_id"@, Seq::empty())),
            },
        ]
    } else {
        seq![
            EntryCore {
                from: "user"@,
                to: ctx,
                content,
                entry_type: ENTRY_TYPE_MESSAGE@,
                tool_call_id: None,
            },
        ]
    }
}

/// The entries for a sequence of messages, message by message.
pub open spec fn entries_of_messages(ms: Seq<JsonView>, ctx: Seq<char>) -> Seq<EntryCore>
    decreases ms.len(),
{
    if ms.len() == 0 {
        Seq::empty()
    } else {
        entries_of_messages(ms.drop_last(), ctx) + entries_for(ms.last(), ctx)
    }
}

/// `v[key]` as a string slice, or `default`.
fn str_or_exec<'a>(v: &'a Json, key: &str, default: &'a str) -> (r: &'a str)
    ensures
        r@ == str_or(json_view(*v), key@, default@),
{
    match v.get(key) {
        Some(x) => match x.as_str() {
            Some(s) => s.as_str(),
            None => default,
        },
        None => default,
    }
}

/// `v[outer][inner]` as a string slice, or `default`.
fn nested_str_or_exec<'a>(v: &'a Json, outer: &str, inner: &str, default: &'a str) -> (r: &'a str)
    ensures
        r@ == nested_str_or(json_view(*v), outer@, inner@, default@),
{
    match v.get(outer) {
        Some(o) => str_or_exec(o, inner, default),
        None => default,
    }
}

/// An id kept only when it is not empty.
fn nonempty_id_exec(id: &str) -> (r: Option<String>)
    ensures
        opt_str(r) == nonempty_id(id@),
{
    if id.is_empty() {
        None
    } else {
        Some(crate::text::copy_str(id))
    }
}

/// An entry made from fixed parts, with a fresh id and the current time.
fn entry_from_parts(
    from: &str,
    to: &str,
    content: &str,
    entry_type: &str,
    tool_call_id: Option<String>,
) -> (e: TranscriptEntry)
    ensures
        core_of(e@) == (EntryCore {
            from: from@,
            to: to@,
            content: content@,
            entry_type: entry_type@,
            tool_call_id: opt_str(tool_call_id),
        }),
        is_uuid_v4_text(e@.id),
        e@.metadata is None,
{
    made_entry_from(from, to, content, entry_type, tool_call_id)
}

/// Converts chat messages back to transcript entries for `context_name`:
/// system messages are dropped, an assistant message with `tool_calls`
/// gives one tool-call entry per call, a tool message gives a tool-result
/// entry, and any other message a chat entry. Every entry gets a fresh id.
pub fn messages_to_entries(messages: &[Json], context_name: &str) -> (r: Vec<TranscriptEntry>)
    ensures
        entries_view(r@).map_values(|e: EntryView| core_of(e)) == entries_of_messages(
            jsons_view(messages@),
            context_name@,
        ),
        forall|t: int| 0 <= t < r@.len() ==> is_uuid_v4_text(#[trigger] r@[t]@.id),
        forall|t: int| 0 <= t < r@.len() ==> (#[trigger] r@[t]@).metadata is None,
{
    let ghost ms = jsons_view(messages@);
    let ghost ctx = context_name@;
    let mut out: Vec<TranscriptEntry> = Vec::new();
    let n = messages.len();
    let mut i: usize = 0;
    while i < n
        invariant
            n == messages@.len(),
            ms == jsons_view(messages@),
            ctx == context_name@,
            i <= n,
            entries_view(out@).map_values(|e: EntryView| core_of(e)) =~= entries_of_messages(
                ms.take(i as int),
                ctx,
            ),
            forall|t: int| 0 <= t < out@.len() ==> is_uuid_v4_text(#[trigger] out@[t]@.id),
            forall|t: int| 0 <= t < out@.len() ==> (#[trigger] out@[t]@).metadata is None,
        decreases n - i,
    {
        proof {
            reveal_strlit("");
            assert(""@ =~= Seq::<char>::empty());
        }
        let m = &messages[i];
        let ghost mv = json_view(*m);
        let ghost before = entries_view(out@).map_values(|e: EntryView| core_of(e));
        assert(ms[i as int] == mv);
        assert(ms.take(i + 1).drop_last() =~= ms.take(i as int));
        assert(ms.take(i + 1).last() == mv);
        let ghost expected = entries_for(mv, ctx);
        let role = str_or_exec(m, "role", "");
        let content = str_or_exec(m, "content", "");
        if str_eq(role, "system") {
            assert(expected =~= Seq::<EntryCore>::empty());
        } else if str_eq(role, "assistant") {
            match m.get("tool_calls") {
                Some(c @ Json::Array(items)) => {
                    let ghost cv = jsons_view(items@);
                    assert(json_view(*c) == JsonView::Array(cv)) by {
                        if let JsonView::Array(a) = json_view(*c) {
                            assert(a =~= cv);
                        }
                    }
                    let mut t: usize = 0;
                    while t < items.len()
                        invariant
                            cv == jsons_view(items@),
                            t <= items@.len(),
                            entries_view(out@).map_values(|e: EntryView| core_of(e)) =~= before
                                + cv.take(t as int).map_values(
                                |tc: JsonView| call_entry(tc, ctx),
                            ),
                            ctx == context_name@,
                            forall|u: int| 0 <= u < out@.len() ==> is_uuid_v4_text(
                                #[trigger] out@[u]@.id,
                            ),
                            forall|u: int| 0 <= u < out@.len() ==> (#[trigger] out@[u]@).metadata is None,
                        decreases items@.len() - t,
                    {
                        proof {
                            reveal_strlit("");
                            assert(""@ =~= Seq::<char>::empty());
                        }
                        let tc = &items[t];
                        assert(cv[t as int] == json_view(*tc));
                        let name = nested_str_or_exec(tc, "function", "name", "unknown");
                        let arguments = nested_str_or_exec(tc, "function", "arguments", "{}");
                        let id = str_or_exec(tc, "id", "");
                        let e = entry_from_parts(
                            context_name,
                            name,
                            arguments,
                            ENTRY_TYPE_TOOL_CALL,
                            nonempty_id_exec(id),
                        );
                        let ghost prev = entries_view(out@).map_values(|e: EntryView| core_of(e));
                        out.push(e);
                        assert(entries_view(out@).map_values(|e: EntryView| core_of(e)) =~= prev.push(
                            call_entry(cv[t as int], ctx),
                        ));
                        assert(cv.take(t + 1).map_values(|tc: JsonView| call_entry(tc, ctx)) =~= cv.take(
                            t as int,
                        ).map_values(|tc: JsonView| call_entry(tc, ctx)).push(call_entry(cv[t as int], ctx)));
                        t = t + 1;
                    }
                    assert(cv.take(items@.len() as int) =~= cv);
                },
                _ => {
                    let e = entry_from_parts(context_name, "user", content, ENTRY_TYPE_MESSAGE, None);
                    let ghost prev = entries_view(out@).map_values(|e: EntryView| core_of(e));
                    out.push(e);
                    assert(entries_view(out@).map_values(|e: EntryView| core_of(e)) =~= prev.push(
                        expected[0],
                    ));
                    assert(expected =~= seq![expected[0]]);
                },
            }
        } else if str_eq(role, "tool") {
            let id = str_or_exec(m, "tool_call_id", "");
            let e = entry_from_parts("tool", context_name, content, ENTRY_TYPE_TOOL_RESULT, nonempty_id_exec(id));
            let ghost prev = entries_view(out@).map_values(|e: EntryView| core_of(e));
            out.push(e);
            assert(entries_view(out@).map_values(|e: EntryView| core_of(e)) =~= prev.push(expected[0]));
            assert(expected =~= seq![expected[0]]);
        } else {
            let e = entry_from_parts("user", context_name, content, ENTRY_TYPE_MESSAGE, None);
            let ghost prev = entries_view(out@).map_values(|e: EntryView| core_of(e));
            out.push(e);
            assert(entries_view(out@).map_values(|e: EntryView| core_of(e)) =~= prev.push(expected[0]));
            assert(expected =~= seq![expected[0]]);
        }
        i = i + 1;
    }
    assert(ms.take(n as int) =~= ms);
    out
}

// ---------------------------------------------------------------------------
// What a save and a load give back
// ---------------------------------------------------------------------------

/// A plain chat message: a user or assistant message without tool calls.
pub open spec fn is_chat_message(m: JsonView) -> bool {
    let role = str_or(m, "role"@, Seq::empty());
    &&& (role == "user"@ || role == "assistant"@)
    &&& !(view_get(m, "tool_calls"@) matches Some(JsonView::Array(_)))
}

/// The entry a plain chat message is saved as.
pub open spec fn chat_core(m: JsonView, ctx: Seq<char>) -> EntryCore {
    let content = str_or(m, "content"@, Seq::empty());
    if str_or(m, "role"@, Seq::empty()) == "assistant"@ {
        EntryCore {
            from: ctx,
            to: "user"@,
            content,
            entry_type: ENTRY_TYPE_MESSAGE@,
            tool_call_id: None,
        }
    } else {
        EntryCore {
            from: "user"@,
            to: ctx,
            content,
            entry_type: ENTRY_TYPE_MESSAGE@,
            tool_call_id: None,
        }
    }
}

/// Plain chat messages are saved one entry each.
proof fn lemma_chat_entries(ms: Seq<JsonView>, ctx: Seq<char>)
    requires
        forall|i: int| 0 <= i < ms.len() ==> is_chat_message(#[trigger] ms[i]),
    ensures
        entries_of_messages(ms, ctx) == ms.map_values(|m: JsonView| chat_core(m, ctx)),
    decreases ms.len(),
{
    reveal_strlit("system");
    reveal_strlit("assistant");
    reveal_strlit("user");
    reveal_strlit("tool");
    if ms.len() > 0 {
        let d = ms.drop_last();
        assert forall|i: int| 0 <= i < d.len() implies is_chat_message(#[trigger] d[i]) by {
            assert(d[i] == ms[i]);
        }
        lemma_chat_entries(d, ctx);
        let m = ms.last();
        assert(is_chat_message(ms[ms.len() - 1]));
        assert("user"@ != "tool"@) by {
            assert("user"@[0] != "tool"@[0]);
        }
        assert("user"@ != "system"@) by {
            assert("user"@.len() != "system"@.len());
        }
        assert("assistant"@ != "system"@) by {
            assert("assistant"@.len() != "system"@.len());
        }
        assert("user"@ != "assistant"@) by {
            assert("user"@.len() != "assistant"@.len());
        }
        assert(entries_for(m, ctx) =~= seq![chat_core(m, ctx)]);
        assert(ms.map_values(|m: JsonView| chat_core(m, ctx)) =~= d.map_values(
            |m: JsonView| chat_core(m, ctx),
        ).push(chat_core(ms.last(), ctx)));
    } else {
        assert(ms.map_values(|m: JsonView| chat_core(m, ctx)) =~= Seq::<EntryCore>::empty());
    }
}

/// Chat entries are loaded one message each.
proof fn lemma_chat_messages(es: Seq<EntryView>)
    requires
        forall|i: int| 0 <= i < es.len() ==> (#[trigger] es[i]).entry_type == ENTRY_TYPE_MESSAGE@,
    ensures
        messages_of(es) == es.map_values(|e: EntryView| message_json(e)),
    decreases es.len(),
{
    if es.len() > 0 {
        let d = es.drop_first();
        assert forall|i: int| 0 <= i < d.len() implies (#[trigger] d[i]).entry_type
            == ENTRY_TYPE_MESSAGE@ by {
            assert(d[i] == es[i + 1]);
        }
        lemma_chat_messages(d);
        assert(es[0].entry_type == ENTRY_TYPE_MESSAGE@);
        assert(es.map_values(|e: EntryView| message_json(e)) =~= seq![message_json(es[0])]
            + d.map_values(|e: EntryView| message_json(e)));
    } else {
        assert(es.map_values(|e: EntryView| message_json(e)) =~= Seq::<JsonView>::empty());
    }
}

/// Saving plain chat messages for a context (other than one named `user`)
/// and loading the saved entries back gives the same messages: as many, in
/// the same order, each with its role and its content. Only the `_id` of
/// each message is new.
pub proof fn law_chat_save_load(ms: Seq<JsonView>, ctx: Seq<char>, saved: Seq<EntryView>)
    requires
        ctx != "user"@,
        forall|i: int| 0 <= i < ms.len() ==> is_chat_message(#[trigger] ms[i]),
        saved.map_values(|e: EntryView| core_of(e)) == entries_of_messages(ms, ctx),
    ensures
        messages_of(saved).len() == ms.len(),
        forall|i: int|
            0 <= i < ms.len() ==> str_or(#[trigger] messages_of(saved)[i], "role"@, Seq::empty())
                == str_or(ms[i], "role"@, Seq::empty()) && str_or(
                messages_of(saved)[i],
                "content"@,
                Seq::empty(),
            ) == str_or(ms[i], "content"@, Seq::empty()),
{
    reveal_strlit("assistant");
    reveal_strlit("user");
    reveal_strlit("_id");
    reveal_strlit("role");
    reveal_strlit("content");
    lemma_chat_entries(ms, ctx);
    let cores = saved.map_values(|e: EntryView| core_of(e));
    assert(cores.len() == ms.len());
    assert forall|i: int| 0 <= i < saved.len() implies (#[trigger] saved[i]).entry_type
        == ENTRY_TYPE_MESSAGE@ by {
        assert(cores[i] == core_of(saved[i]));
        assert(cores[i] == chat_core(ms[i], ctx));
    }
    lemma_chat_messages(saved);
    assert forall|i: int| 0 <= i < ms.len() implies str_or(
        #[trigger] messages_of(saved)[i],
        "role"@,
        Seq::empty(),
    ) == str_or(ms[i], "role"@, Seq::empty()) && str_or(
        messages_of(saved)[i],
        "content"@,
        Seq::empty(),
    ) == str_or(ms[i], "content"@, Seq::empty()) by {
        assert(cores[i] == core_of(saved[i]));
        assert(cores[i] == chat_core(ms[i], ctx));
        assert(is_chat_message(ms[i]));
        let e = saved[i];
        let mj = message_json(e);
        assert(messages_of(saved)[i] == mj);
        if let JsonView::Object(members) = mj {
            reveal_with_fuel(crate::json::assoc_get, 4);
            reveal_strlit("_id");
            reveal_strlit("role");
            reveal_strlit("content");
            assert(members[0].0 == "_id"@);
            assert("_id"@.len() == 3);
            assert("role"@.len() == 4);
            assert("content"@.len() == 7);
            assert(members[0].0 != "role"@);
            assert(members[0].0 != "content"@);
            assert(members[1].0 == "role"@);
            assert(members[1].0 != "content"@);
            assert(members[2].0 == "content"@);
            assert(members.drop_first()[0] == members[1]);
            assert(members.drop_first().drop_first()[0] == members[2]);
        }
    }
}

} // verus!
