//! Transcript entries: the records of the append-only transcript and of a
//! context's working window, and the constructors for each kind of entry.

use vstd::prelude::*;

use crate::json::{
    json_view, parse_json, parsed_json, view_get, view_get_str, view_get_u64, Json, JsonNumber,
    JsonView,
};
use crate::text::{copy_str, from_chars, lines_of, split_lines, to_chars};

verus! {

/// A chat message (user or assistant).
pub const ENTRY_TYPE_MESSAGE: &'static str = "message";
/// A tool call made by the model.
pub const ENTRY_TYPE_TOOL_CALL: &'static str = "tool_call";
/// The result of a tool call.
pub const ENTRY_TYPE_TOOL_RESULT: &'static str = "tool_result";
/// Anchor: the context was created.
pub const ENTRY_TYPE_CONTEXT_CREATED: &'static str = "context_created";
/// Anchor: the context was compacted.
pub const ENTRY_TYPE_COMPACTION: &'static str = "compaction";
/// Anchor: the context was archived or cleared.
pub const ENTRY_TYPE_ARCHIVAL: &'static str = "archival";
/// The system prompt changed (transcript only).
pub const ENTRY_TYPE_SYSTEM_PROMPT_CHANGED: &'static str = "system_prompt_changed";
/// A flow-control call such as `call_user` (transcript only).
pub const ENTRY_TYPE_FLOW_CONTROL_CALL: &'static str = "flow_control_call";
/// The result of a flow-control call (transcript only).
pub const ENTRY_TYPE_FLOW_CONTROL_RESULT: &'static str = "flow_control_result";

/// Optional metadata carried by anchor entries.
#[derive(Debug)]
pub struct EntryMetadata {
    pub summary: Option<String>,
    pub transcript_anchor_id: Option<String>,
}

/// One record of a transcript or context file.
#[derive(Debug)]
pub struct TranscriptEntry {
    pub id: String,
    /// Seconds since the Unix epoch.
    pub timestamp: u64,
    pub from: String,
    pub to: String,
    pub content: String,
    pub entry_type: String,
    pub metadata: Option<EntryMetadata>,
    pub tool_call_id: Option<String>,
}

/// The character sequence of an optional string.
pub open spec fn opt_str(o: Option<String>) -> Option<Seq<char>> {
    match o {
        Some(s) => Some(s@),
        None => None,
    }
}

/// The mathematical form of entry metadata.
pub struct MetadataView {
    pub summary: Option<Seq<char>>,
    pub transcript_anchor_id: Option<Seq<char>>,
}

/// The mathematical form of a transcript entry.
pub struct EntryView {
    pub id: Seq<char>,
    pub timestamp: u64,
    pub from: Seq<char>,
    pub to: Seq<char>,
    pub content: Seq<char>,
    pub entry_type: Seq<char>,
    pub metadata: Option<MetadataView>,
    pub tool_call_id: Option<Seq<char>>,
}

/// The mathematical form of optional metadata.
pub open spec fn metadata_view(m: Option<EntryMetadata>) -> Option<MetadataView> {
    match m {
        Some(m) => Some(
            MetadataView {
                summary: opt_str(m.summary),
                transcript_anchor_id: opt_str(m.transcript_anchor_id),
            },
        ),
        None => None,
    }
}

impl View for TranscriptEntry {
    type V = EntryView;

    open spec fn view(&self) -> EntryView {
        EntryView {
            id: self.id@,
            timestamp: self.timestamp,
            from: self.from@,
            to: self.to@,
            content: self.content@,
            entry_type: self.entry_type@,
            metadata: metadata_view(self.metadata),
            tool_call_id: opt_str(self.tool_call_id),
        }
    }
}

/// The views of a sequence of entries.
pub open spec fn entries_view(v: Seq<TranscriptEntry>) -> Seq<EntryView> {
    v.map_values(|e: TranscriptEntry| e@)
}

/// A lowercase hexadecimal digit.
pub open spec fn is_hex_digit(c: char) -> bool {
    ('0' <= c && c <= '9') || ('a' <= c && c <= 'f')
}

/// The text of a version-4 UUID in hyphenated lowercase form,
/// `xxxxxxxx-xxxx-4xxx-xxxx-xxxxxxxxxxxx`.
pub open spec fn is_uuid_v4_text(s: Seq<char>) -> bool {
    &&& s.len() == 36
    &&& forall|i: int|
        0 <= i < 36 ==> if i == 8 || i == 13 || i == 18 || i == 23 {
            #[trigger] s[i] == '-'
        } else {
            is_hex_digit(s[i])
        }
    &&& s[14] == '4'
}

/// A fresh random identifier (`uuid::Uuid::new_v4().to_string()`).
///
/// The uuid crate formats a UUID with `Display` as its hyphenated lowercase
/// form; `new_v4` sets the version nibble to 4. Which identifier comes out is
/// left open: it is random.
#[verifier::external_body]
pub(crate) fn new_entry_id() -> (r: String)
    ensures
        is_uuid_v4_text(r@),
{
    uuid::Uuid::new_v4().to_string()
}

/// The current time in whole seconds since the Unix epoch
/// (`SystemTime::now().duration_since(UNIX_EPOCH)`, as whole seconds), or
/// `None` when the system clock reads before the epoch (the error of
/// `duration_since`). It depends on the clock, so nothing is stated of it.
#[verifier::external_body]
fn clock_seconds() -> (r: Option<u64>) {
    match std::time::SystemTime::now().duration_since(std::time::UNIX_EPOCH) {
        Ok(d) => Some(d.as_secs()),
        Err(_) => None,
    }
}

/// The timestamp of a clock reading in whole seconds since the Unix epoch:
/// a clock that reads before the epoch (`None`) counts as 0.
pub open spec fn timestamp_of(reading: Option<u64>) -> u64 {
    match reading {
        Some(seconds) => seconds,
        None => 0,
    }
}

/// The timestamp of a clock reading in whole seconds since the Unix epoch;
/// a clock that reads before the epoch (`None`) counts as 0.
pub fn timestamp_from_seconds(reading: Option<u64>) -> (r: u64)
    ensures
        r == timestamp_of(reading),
{
    match reading {
        Some(seconds) => seconds,
        None => 0,
    }
}

/// The current time as a timestamp: the clock's reading in whole seconds
/// since the Unix epoch, 0 when the clock reads before the epoch. Which time
/// that is depends on the clock, so the result is left open here; the
/// conversion is `timestamp_from_seconds`.
pub fn now_timestamp() -> (r: u64) {
    let reading = clock_seconds();
    timestamp_from_seconds(reading)
}

/// A fresh entry of the given parts, stamped with a new identifier and the
/// current time.
fn new_entry(
    from: &str,
    to: &str,
    content: &str,
    entry_type: &str,
    tool_call_id: Option<String>,
    metadata: Option<EntryMetadata>,
) -> (e: TranscriptEntry)
    ensures
        is_uuid_v4_text(e@.id),
        e@.from == from@,
        e@.to == to@,
        e@.content == content@,
        e@.entry_type == entry_type@,
        e@.tool_call_id == opt_str(tool_call_id),
        e@.metadata == metadata_view(metadata),
{
    TranscriptEntry {
        id: new_entry_id(),
        timestamp: now_timestamp(),
        from: copy_str(from),
        to: copy_str(to),
        content: copy_str(content),
        entry_type: copy_str(entry_type),
        metadata,
        tool_call_id,
    }
}

/// A fresh entry without metadata, stamped with a new identifier and the
/// current time.
pub fn made_entry_from(
    from: &str,
    to: &str,
    content: &str,
    entry_type: &str,
    tool_call_id: Option<String>,
) -> (e: TranscriptEntry)
    ensures
        is_uuid_v4_text(e@.id),
        e@.from == from@,
        e@.to == to@,
        e@.content == content@,
        e@.entry_type == entry_type@,
        e@.tool_call_id == opt_str(tool_call_id),
        e@.metadata is None,
{
    new_entry(from, to, content, entry_type, tool_call_id, None)
}

/// What an entry made by the constructors below holds besides its fresh
/// identifier and timestamp.
pub open spec fn made_entry(
    e: EntryView,
    from: Seq<char>,
    to: Seq<char>,
    content: Seq<char>,
    entry_type: Seq<char>,
    tool_call_id: Option<Seq<char>>,
) -> bool {
    &&& is_uuid_v4_text(e.id)
    &&& e.from == from
    &&& e.to == to
    &&& e.content == content
    &&& e.entry_type == entry_type
    &&& e.tool_call_id == tool_call_id
}

/// Create a transcript entry for a user message.
pub fn create_user_message_entry(context_name: &str, content: &str, username: &str) -> (e:
    TranscriptEntry)
    ensures
        made_entry(e@, username@, context_name@, content@, ENTRY_TYPE_MESSAGE@, None),
        e@.metadata is None,
{
    new_entry(username, context_name, content, ENTRY_TYPE_MESSAGE, None, None)
}

/// Create a transcript entry for an assistant message.
pub fn create_assistant_message_entry(context_name: &str, content: &str) -> (e: TranscriptEntry)
    ensures
        made_entry(e@, context_name@, "user"@, content@, ENTRY_TYPE_MESSAGE@, None),
        e@.metadata is None,
{
    new_entry(context_name, "user", content, ENTRY_TYPE_MESSAGE, None, None)
}

/// Create a transcript entry for a tool call.
pub fn create_tool_call_entry(
    context_name: &str,
    tool_name: &str,
    arguments: &str,
    tool_call_id: &str,
) -> (e: TranscriptEntry)
    ensures
        made_entry(
            e@,
            context_name@,
            tool_name@,
            arguments@,
            ENTRY_TYPE_TOOL_CALL@,
            Some(tool_call_id@),
        ),
        e@.metadata is None,
{
    new_entry(
        context_name,
        tool_name,
        arguments,
        ENTRY_TYPE_TOOL_CALL,
        Some(copy_str(tool_call_id)),
        None,
    )
}

/// Create a transcript entry for a tool result.
pub fn create_tool_result_entry(
    context_name: &str,
    tool_name: &str,
    result: &str,
    tool_call_id: &str,
) -> (e: TranscriptEntry)
    ensures
        made_entry(
            e@,
            tool_name@,
            context_name@,
            result@,
            ENTRY_TYPE_TOOL_RESULT@,
            Some(tool_call_id@),
        ),
        e@.metadata is None,
{
    new_entry(
        tool_name,
        context_name,
        result,
        ENTRY_TYPE_TOOL_RESULT,
        Some(copy_str(tool_call_id)),
        None,
    )
}

/// Create a context_created anchor entry.
pub fn create_context_created_anchor(context_name: &str) -> (e: TranscriptEntry)
    ensures
        made_entry(
            e@,
            "system"@,
            context_name@,
            "Context created"@,
            ENTRY_TYPE_CONTEXT_CREATED@,
            None,
        ),
        e@.metadata is None,
{
    new_entry("system", context_name, "Context created", ENTRY_TYPE_CONTEXT_CREATED, None, None)
}

/// Create a compaction anchor entry carrying the compaction summary.
pub fn create_compaction_anchor(context_name: &str, summary: &str) -> (e: TranscriptEntry)
    ensures
        made_entry(
            e@,
            "system"@,
            context_name@,
            "Context compacted"@,
            ENTRY_TYPE_COMPACTION@,
            None,
        ),
        e@.metadata == Some(MetadataView { summary: Some(summary@), transcript_anchor_id: None }),
{
    let metadata = EntryMetadata { summary: Some(copy_str(summary)), transcript_anchor_id: None };
    new_entry(
        "system",
        context_name,
        "Context compacted",
        ENTRY_TYPE_COMPACTION,
        None,
        Some(metadata),
    )
}

/// Create the entry that records a new system prompt for a context, with
/// the full prompt as its content.
pub fn create_system_prompt_changed_entry(context_name: &str, prompt: &str) -> (e: TranscriptEntry)
    ensures
        made_entry(
            e@,
            "system"@,
            context_name@,
            prompt@,
            ENTRY_TYPE_SYSTEM_PROMPT_CHANGED@,
            None,
        ),
        e@.metadata is None,
{
    new_entry("system", context_name, prompt, ENTRY_TYPE_SYSTEM_PROMPT_CHANGED, None, None)
}

/// Create an archival anchor entry.
pub fn create_archival_anchor(context_name: &str) -> (e: TranscriptEntry)
    ensures
        made_entry(
            e@,
            "system"@,
            context_name@,
            "Context archived/cleared"@,
            ENTRY_TYPE_ARCHIVAL@,
            None,
        ),
        e@.metadata is None,
{
    new_entry("system", context_name, "Context archived/cleared", ENTRY_TYPE_ARCHIVAL, None, None)
}

// ---------------------------------------------------------------------------
// Reading entries from JSON lines
// ---------------------------------------------------------------------------

/// An optional string member: absent or `null` is `Some(None)`, a string is
/// `Some(Some(s))`, anything else makes the record invalid (`None`).
pub open spec fn opt_str_field(v: JsonView, key: Seq<char>) -> Option<Option<Seq<char>>> {
    match view_get(v, key) {
        None => Some(None),
        Some(JsonView::Null) => Some(None),
        Some(JsonView::Str(s)) => Some(Some(s)),
        _ => None,
    }
}

/// The `metadata` member: absent or `null` is no metadata, an object gives
/// its two optional strings, anything else makes the record invalid.
pub open spec fn metadata_field(v: JsonView) -> Option<Option<MetadataView>> {
    match view_get(v, "metadata"@) {
        None => Some(None),
        Some(JsonView::Null) => Some(None),
        Some(JsonView::Object(m)) => {
            let mv = JsonView::Object(m);
            match (opt_str_field(mv, "summary"@), opt_str_field(mv, "transcript_anchor_id"@)) {
                (Some(summary), Some(anchor)) => Some(
                    Some(MetadataView { summary, transcript_anchor_id: anchor }),
                ),
                _ => None,
            }
        },
        _ => None,
    }
}

/// The entry a JSON record describes: an object with string members `id`,
/// `from`, `to`, `content` and `entry_type`, a non-negative integer
/// `timestamp`, and optional `metadata` and `tool_call_id`; `None` when the
/// record does not have that shape.
pub open spec fn entry_of_json(v: JsonView) -> Option<EntryView> {
    if view_get_str(v, "id"@) is Some && view_get_u64(v, "timestamp"@) is Some && view_get_str(
        v,
        "from"@,
    ) is Some && view_get_str(v, "to"@) is Some && view_get_str(v, "content"@) is Some
        && view_get_str(v, "entry_type"@) is Some && metadata_field(v) is Some && opt_str_field(
        v,
        "tool_call_id"@,
    ) is Some {
        Some(
            EntryView {
                id: view_get_str(v, "id"@).unwrap(),
                timestamp: view_get_u64(v, "timestamp"@).unwrap(),
                from: view_get_str(v, "from"@).unwrap(),
                to: view_get_str(v, "to"@).unwrap(),
                content: view_get_str(v, "content"@).unwrap(),
                entry_type: view_get_str(v, "entry_type"@).unwrap(),
                metadata: metadata_field(v).unwrap(),
                tool_call_id: opt_str_field(v, "tool_call_id"@).unwrap(),
            },
        )
    } else {
        None
    }
}

/// An optional string member of `v`.
fn opt_str_member(v: &Json, key: &str) -> (r: Option<Option<String>>)
    ensures
        match r {
            Some(o) => opt_str_field(json_view(*v), key@) == Some(opt_str(o)),
            None => opt_str_field(json_view(*v), key@) is None,
        },
{
    match v.get(key) {
        None => Some(None),
        Some(Json::Null) => Some(None),
        Some(Json::Str(s)) => Some(Some(copy_str(s.as_str()))),
        Some(_) => None,
    }
}

/// The `metadata` member of `v`.
fn metadata_member(v: &Json) -> (r: Option<Option<EntryMetadata>>)
    ensures
        match r {
            Some(o) => metadata_field(json_view(*v)) == Some(metadata_view(o)),
            None => metadata_field(json_view(*v)) is None,
        },
{
    match v.get("metadata") {
        None => Some(None),
        Some(Json::Null) => Some(None),
        Some(m) => {
            match m {
                Json::Object(_) => {
                    let summary = opt_str_member(m, "summary");
                    let anchor = opt_str_member(m, "transcript_anchor_id");
                    match (summary, anchor) {
                        (Some(summary), Some(transcript_anchor_id)) => Some(
                            Some(EntryMetadata { summary, transcript_anchor_id }),
                        ),
                        _ => None,
                    }
                },
                _ => None,
            }
        },
    }
}

/// The entry a parsed JSON record describes, if it has the shape of one.
pub fn entry_from_json(v: &Json) -> (r: Option<TranscriptEntry>)
    ensures
        match r {
            Some(e) => entry_of_json(json_view(*v)) == Some(e@),
            None => entry_of_json(json_view(*v)) is None,
        },
        match r {
            Some(e) => match view_get(json_view(*v), "tool_call_id"@) {
                Some(JsonView::Str(s)) => e@.tool_call_id == Some(s),
                _ => e@.tool_call_id is None,
            },
            None => true,
        },
{
    let id = v.get_str("id");
    let timestamp = v.get_u64("timestamp");
    let from = v.get_str("from");
    let to = v.get_str("to");
    let content = v.get_str("content");
    let entry_type = v.get_str("entry_type");
    let metadata = metadata_member(v);
    let tool_call_id = opt_str_member(v, "tool_call_id");
    match (id, timestamp, from, to, content, entry_type, metadata, tool_call_id) {
        (
            Some(id),
            Some(timestamp),
            Some(from),
            Some(to),
            Some(content),
            Some(entry_type),
            Some(metadata),
            Some(tool_call_id),
        ) => {
            let e = TranscriptEntry {
                id,
                timestamp,
                from,
                to,
                content,
                entry_type,
                metadata,
                tool_call_id,
            };
            proof {
                law_entry_keeps_record(json_view(*v), e@);
            }
            Some(e)
        },
        _ => None,
    }
}

/// Reading an entry keeps what its record says: each string member as
/// written, the timestamp, and the id of the call: the string of the
/// `tool_call_id` member, and none when that member is absent or null.
pub proof fn law_entry_keeps_record(v: JsonView, e: EntryView)
    requires
        entry_of_json(v) == Some(e),
    ensures
        view_get(v, "id"@) == Some(JsonView::Str(e.id)),
        view_get(v, "from"@) == Some(JsonView::Str(e.from)),
        view_get(v, "to"@) == Some(JsonView::Str(e.to)),
        view_get(v, "content"@) == Some(JsonView::Str(e.content)),
        view_get(v, "entry_type"@) == Some(JsonView::Str(e.entry_type)),
        view_get(v, "timestamp"@) == Some(JsonView::Number(JsonNumber::PosInt(e.timestamp))),
        match view_get(v, "tool_call_id"@) {
            Some(JsonView::Str(s)) => e.tool_call_id == Some(s),
            _ => e.tool_call_id is None,
        },
{
}

/// The entry a line of a JSONL file holds, if it parses to one.
pub open spec fn entry_of_line(line: Seq<char>) -> Option<EntryView> {
    match parsed_json(line) {
        Some(v) => entry_of_json(v),
        None => None,
    }
}

/// The entries held by a sequence of lines, in order; lines that do not
/// parse to an entry (blank or malformed ones) are skipped.
pub open spec fn entries_of_lines(lines: Seq<Seq<char>>) -> Seq<EntryView>
    decreases lines.len(),
{
    if lines.len() == 0 {
        Seq::empty()
    } else {
        let before = entries_of_lines(lines.drop_last());
        match entry_of_line(lines.last()) {
            Some(e) => before.push(e),
            None => before,
        }
    }
}

/// The entries of a JSONL text, one per line that parses to an entry;
/// blank and malformed lines are skipped.
pub fn parse_jsonl_entries(content: &str) -> (r: Vec<TranscriptEntry>)
    ensures
        entries_view(r@) == entries_of_lines(split_lines(content@)),
{
    let chars = to_chars(content);
    let lines = lines_of(chars.as_slice());
    let ghost ls = split_lines(content@);
    let mut out: Vec<TranscriptEntry> = Vec::new();
    let n = lines.len();
    let mut i: usize = 0;
    while i < n
        invariant
            n == ls.len(),
            n == lines@.len(),
            forall|k: int| 0 <= k < n ==> #[trigger] lines@[k]@ == ls[k],
            i <= n,
            entries_view(out@) =~= entries_of_lines(ls.take(i as int)),
        decreases n - i,
    {
        let line = from_chars(lines[i].as_slice());
        assert(ls.take(i + 1).drop_last() =~= ls.take(i as int));
        assert(ls.take(i + 1).last() == line@);
        let ghost before = entries_view(out@);
        match parse_json(line.as_str()) {
            Some(j) => match entry_from_json(&j) {
                Some(e) => {
                    out.push(e);
                    assert(entries_view(out@) =~= before.push(out@.last()@));
                },
                None => {},
            },
            None => {},
        }
        i = i + 1;
    }
    assert(ls.take(n as int) =~= ls);
    out
}

} // verus!
