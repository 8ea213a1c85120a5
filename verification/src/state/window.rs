//! The working window of a context (`context.jsonl`) and how it is rebuilt
//! from the authoritative transcript.

use vstd::prelude::*;

use crate::text::{copy_str, str_eq};
use super::entries::{
    entries_view, is_uuid_v4_text, made_entry_from, metadata_view, opt_str, EntryMetadata,
    EntryView, TranscriptEntry, ENTRY_TYPE_ARCHIVAL, ENTRY_TYPE_COMPACTION,
    ENTRY_TYPE_CONTEXT_CREATED, ENTRY_TYPE_FLOW_CONTROL_CALL, ENTRY_TYPE_FLOW_CONTROL_RESULT,
    ENTRY_TYPE_SYSTEM_PROMPT_CHANGED,
};

verus! {

/// Entries of these kinds belong in the working window; prompt changes and
/// flow-control plumbing stay in the transcript only.
pub open spec fn belongs_in_context(e: EntryView) -> bool {
    !(e.entry_type == ENTRY_TYPE_SYSTEM_PROMPT_CHANGED@ || e.entry_type
        == ENTRY_TYPE_FLOW_CONTROL_CALL@ || e.entry_type == ENTRY_TYPE_FLOW_CONTROL_RESULT@)
}

/// Anchors start a window: creation, compaction and archival.
pub open spec fn is_anchor(e: EntryView) -> bool {
    e.entry_type == ENTRY_TYPE_CONTEXT_CREATED@ || e.entry_type == ENTRY_TYPE_COMPACTION@
        || e.entry_type == ENTRY_TYPE_ARCHIVAL@
}

/// The position of the last anchor in `es`, if there is one.
pub open spec fn last_anchor(es: Seq<EntryView>) -> Option<int>
    decreases es.len(),
{
    if es.len() == 0 {
        None
    } else if is_anchor(es.last()) {
        Some(es.len() - 1)
    } else {
        last_anchor(es.drop_last())
    }
}

/// The last anchor is an anchor inside the sequence.
pub proof fn lemma_last_anchor(es: Seq<EntryView>)
    ensures
        match last_anchor(es) {
            Some(k) => 0 <= k < es.len() && is_anchor(es[k]),
            None => forall|i: int| 0 <= i < es.len() ==> !is_anchor(#[trigger] es[i]),
        },
    decreases es.len(),
{
    if es.len() > 0 && !is_anchor(es.last()) {
        let d = es.drop_last();
        lemma_last_anchor(d);
        if last_anchor(d) is None {
            assert forall|i: int| 0 <= i < es.len() implies !is_anchor(#[trigger] es[i]) by {
                if i < d.len() {
                    assert(d[i] == es[i]);
                }
            }
        }
    }
}

/// The entries of `es` that belong in the working window, in order.
pub open spec fn window_entries(es: Seq<EntryView>) -> Seq<EntryView> {
    es.filter(|e: EntryView| belongs_in_context(e))
}

/// Whether a transcript entry belongs in the working window.
pub fn is_context_entry(entry: &TranscriptEntry) -> (r: bool)
    ensures
        r == belongs_in_context(entry@),
{
    let t = entry.entry_type.as_str();
    !(str_eq(t, ENTRY_TYPE_SYSTEM_PROMPT_CHANGED) || str_eq(t, ENTRY_TYPE_FLOW_CONTROL_CALL)
        || str_eq(t, ENTRY_TYPE_FLOW_CONTROL_RESULT))
}

/// Whether a transcript entry is an anchor.
fn is_anchor_entry(entry: &TranscriptEntry) -> (r: bool)
    ensures
        r == is_anchor(entry@),
{
    let t = entry.entry_type.as_str();
    str_eq(t, ENTRY_TYPE_CONTEXT_CREATED) || str_eq(t, ENTRY_TYPE_COMPACTION) || str_eq(
        t,
        ENTRY_TYPE_ARCHIVAL,
    )
}

/// A copy of optional metadata.
fn copy_metadata(m: &Option<EntryMetadata>) -> (r: Option<EntryMetadata>)
    ensures
        metadata_view(r) == metadata_view(*m),
{
    match m {
        Some(m) => Some(
            EntryMetadata {
                summary: copy_opt(&m.summary),
                transcript_anchor_id: copy_opt(&m.transcript_anchor_id),
            },
        ),
        None => None,
    }
}

/// A copy of an optional string.
fn copy_opt(o: &Option<String>) -> (r: Option<String>)
    ensures
        opt_str(r) == opt_str(*o),
{
    match o {
        Some(s) => Some(copy_str(s.as_str())),
        None => None,
    }
}

impl TranscriptEntry {
    /// A copy of this entry.
    pub fn duplicate(&self) -> (r: TranscriptEntry)
        ensures
            r@ == self@,
    {
        TranscriptEntry {
            id: copy_str(self.id.as_str()),
            timestamp: self.timestamp,
            from: copy_str(self.from.as_str()),
            to: copy_str(self.to.as_str()),
            content: copy_str(self.content.as_str()),
            entry_type: copy_str(self.entry_type.as_str()),
            metadata: copy_metadata(&self.metadata),
            tool_call_id: copy_opt(&self.tool_call_id),
        }
    }
}

/// The position of the last anchor among `entries`.
fn last_anchor_index(entries: &[TranscriptEntry]) -> (r: Option<usize>)
    ensures
        match r {
            Some(k) => last_anchor(entries_view(entries@)) == Some(k as int),
            None => last_anchor(entries_view(entries@)) is None,
        },
{
    let ghost es = entries_view(entries@);
    let mut i: usize = entries.len();
    assert(es.take(i as int) =~= es);
    while i > 0
        invariant
            i <= entries@.len(),
            es == entries_view(entries@),
            last_anchor(es) == last_anchor(es.take(i as int)),
        decreases i,
    {
        let ghost t = es.take(i as int);
        assert(t.last() == entries@[i - 1]@);
        assert(t.drop_last() =~= es.take(i - 1));
        if is_anchor_entry(&entries[i - 1]) {
            return Some(i - 1);
        }
        i = i - 1;
    }
    assert(es.take(0).len() == 0);
    None
}

/// Appends to `out` the entries of `entries[from..]` that belong in the
/// working window.
fn push_window_entries(out: &mut Vec<TranscriptEntry>, entries: &[TranscriptEntry], from: usize)
    requires
        from <= entries@.len(),
    ensures
        entries_view(final(out)@) == entries_view(old(out)@) + window_entries(
            entries_view(entries@).skip(from as int),
        ),
{
    let ghost es = entries_view(entries@).skip(from as int);
    let ghost start = entries_view(out@);
    let n = entries.len();
    let mut i: usize = from;
    proof {
        reveal(Seq::filter);
        assert(es.take(0) =~= Seq::<EntryView>::empty());
    }
    while i < n
        invariant
            n == entries@.len(),
            from <= i <= n,
            es == entries_view(entries@).skip(from as int),
            entries_view(out@) =~= start + window_entries(es.take(i - from)),
        decreases n - i,
    {
        proof {
            reveal(Seq::filter);
        }
        let e = &entries[i];
        let ghost prefix = es.take(i - from);
        let ghost next = es.take(i + 1 - from);
        assert(next.drop_last() =~= prefix);
        assert(next.last() == e@);
        let ghost before = entries_view(out@);
        if is_context_entry(e) {
            out.push(e.duplicate());
            assert(entries_view(out@) =~= before.push(e@));
        }
        i = i + 1;
    }
    assert(es.take(n - from) =~= es);
}

/// The window starts at the last creation, compaction or archival entry:
/// when `es[k]` is of one of those three kinds and no entry after it is,
/// `es[k]` is the anchor that rebuilding starts from.
pub proof fn law_last_anchor_kinds(es: Seq<EntryView>, k: int)
    requires
        0 <= k < es.len(),
        es[k].entry_type == ENTRY_TYPE_CONTEXT_CREATED@ || es[k].entry_type
            == ENTRY_TYPE_COMPACTION@ || es[k].entry_type == ENTRY_TYPE_ARCHIVAL@,
        forall|j: int|
            k < j < es.len() ==> (#[trigger] es[j]).entry_type != ENTRY_TYPE_CONTEXT_CREATED@
                && es[j].entry_type != ENTRY_TYPE_COMPACTION@ && es[j].entry_type
                != ENTRY_TYPE_ARCHIVAL@,
    ensures
        last_anchor(es) == Some(k),
    decreases es.len(),
{
    if k < es.len() - 1 {
        let d = es.drop_last();
        assert(es[es.len() - 1] == es.last());
        assert(!is_anchor(es.last()));
        assert forall|j: int| k < j < d.len() implies (#[trigger] d[j]).entry_type
            != ENTRY_TYPE_CONTEXT_CREATED@ && d[j].entry_type != ENTRY_TYPE_COMPACTION@
            && d[j].entry_type != ENTRY_TYPE_ARCHIVAL@ by {
            assert(d[j] == es[j]);
        }
        law_last_anchor_kinds(d, k);
    }
}

/// The working window rebuilt from a context's transcript: the last anchor
/// of the transcript followed by the entries after it that belong in the
/// window; with no anchor, a fresh `context_created` anchor stamped
/// `created_at` followed by every entry that belongs in the window.
pub fn rebuild_context_entries(
    transcript: &[TranscriptEntry],
    context_name: &str,
    created_at: u64,
) -> (r: Vec<TranscriptEntry>)
    ensures
        match last_anchor(entries_view(transcript@)) {
            Some(k) => entries_view(r@) == seq![entries_view(transcript@)[k]] + window_entries(
                entries_view(transcript@).skip(k + 1),
            ),
            None => {
                &&& r@.len() >= 1
                &&& is_uuid_v4_text(r@[0]@.id)
                &&& r@[0]@.timestamp == created_at
                &&& r@[0]@.from == "system"@
                &&& r@[0]@.to == context_name@
                &&& r@[0]@.content == "Context created"@
                &&& r@[0]@.entry_type == ENTRY_TYPE_CONTEXT_CREATED@
                &&& r@[0]@.metadata is None
                &&& r@[0]@.tool_call_id is None
                &&& entries_view(r@).drop_first() == window_entries(entries_view(transcript@))
            },
        },
        forall|k: int|
            0 <= k < transcript@.len() && ((#[trigger] transcript@[k])@.entry_type
                == ENTRY_TYPE_CONTEXT_CREATED@ || transcript@[k]@.entry_type
                == ENTRY_TYPE_COMPACTION@ || transcript@[k]@.entry_type == ENTRY_TYPE_ARCHIVAL@) && (
            forall|j: int|
                k < j < transcript@.len() ==> (#[trigger] transcript@[j])@.entry_type
                    != ENTRY_TYPE_CONTEXT_CREATED@ && transcript@[j]@.entry_type
                    != ENTRY_TYPE_COMPACTION@ && transcript@[j]@.entry_type
                    != ENTRY_TYPE_ARCHIVAL@) ==> entries_view(r@) == seq![transcript@[k]@]
                + window_entries(entries_view(transcript@).skip(k + 1)),
{
    let mut out: Vec<TranscriptEntry> = Vec::new();
    proof {
        lemma_last_anchor(entries_view(transcript@));
    }
    match last_anchor_index(transcript) {
        Some(k) => {
            out.push(transcript[k].duplicate());
            assert(entries_view(out@) =~= seq![entries_view(transcript@)[k as int]]);
            push_window_entries(&mut out, transcript, k + 1);
        },
        None => {
            let mut anchor = made_entry_from(
                "system",
                context_name,
                "Context created",
                ENTRY_TYPE_CONTEXT_CREATED,
                None,
            );
            anchor.timestamp = created_at;
            let ghost av = anchor@;
            out.push(anchor);
            let ghost first = entries_view(out@);
            assert(first =~= seq![av]);
            push_window_entries(&mut out, transcript, 0);
            assert(entries_view(transcript@).skip(0) =~= entries_view(transcript@));
            assert(entries_view(out@)[0] == av);
            assert(entries_view(out@).len() == out@.len());
            assert(out@[0]@ == entries_view(out@)[0]);
            assert(entries_view(out@).drop_first() =~= window_entries(entries_view(transcript@)));
        },
    }
    proof {
        let es = entries_view(transcript@);
        assert forall|k: int|
            0 <= k < transcript@.len() && ((#[trigger] transcript@[k])@.entry_type
                == ENTRY_TYPE_CONTEXT_CREATED@ || transcript@[k]@.entry_type
                == ENTRY_TYPE_COMPACTION@ || transcript@[k]@.entry_type == ENTRY_TYPE_ARCHIVAL@) && (
            forall|j: int|
                k < j < transcript@.len() ==> (#[trigger] transcript@[j])@.entry_type
                    != ENTRY_TYPE_CONTEXT_CREATED@ && transcript@[j]@.entry_type
                    != ENTRY_TYPE_COMPACTION@ && transcript@[j]@.entry_type
                    != ENTRY_TYPE_ARCHIVAL@) implies entries_view(out@) == seq![transcript@[k]@]
            + window_entries(es.skip(k + 1)) by {
            assert(es[k] == transcript@[k]@);
            assert forall|j: int| k < j < es.len() implies (#[trigger] es[j]).entry_type
                != ENTRY_TYPE_CONTEXT_CREATED@ && es[j].entry_type != ENTRY_TYPE_COMPACTION@
                && es[j].entry_type != ENTRY_TYPE_ARCHIVAL@ by {
                assert(es[j] == transcript@[j]@);
            }
            law_last_anchor_kinds(es, k);
        }
    }
    out
}

} // verus!
