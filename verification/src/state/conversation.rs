//! A context as the rest of the program sees it: its chat messages, times
//! and summary, assembled from its entries when it is loaded.

use vstd::prelude::*;

use crate::error::{ErrorKind, ToolError};
use crate::json::{
    json_text, json_view, jsons_view, members_view, object_of, str_member, to_json_text, Json,
    JsonView,
};
use crate::tools::memory::byte_len;
use super::app::AppState;
use crate::text::copy_str;
use super::entries::{entries_view, is_uuid_v4_text, new_entry_id, now_timestamp, TranscriptEntry};
use super::messages::{entries_to_messages, messages_of};

verus! {

/// A context: its name, chat messages, creation and last update times, and
/// summary.
pub struct Context {
    pub name: String,
    pub messages: Vec<Json>,
    pub created_at: u64,
    pub updated_at: u64,
    pub summary: String,
}

impl Context {
    /// An empty context named `name`, created and updated now.
    pub fn new(name: &str) -> (c: Context)
        ensures
            c.name@ == name@,
            c.messages@.len() == 0,
            c.updated_at == c.created_at,
            c.summary@.len() == 0,
    {
        let now = now_timestamp();
        Context { name: copy_str(name), messages: Vec::new(), created_at: now, updated_at: now, summary: String::new() }
    }

    /// The context as loaded from its entries: the chat messages they make,
    /// updated at the time of the last entry (at its creation time when it
    /// has none).
    pub fn from_entries(name: &str, entries: &[TranscriptEntry], summary: &str, created_at: u64) -> (c:
        Context)
        ensures
            c.name@ == name@,
            jsons_view(c.messages@) == messages_of(entries_view(entries@)),
            c.created_at == created_at,
            c.updated_at == if entries@.len() == 0 {
                created_at
            } else {
                entries@.last().timestamp
            },
            c.summary@ == summary@,
    {
        let messages = entries_to_messages(entries);
        let updated_at = if entries.len() == 0 {
            created_at
        } else {
            entries[entries.len() - 1].timestamp
        };
        Context { name: copy_str(name), messages, created_at, updated_at, summary: copy_str(summary) }
    }
}

/// The context `name` as loading it gave it, or an empty one when it does
/// not exist yet (loading failed with `NotFound`); other failures are
/// passed on.
pub fn get_or_create_context(name: &str, loaded: Result<Context, ToolError>) -> (r: Result<
    Context,
    ToolError,
>)
    ensures
        match loaded {
            Ok(c) => r == Ok::<Context, ToolError>(c),
            Err(e) => if e.kind == ErrorKind::NotFound {
                r matches Ok(c) && c.name@ == name@ && c.messages@.len() == 0 && c.summary@.len() == 0
            } else {
                r == Err::<Context, ToolError>(e)
            },
        },
{
    match loaded {
        Ok(c) => Ok(c),
        Err(e) => {
            if e.kind == ErrorKind::NotFound {
                Ok(Context::new(name))
            } else {
                Err(e)
            }
        },
    }
}

/// Adds a chat message with a fresh identifier to the context, which is
/// then updated now.
pub fn add_message(context: &mut Context, role: &str, content: &str)
    ensures
        final(context).name == old(context).name,
        final(context).created_at == old(context).created_at,
        final(context).summary == old(context).summary,
        final(context).messages@.len() == old(context).messages@.len() + 1,
        final(context).messages@.take(old(context).messages@.len() as int) == old(context).messages@,
        ({
            let m = json_view(final(context).messages@.last());
            &&& m matches JsonView::Object(ms)
            &&& ms.len() == 3
            &&& ms[0].0 == "_id"@ && (ms[0].1 matches JsonView::Str(id) && is_uuid_v4_text(id))
            &&& ms[1] == ("role"@, JsonView::Str(role@))
            &&& ms[2] == ("content"@, JsonView::Str(content@))
        }),
{
    let id = new_entry_id();
    let ghost idv = id@;
    let mut m: Vec<(String, Json)> = Vec::new();
    m.push((copy_str("_id"), Json::Str(id)));
    m.push(str_member("role", role));
    m.push(str_member("content", content));
    assert(members_view(m@) =~= seq![
        ("_id"@, JsonView::Str(idv)),
        ("role"@, JsonView::Str(role@)),
        ("content"@, JsonView::Str(content@)),
    ]);
    let ghost before = context.messages@;
    context.messages.push(object_of(m));
    assert(context.messages@.take(before.len() as int) =~= before);
    context.updated_at = now_timestamp();
}

/// The estimated tokens of one message: a quarter of the bytes of its JSON
/// text, rounded down.
pub open spec fn message_tokens(m: JsonView) -> nat {
    byte_len(json_text(m)) / 4
}

/// The estimated tokens of messages: the sum over the messages.
pub open spec fn token_count(ms: Seq<JsonView>) -> nat
    decreases ms.len(),
{
    if ms.len() == 0 {
        0
    } else {
        token_count(ms.drop_last()) + message_tokens(ms.last())
    }
}

/// The estimate of a prefix is at most the estimate of the whole.
proof fn lemma_token_count_prefix(ms: Seq<JsonView>, k: int)
    requires
        0 <= k <= ms.len(),
    ensures
        token_count(ms.take(k)) <= token_count(ms),
    decreases ms.len(),
{
    if k < ms.len() {
        assert(ms.drop_last().take(k) =~= ms.take(k));
        lemma_token_count_prefix(ms.drop_last(), k);
    } else {
        assert(ms.take(k) =~= ms);
    }
}

/// The tokens left of a context window of `limit` tokens after `tokens`:
/// unbounded (`usize::MAX`) for an unknown window (0).
pub open spec fn tokens_left(limit: usize, tokens: nat) -> usize {
    if limit == 0 {
        usize::MAX
    } else if tokens >= limit {
        0
    } else {
        (limit - tokens) as usize
    }
}

impl AppState {
    /// The estimated tokens of messages: each message's serialized JSON
    /// length in bytes divided by four, summed.
    pub fn calculate_token_count(&self, messages: &[Json]) -> (r: usize)
        requires
            token_count(jsons_view(messages@)) <= usize::MAX,
        ensures
            r == token_count(jsons_view(messages@)),
    {
        let ghost ms = jsons_view(messages@);
        let n = messages.len();
        let mut total: usize = 0;
        let mut i: usize = 0;
        while i < n
            invariant
                n == messages@.len(),
                ms == jsons_view(messages@),
                token_count(ms) <= usize::MAX,
                i <= n,
                total == token_count(ms.take(i as int)),
            decreases n - i,
        {
            let text = to_json_text(&messages[i]);
            let tokens = text.as_str().len() / 4;
            proof {
                assert(ms.take(i + 1).drop_last() =~= ms.take(i as int));
                assert(ms.take(i + 1).last() == json_view(messages@[i as int]));
                lemma_token_count_prefix(ms, i + 1);
            }
            total = total + tokens;
            i = i + 1;
        }
        assert(ms.take(n as int) =~= ms);
        total
    }

    /// The estimated tokens of messages, or `None` when the estimate does
    /// not fit in a `usize`.
    pub fn checked_token_count(&self, messages: &[Json]) -> (r: Option<usize>)
        ensures
            match r {
                Some(t) => t == token_count(jsons_view(messages@)),
                None => token_count(jsons_view(messages@)) > usize::MAX,
            },
    {
        let ghost ms = jsons_view(messages@);
        let n = messages.len();
        let mut total: usize = 0;
        let mut i: usize = 0;
        while i < n
            invariant
                n == messages@.len(),
                ms == jsons_view(messages@),
                i <= n,
                total == token_count(ms.take(i as int)),
            decreases n - i,
        {
            let text = to_json_text(&messages[i]);
            let tokens = text.as_str().len() / 4;
            proof {
                assert(ms.take(i + 1).drop_last() =~= ms.take(i as int));
                assert(ms.take(i + 1).last() == json_view(messages@[i as int]));
            }
            match total.checked_add(tokens) {
                Some(t) => total = t,
                None => {
                    proof {
                        lemma_token_count_prefix(ms, i + 1);
                    }
                    return None;
                },
            }
            i = i + 1;
        }
        assert(ms.take(n as int) =~= ms);
        Some(self.calculate_token_count(messages))
    }

    /// The tokens left in a context window of `context_window_limit` tokens
    /// (0 when unknown, then unbounded) after the estimated tokens of
    /// `messages`; never below zero.
    pub fn remaining_tokens(&self, context_window_limit: usize, messages: &[Json]) -> (r: usize)
        ensures
            r == tokens_left(context_window_limit, token_count(jsons_view(messages@))),
    {
        if context_window_limit == 0 {
            return usize::MAX;
        }
        match self.checked_token_count(messages) {
            Some(tokens) => context_window_limit.saturating_sub(tokens),
            None => 0,
        }
    }
}

} // verus!
