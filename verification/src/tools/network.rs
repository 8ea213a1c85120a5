//! Network tools: outbound HTTP (`fetch_url`).
//! Callers apply the URL policy and the PreFetchUrl hook before fetching.

use vstd::prelude::*;
use super::schema::{def_api_json, defs_to_api_format};

use vstd::utf8::{decode_utf8, valid_utf8};

use crate::error::{ErrorKind, ToolError};
use crate::json::{json_view, jsons_view, Json};
use crate::text::{copy_str, decimal, push_decimal, push_str, str_starts_with, has_prefix};
use super::fs_read::u64_or;
use super::fs_write::{missing_param_msg, require_str_param};
use super::{has_def_named, table_names, table_of, BuiltinToolDef, DefSummary, ToolPropertyDef};

verus! {

pub const FETCH_URL_TOOL_NAME: &'static str = "fetch_url";

/// The summaries of the network tool definitions.
pub open spec fn network_table() -> Seq<DefSummary> {
    seq![
        DefSummary {
            name: "fetch_url"@,
            required: seq!["url"@],
            summary_params: seq!["url"@],
            property_names: seq!["url"@, "max_bytes"@, "timeout_secs"@],
        },
    ]
}

/// All network tool definitions.
pub fn network_tool_defs() -> (r: Vec<BuiltinToolDef>)
    ensures
        table_of(r@) == network_table(),
{
    let r = vec![
        BuiltinToolDef {
            name: "fetch_url",
            description: "Fetch content from a URL via HTTP GET and return the response body. Follows redirects. Use for retrieving web pages, API responses, or raw file content.",
            properties: vec![
                ToolPropertyDef {
                    name: "url",
                    prop_type: "string",
                    description: "URL to fetch (must start with http:// or https://)",
                    default: None,
                },
                ToolPropertyDef {
                    name: "max_bytes",
                    prop_type: "integer",
                    description: "Maximum response body size in bytes (default: 1048576 = 1MB)",
                    default: Some(1048576),
                },
                ToolPropertyDef {
                    name: "timeout_secs",
                    prop_type: "integer",
                    description: "Request timeout in seconds (default: 30)",
                    default: Some(30),
                },
            ],
            required: vec!["url"],
            summary_params: vec!["url"],
        },
    ];
    assert(table_of(r@) =~~= network_table());
    r
}


/// Check if a tool name belongs to the network group.
pub fn is_network_tool(name: &str) -> (r: bool)
    ensures
        r == table_names(network_table()).contains(name@),
{
    has_def_named(&network_tool_defs(), name)
}

// ---------------------------------------------------------------------------
// Fetching a URL with a size limit
// ---------------------------------------------------------------------------

/// The arguments of a fetch_url call: the URL, the byte limit (1 MiB by
/// default) and the timeout in seconds (30 by default); the error for a
/// missing `url` string.
pub fn fetch_request(args: &Json) -> (r: Result<(String, u64, u64), ToolError>)
    ensures
        match r {
            Ok((url, max_bytes, timeout_secs)) => crate::json::view_get_str(
                json_view(*args),
                "url"@,
            ) == Some(url@) && max_bytes == u64_or(json_view(*args), "max_bytes"@, 1_048_576)
                && timeout_secs == u64_or(json_view(*args), "timeout_secs"@, 30),
            Err(e) => crate::json::view_get_str(json_view(*args), "url"@) is None && e.kind
                == ErrorKind::InvalidInput && e.message@ == missing_param_msg("url"@),
        },
{
    let url = match require_str_param(args, "url") {
        Ok(u) => u,
        Err(e) => return Err(e),
    };
    let max_bytes = match args.get_u64("max_bytes") {
        Some(n) => n,
        None => 1_048_576,
    };
    let timeout_secs = match args.get_u64("timeout_secs") {
        Some(n) => n,
        None => 30,
    };
    Ok((url, max_bytes, timeout_secs))
}

/// Checks that a URL to fetch is an HTTP or HTTPS URL.
pub fn check_fetch_url(url: &str) -> (r: Result<(), ToolError>)
    ensures
        r is Ok <==> (has_prefix(url@, "http://"@) || has_prefix(url@, "https://"@)),
        r matches Err(e) ==> e.kind == ErrorKind::InvalidInput && e.message@
            == "URL must start with http:// or https://, got: "@ + url@,
{
    if str_starts_with(url, "http://") || str_starts_with(url, "https://") {
        Ok(())
    } else {
        let mut m = copy_str("URL must start with http:// or https://, got: ");
        push_str(&mut m, url);
        Err(ToolError::new(ErrorKind::InvalidInput, m))
    }
}

/// Checks the head of a response: a status that is not a success fails
/// with the status code and reason (`Unknown` when there is none), and a
/// declared length over the limit fails before any of the body is read.
pub fn check_fetch_response(
    status: u16,
    success: bool,
    reason: Option<&str>,
    content_length: Option<u64>,
    max_bytes: usize,
) -> (r: Result<(), ToolError>)
    ensures
        !success ==> (r matches Err(e) && e.kind == ErrorKind::Other && e.message@ == "HTTP "@
            + decimal(status as nat) + " "@ + match reason {
            Some(t) => t@,
            None => "Unknown"@,
        }),
        success ==> match content_length {
            Some(n) => if (n as usize) > max_bytes {
                r matches Err(e) && e.kind == ErrorKind::Other && e.message@
                    == "Response too large: Content-Length "@ + decimal(n as nat)
                    + " exceeds limit of "@ + decimal(max_bytes as nat) + " bytes"@
            } else {
                r is Ok
            },
            None => r is Ok,
        },
{
    if !success {
        let mut m = copy_str("HTTP ");
        push_decimal(&mut m, status as u64);
        push_str(&mut m, " ");
        match reason {
            Some(t) => push_str(&mut m, t),
            None => push_str(&mut m, "Unknown"),
        }
        return Err(ToolError::new(ErrorKind::Other, m));
    }
    match content_length {
        Some(n) => {
            if (n as usize) > max_bytes {
                let mut m = copy_str("Response too large: Content-Length ");
                push_decimal(&mut m, n);
                push_str(&mut m, " exceeds limit of ");
                push_decimal(&mut m, max_bytes as u64);
                push_str(&mut m, " bytes");
                return Err(ToolError::new(ErrorKind::Other, m));
            }
            Ok(())
        },
        None => Ok(()),
    }
}

/// The text of some bytes, decoded as UTF-8 with each invalid sequence
/// replaced (`String::from_utf8_lossy`).
pub uninterp spec fn lossy_text(bytes: Seq<u8>) -> Seq<char>;

/// `String::from_utf8_lossy`: the bytes as text, invalid sequences replaced
/// by U+FFFD. Its documentation promises that valid UTF-8 comes back as
/// the text it encodes; what an invalid sequence becomes is left to the
/// name `lossy_text`.
#[verifier::external_body]
fn text_from_bytes(bytes: &[u8]) -> (r: String)
    ensures
        r@ == lossy_text(bytes@),
        valid_utf8(bytes@) ==> r@ == decode_utf8(bytes@),
{
    String::from_utf8_lossy(bytes).into_owned()
}

/// The body of a response read chunk by chunk up to a byte limit.
pub struct LimitedBody {
    bytes: Vec<u8>,
    max_bytes: usize,
    truncated: bool,
}

impl LimitedBody {
    /// The bytes kept so far.
    pub closed spec fn kept(&self) -> Seq<u8> {
        self.bytes@
    }

    /// The byte limit.
    pub closed spec fn limit(&self) -> usize {
        self.max_bytes
    }

    /// Whether bytes were dropped for the limit.
    pub closed spec fn cut(&self) -> bool {
        self.truncated
    }

    /// The kept bytes never exceed the limit.
    pub closed spec fn wf(&self) -> bool {
        self.bytes@.len() <= self.max_bytes
    }

    /// An empty body with the limit `max_bytes`.
    pub fn new(max_bytes: usize) -> (r: LimitedBody)
        ensures
            r.wf(),
            r.kept() == Seq::<u8>::empty(),
            r.limit() == max_bytes,
            !r.cut(),
    {
        LimitedBody { bytes: Vec::new(), max_bytes, truncated: false }
    }

    /// Takes the next chunk of the body: with no room left the body is cut
    /// and reading stops; a chunk larger than the room left is cut to fit
    /// and reading stops; otherwise the whole chunk is kept and reading
    /// goes on (the result says whether to read on).
    pub fn push_chunk(&mut self, chunk: &[u8]) -> (more: bool)
        requires
            old(self).wf(),
        ensures
            final(self).wf(),
            final(self).limit() == old(self).limit(),
            ({
                let room = old(self).limit() - old(self).kept().len();
                if room == 0 {
                    !more && final(self).cut() && final(self).kept() == old(self).kept()
                } else if chunk@.len() > room {
                    !more && final(self).cut() && final(self).kept() == old(self).kept()
                        + chunk@.take(room)
                } else {
                    more && final(self).cut() == old(self).cut() && final(self).kept() == old(
                        self,
                    ).kept() + chunk@
                }
            }),
    {
        let room = self.max_bytes - self.bytes.len();
        if room == 0 {
            self.truncated = true;
            return false;
        }
        let take = if chunk.len() > room {
            room
        } else {
            chunk.len()
        };
        let ghost before = self.bytes@;
        let mut i: usize = 0;
        while i < take
            invariant
                take <= chunk@.len(),
                take <= room,
                room == self.max_bytes - before.len(),
                self.max_bytes == old(self).max_bytes,
                self.truncated == old(self).truncated,
                before == old(self).bytes@,
                i <= take,
                self.bytes@ == before + chunk@.take(i as int),
            decreases take - i,
        {
            self.bytes.push(chunk[i]);
            assert(chunk@.take(i + 1) =~= chunk@.take(i as int).push(chunk@[i as int]));
            i = i + 1;
        }
        if chunk.len() > room {
            self.truncated = true;
            false
        } else {
            assert(chunk@.take(take as int) =~= chunk@);
            true
        }
    }

    /// The text of the body: the kept bytes as text and, when bytes were
    /// dropped, a note of the limit.
    pub fn finish(&self) -> (r: String)
        ensures
            r@ == lossy_text(self.kept()) + if self.cut() {
                "\n\n[Truncated: response exceeded limit of "@ + decimal(self.limit() as nat)
                    + " bytes]"@
            } else {
                Seq::empty()
            },
    {
        let mut body = text_from_bytes(self.bytes.as_slice());
        if self.truncated {
            push_str(&mut body, "\n\n[Truncated: response exceeded limit of ");
            push_decimal(&mut body, self.max_bytes as u64);
            push_str(&mut body, " bytes]");
        }
        body
    }
}


/// All of the network tools in API form, in the order of their definitions.
pub fn all_network_tools_to_api_format() -> (r: Vec<Json>)
    ensures
        exists|defs: Seq<BuiltinToolDef>|
            table_of(defs) == network_table() && jsons_view(r@) == defs.map_values(
                |d: BuiltinToolDef| def_api_json(d),
            ),
{
    let defs = network_tool_defs();
    let r = defs_to_api_format(&defs);
    assert(table_of(defs@) == network_table());
    r
}

} // verus!
