//! MCP tools: tools served by MCP servers through the bridge daemon, named
//! by `mcp://server/tool` paths.

use vstd::prelude::*;

use crate::error::{ErrorKind, ToolError};
use crate::json::{json_view, members_view, object_of, Json, JsonView};
use crate::text::{copy_str, from_chars, has_prefix, push_str, slice_chars, str_starts_with, to_chars};
use super::registry::{Tool, ToolCategory, ToolImpl};
use super::{default_metadata, ToolMetadata};

verus! {

/// The server and tool named by an `mcp://server/tool` path: the text after
/// the scheme, split at its first `/`.
pub open spec fn mcp_path_parts(path: Seq<char>) -> Option<(Seq<char>, Seq<char>)> {
    if has_prefix(path, "mcp://"@) {
        let rest = path.skip(6);
        if exists|k: int| 0 <= k < rest.len() && rest[k] == '/' {
            let k = choose|k: int|
                0 <= k < rest.len() && rest[k] == '/' && forall|j: int| 0 <= j < k ==> rest[j] != '/';
            Some((rest.take(k), rest.skip(k + 1)))
        } else {
            None
        }
    } else {
        None
    }
}

/// Parse server and tool name from an `mcp://server/tool` path.
pub fn parse_mcp_path(path: &str) -> (r: Option<(String, String)>)
    ensures
        match r {
            Some((server, tool)) => mcp_path_parts(path@) == Some((server@, tool@)),
            None => mcp_path_parts(path@) is None,
        },
{
    if !str_starts_with(path, "mcp://") {
        return None;
    }
    proof {
        reveal_strlit("mcp://");
    }
    let cs = to_chars(path);
    let rest = slice_chars(cs.as_slice(), 6, cs.len());
    let ghost rv = path@.skip(6);
    assert(rest@ =~= rv);
    let n = rest.len();
    let mut k: usize = 0;
    while k < n && rest[k] != '/'
        invariant
            n == rest@.len(),
            k <= n,
            forall|j: int| 0 <= j < k ==> rest@[j] != '/',
        decreases n - k,
    {
        k = k + 1;
    }
    if k == n {
        return None;
    }
    proof {
        let c = choose|c: int|
            0 <= c < rv.len() && rv[c] == '/' && forall|j: int| 0 <= j < c ==> rv[j] != '/';
        if c < k {
            assert(rv[c] != '/');
        }
        if c > k {
            assert(rv[k as int] == '/');
        }
    }
    let server = slice_chars(rest.as_slice(), 0, k);
    let tool = slice_chars(rest.as_slice(), k + 1, n);
    assert(server@ =~= rv.take(k as int));
    assert(tool@ =~= rv.skip(k + 1));
    Some((from_chars(server.as_slice()), from_chars(tool.as_slice())))
}

/// Whether a tool is served by an MCP server.
pub fn is_mcp_tool(tool: &Tool) -> (r: bool)
    ensures
        r == (tool.implementation is Mcp),
{
    match &tool.implementation {
        ToolImpl::Mcp { .. } => true,
        _ => false,
    }
}

/// A tool for an MCP server's tool: named `<server>_<name>`, served through
/// the bridge, with regular metadata and no hooks.
pub fn mcp_tool_from_info(server: &str, name: &str, description: &str, parameters: Json) -> (r:
    Tool)
    ensures
        r.name@ == server@ + "_"@ + name@,
        r.description@ == description@,
        json_view(r.parameters) == json_view(parameters),
        r.hooks@.len() == 0,
        r.metadata == default_metadata(),
        r.summary_params@.len() == 0,
        r.implementation matches ToolImpl::Mcp { server: s, tool_name: t } && s@ == server@ && t@
            == name@,
        r.category == ToolCategory::Mcp,
{
    let mut full = copy_str(server);
    push_str(&mut full, "_");
    push_str(&mut full, name);
    Tool {
        name: full,
        description: copy_str(description),
        parameters,
        hooks: Vec::new(),
        metadata: ToolMetadata::new(),
        summary_params: Vec::new(),
        implementation: ToolImpl::Mcp { server: copy_str(server), tool_name: copy_str(name) },
        category: ToolCategory::Mcp,
    }
}

/// A tool as the bridge lists it: its server, name, description and
/// parameter schema.
pub struct BridgeToolInfo {
    pub server: String,
    pub name: String,
    pub description: String,
    pub parameters: Json,
}

/// What a list_tools reply gives: the bridge's tools as chibi tools when it
/// succeeded (`ok`), else an error with its message (`bridge error` when it
/// gave none).
pub fn list_tools_result(ok: bool, tools: Vec<BridgeToolInfo>, error: Option<String>) -> (r: Result<
    Vec<Tool>,
    ToolError,
>)
    ensures
        ok ==> (r matches Ok(ts) && ts@.len() == tools@.len() && forall|i: int|
            0 <= i < ts@.len() ==> {
                let t = #[trigger] ts@[i];
                let info = tools@[i];
                &&& t.name@ == info.server@ + "_"@ + info.name@
                &&& t.description@ == info.description@
                &&& json_view(t.parameters) == json_view(info.parameters)
                &&& t.hooks@.len() == 0
                &&& t.metadata == default_metadata()
                &&& t.summary_params@.len() == 0
                &&& (t.implementation matches ToolImpl::Mcp { server: s, tool_name: n } && s@
                    == info.server@ && n@ == info.name@)
                &&& t.category == ToolCategory::Mcp
            }),
        !ok ==> (r matches Err(e) && e.kind == ErrorKind::Other && e.message@ == match error {
            Some(m) => m@,
            None => "bridge error"@,
        }),
{
    if !ok {
        let m = match error {
            Some(m) => m,
            None => copy_str("bridge error"),
        };
        return Err(ToolError::new(ErrorKind::Other, m));
    }
    let ghost infos = tools@;
    let mut rest = tools;
    let mut out: Vec<Tool> = Vec::new();
    let n = rest.len();
    let mut i: usize = 0;
    while i < n
        invariant
            n == infos.len(),
            i <= n,
            rest@ == infos.skip(i as int),
            out@.len() == i,
            forall|k: int|
                0 <= k < i ==> {
                    let t = #[trigger] out@[k];
                    let info = infos[k];
                    &&& t.name@ == info.server@ + "_"@ + info.name@
                    &&& t.description@ == info.description@
                    &&& json_view(t.parameters) == json_view(info.parameters)
                    &&& t.hooks@.len() == 0
                    &&& t.metadata == default_metadata()
                    &&& t.summary_params@.len() == 0
                    &&& (t.implementation matches ToolImpl::Mcp { server: s, tool_name: m } && s@
                        == info.server@ && m@ == info.name@)
                    &&& t.category == ToolCategory::Mcp
                },
        decreases n - i,
    {
        let info = rest.remove(0);
        assert(info == infos[i as int]);
        assert(rest@ =~= infos.skip(i + 1));
        let t = mcp_tool_from_info(
            info.server.as_str(),
            info.name.as_str(),
            info.description.as_str(),
            info.parameters,
        );
        out.push(t);
        i = i + 1;
    }
    Ok(out)
}

/// What a call_tool reply gives: the tool's result (empty when the bridge
/// gave none) when it succeeded (`ok`), else an error with its message
/// (`MCP tool error` when it gave none).
pub fn call_tool_result(ok: bool, result: Option<String>, error: Option<String>) -> (r: Result<
    String,
    ToolError,
>)
    ensures
        ok ==> (r matches Ok(s) && s@ == match result {
            Some(t) => t@,
            None => Seq::empty(),
        }),
        !ok ==> (r matches Err(e) && e.kind == ErrorKind::Other && e.message@ == match error {
            Some(m) => m@,
            None => "MCP tool error"@,
        }),
{
    if !ok {
        let m = match error {
            Some(m) => m,
            None => copy_str("MCP tool error"),
        };
        return Err(ToolError::new(ErrorKind::Other, m));
    }
    match result {
        Some(t) => Ok(t),
        None => Ok(String::new()),
    }
}

/// The request that calls the tool `tool_name` of the MCP server `server`
/// with `args`.
pub fn call_tool_request(server: &str, tool_name: &str, args: Json) -> (r: Json)
    ensures
        json_view(r) == JsonView::Object(
            seq![
                ("op"@, JsonView::Str("call_tool"@)),
                ("server"@, JsonView::Str(server@)),
                ("tool"@, JsonView::Str(tool_name@)),
                ("args"@, json_view(args)),
            ],
        ),
{
    let ghost av = json_view(args);
    let mut m: Vec<(String, Json)> = Vec::new();
    m.push((copy_str("op"), Json::string("call_tool")));
    m.push((copy_str("server"), Json::string(server)));
    m.push((copy_str("tool"), Json::string(tool_name)));
    m.push((copy_str("args"), args));
    assert(members_view(m@) =~= seq![
        ("op"@, JsonView::Str("call_tool"@)),
        ("server"@, JsonView::Str(server@)),
        ("tool"@, JsonView::Str(tool_name@)),
        ("args"@, av),
    ]);
    object_of(m)
}

} // verus!
