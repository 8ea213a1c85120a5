//! The tool registry: every tool available at runtime, by name, in
//! registration order, with the category each belongs to.

use vstd::prelude::*;

use indexmap::IndexMap;

use crate::error::{ErrorKind, ToolError};
use crate::json::Json;
use crate::text::{
    chars_eq, copy_str, has_prefix, push_str, slice_chars, str_eq, str_starts_with, to_chars,
};
use super::hooks::HookPoint;
use super::ToolMetadata;

verus! {

/// Tool category for filtering and permission routing, set once at
/// registration time.
#[derive(Debug, Clone, Copy, PartialEq, Eq, Hash, Structural)]
pub enum ToolCategory {
    Memory,
    FsRead,
    FsWrite,
    Shell,
    Network,
    Index,
    Flow,
    Vfs,
    Plugin,
    Mcp,
    Synthesised,
    Eval,
}

/// The key of each category in hook payloads and in configuration.
pub open spec fn category_key(c: ToolCategory) -> Seq<char> {
    match c {
        ToolCategory::Memory => "memory"@,
        ToolCategory::FsRead => "fs_read"@,
        ToolCategory::FsWrite => "fs_write"@,
        ToolCategory::Shell => "shell"@,
        ToolCategory::Network => "network"@,
        ToolCategory::Index => "index"@,
        ToolCategory::Flow => "flow"@,
        ToolCategory::Vfs => "vfs"@,
        ToolCategory::Plugin => "plugin"@,
        ToolCategory::Mcp => "mcp"@,
        ToolCategory::Synthesised => "synthesised"@,
        ToolCategory::Eval => "eval"@,
    }
}

impl ToolCategory {
    /// String key used in hook payloads and config `exclude_categories`.
    pub fn as_str(&self) -> (r: &'static str)
        ensures
            r@ == category_key(*self),
    {
        match self {
            ToolCategory::Memory => "memory",
            ToolCategory::FsRead => "fs_read",
            ToolCategory::FsWrite => "fs_write",
            ToolCategory::Shell => "shell",
            ToolCategory::Network => "network",
            ToolCategory::Index => "index",
            ToolCategory::Flow => "flow",
            ToolCategory::Vfs => "vfs",
            ToolCategory::Plugin => "plugin",
            ToolCategory::Mcp => "mcp",
            ToolCategory::Synthesised => "synthesised",
            ToolCategory::Eval => "eval",
        }
    }
}

/// How a tool is carried out. A built-in tool's handler is kept by the
/// runtime under the tool's name.
#[derive(Debug)]
pub enum ToolImpl {
    /// A built-in handler.
    Builtin,
    /// An executable plugin, run as a subprocess.
    Plugin(String),
    /// A tool served by an MCP server through the bridge.
    Mcp { server: String, tool_name: String },
    /// A Scheme tool loaded from a VFS source file; `exec_binding` names the
    /// Scheme binding to call.
    Synthesised { vfs_path: String, exec_binding: String },
}

/// A tool that the model can call.
#[derive(Debug)]
pub struct Tool {
    pub name: String,
    pub description: String,
    pub parameters: Json,
    pub hooks: Vec<HookPoint>,
    pub metadata: ToolMetadata,
    /// Parameter names whose values should appear in tool-call notices.
    pub summary_params: Vec<String>,
    /// How the tool is carried out.
    pub implementation: ToolImpl,
    /// Category for filtering and permission routing.
    pub category: ToolCategory,
}

// ---------------------------------------------------------------------------
// The ordered map underneath
// ---------------------------------------------------------------------------

/// `indexmap::IndexMap`, an insertion-ordered hash map.
#[verifier::external_type_specification]
#[verifier::external_body]
#[verifier::reject_recursive_types(K)]
#[verifier::reject_recursive_types(V)]
#[verifier::reject_recursive_types(S)]
pub struct ExIndexMap<K, V, S>(IndexMap<K, V, S>);

/// The entries of a map of tools, in their order: each key with its value.
pub uninterp spec fn tool_map_entries(m: IndexMap<String, Tool>) -> Seq<(Seq<char>, Tool)>;

/// The position of the first entry with key `k`.
pub open spec fn key_position(es: Seq<(Seq<char>, Tool)>, k: Seq<char>) -> Option<int> {
    if exists|i: int| 0 <= i < es.len() && #[trigger] es[i].0 == k {
        Some(choose|i: int| 0 <= i < es.len() && #[trigger] es[i].0 == k && forall|j: int| 0 <= j < i ==> es[j].0 != k)
    } else {
        None
    }
}

/// An empty map (`IndexMap::new`).
#[verifier::external_body]
fn tool_map_new() -> (r: IndexMap<String, Tool>)
    ensures
        tool_map_entries(r) == Seq::<(Seq<char>, Tool)>::empty(),
{
    IndexMap::new()
}

/// `IndexMap::insert`: a key already present keeps its place and takes the
/// new value, and the old value is returned; a new key goes last.
#[verifier::external_body]
fn tool_map_insert(m: &mut IndexMap<String, Tool>, k: String, v: Tool) -> (r: Option<Tool>)
    ensures
        match key_position(tool_map_entries(*old(m)), k@) {
            Some(i) => tool_map_entries(*final(m)) == tool_map_entries(*old(m)).update(i, (k@, v))
                && r == Some(tool_map_entries(*old(m))[i].1),
            None => tool_map_entries(*final(m)) == tool_map_entries(*old(m)).push((k@, v))
                && r is None,
        },
{
    m.insert(k, v)
}

/// `IndexMap::shift_remove`: removes the entry with key `k`, shifting the
/// entries after it, and returns its value.
#[verifier::external_body]
fn tool_map_shift_remove(m: &mut IndexMap<String, Tool>, k: &str) -> (r: Option<Tool>)
    ensures
        match key_position(tool_map_entries(*old(m)), k@) {
            Some(i) => tool_map_entries(*final(m)) == tool_map_entries(*old(m)).remove(i) && r
                == Some(tool_map_entries(*old(m))[i].1),
            None => tool_map_entries(*final(m)) == tool_map_entries(*old(m)) && r is None,
        },
{
    m.shift_remove(k)
}

/// `IndexMap::get`: the value of the entry with key `k`.
#[verifier::external_body]
fn tool_map_get<'a>(m: &'a IndexMap<String, Tool>, k: &str) -> (r: Option<&'a Tool>)
    ensures
        match key_position(tool_map_entries(*m), k@) {
            Some(i) => r matches Some(t) && *t == tool_map_entries(*m)[i].1,
            None => r is None,
        },
{
    m.get(k)
}

/// `IndexMap::len`: the number of entries.
#[verifier::external_body]
fn tool_map_len(m: &IndexMap<String, Tool>) -> (r: usize)
    ensures
        r == tool_map_entries(*m).len(),
{
    m.len()
}

/// `IndexMap::get_index`: the value of the entry at position `i`.
#[verifier::external_body]
fn tool_map_value_at<'a>(m: &'a IndexMap<String, Tool>, i: usize) -> (r: Option<&'a Tool>)
    ensures
        match r {
            Some(t) => i < tool_map_entries(*m).len() && *t == tool_map_entries(*m)[i as int].1,
            None => i >= tool_map_entries(*m).len(),
        },
{
    m.get_index(i).map(|(_, v)| v)
}

// ---------------------------------------------------------------------------
// The registry
// ---------------------------------------------------------------------------

/// No two entries share a key.
pub open spec fn keys_distinct(es: Seq<(Seq<char>, Tool)>) -> bool {
    forall|i: int, j: int| 0 <= i < es.len() && 0 <= j < es.len() && i != j ==> es[i].0 != es[j].0
}

/// Each entry is keyed by its tool's name.
pub open spec fn keyed_by_name(es: Seq<(Seq<char>, Tool)>) -> bool {
    forall|i: int| 0 <= i < es.len() ==> #[trigger] es[i].0 == es[i].1.name@
}

/// The tools of the entries, in order.
pub open spec fn tools_of(es: Seq<(Seq<char>, Tool)>) -> Seq<Tool> {
    es.map_values(|e: (Seq<char>, Tool)| e.1)
}

/// The position of the tool named `k`, in a map whose keys are distinct.
pub proof fn lemma_key_position(es: Seq<(Seq<char>, Tool)>, k: Seq<char>)
    requires
        keys_distinct(es),
    ensures
        match key_position(es, k) {
            Some(i) => 0 <= i < es.len() && es[i].0 == k,
            None => forall|j: int| 0 <= j < es.len() ==> es[j].0 != k,
        },
{
}

/// The entries after registering `tool`.
pub open spec fn registered(es: Seq<(Seq<char>, Tool)>, tool: Tool) -> Seq<(Seq<char>, Tool)> {
    match key_position(es, tool.name@) {
        Some(i) => es.update(i, (tool.name@, tool)),
        None => es.push((tool.name@, tool)),
    }
}

/// The entries after unregistering `name`.
pub open spec fn unregistered(es: Seq<(Seq<char>, Tool)>, name: Seq<char>) -> Seq<(Seq<char>, Tool)> {
    match key_position(es, name) {
        Some(i) => es.remove(i),
        None => es,
    }
}

/// In a map with distinct keys, the entry with key `k` is where it is.
pub proof fn lemma_position_unique(es: Seq<(Seq<char>, Tool)>, k: Seq<char>, i: int)
    requires
        keys_distinct(es),
        0 <= i < es.len(),
        es[i].0 == k,
    ensures
        key_position(es, k) == Some(i),
{
    let j = choose|j: int| 0 <= j < es.len() && #[trigger] es[j].0 == k && forall|m: int| 0 <= m < j ==> es[m].0 != k;
    assert(es[i].0 == k);
}

/// A registered tool is found under its name, and every other name finds
/// what it found before.
pub proof fn law_register_then_get(es: Seq<(Seq<char>, Tool)>, tool: Tool, other: Seq<char>)
    requires
        keys_distinct(es),
    ensures
        match key_position(registered(es, tool), tool.name@) {
            Some(i) => registered(es, tool)[i].1 == tool,
            None => false,
        },
        other != tool.name@ ==> match (key_position(es, other), key_position(registered(es, tool), other)) {
            (Some(i), Some(j)) => es[i].1 == registered(es, tool)[j].1,
            (None, None) => true,
            _ => false,
        },
{
    let after = registered(es, tool);
    let k = tool.name@;
    lemma_key_position(es, k);
    lemma_key_position(es, other);
    let i = match key_position(es, k) {
        Some(i) => i,
        None => es.len() as int,
    };
    assert(keys_distinct(after)) by {
        assert forall|a: int, b: int|
            0 <= a < after.len() && 0 <= b < after.len() && a != b implies after[a].0
            != after[b].0 by {
            if a != i && b != i {
                assert(after[a] == es[a]);
                assert(after[b] == es[b]);
            } else if a != i {
                assert(after[a] == es[a]);
            } else if b != i {
                assert(after[b] == es[b]);
            }
        }
    }
    assert(after[i].0 == k);
    lemma_position_unique(after, k, i);
    if other != k {
        lemma_key_position(after, other);
        match key_position(es, other) {
            Some(j) => {
                assert(after[j] == es[j]);
                lemma_position_unique(after, other, j);
            },
            None => {
                if let Some(j) = key_position(after, other) {
                    assert(j != i);
                    assert(after[j] == es[j]);
                }
            },
        }
    }
}

/// An unregistered name is no longer found, and the other tools keep their
/// relative order.
pub proof fn law_unregister_then_get(es: Seq<(Seq<char>, Tool)>, name: Seq<char>)
    requires
        keys_distinct(es),
    ensures
        key_position(unregistered(es, name), name) is None,
        tools_of(unregistered(es, name)) == match key_position(es, name) {
            Some(i) => tools_of(es).remove(i),
            None => tools_of(es),
        },
{
    lemma_key_position(es, name);
    let after = unregistered(es, name);
    match key_position(es, name) {
        Some(i) => {
            assert forall|j: int| 0 <= j < after.len() implies after[j].0 != name by {
                if j < i {
                    assert(after[j] == es[j]);
                } else {
                    assert(after[j] == es[j + 1]);
                }
            }
            assert(tools_of(after) =~= tools_of(es).remove(i));
        },
        None => {},
    }
    assert(!(exists|j: int| 0 <= j < after.len() && #[trigger] after[j].0 == name));
}

/// The single source of truth for all tools at runtime: lookup by name,
/// and registration order kept for the tool list sent to the model.
pub struct ToolRegistry {
    tools: IndexMap<String, Tool>,
}

impl View for ToolRegistry {
    type V = Seq<(Seq<char>, Tool)>;

    closed spec fn view(&self) -> Seq<(Seq<char>, Tool)> {
        tool_map_entries(self.tools)
    }
}

impl ToolRegistry {
    /// The registry's entries have distinct keys, each its tool's name.
    #[verifier::type_invariant]
    closed spec fn well_formed(self) -> bool {
        keys_distinct(tool_map_entries(self.tools)) && keyed_by_name(tool_map_entries(self.tools))
    }

    /// An empty registry.
    pub fn new() -> (r: ToolRegistry)
        ensures
            r@ == Seq::<(Seq<char>, Tool)>::empty(),
    {
        ToolRegistry { tools: tool_map_new() }
    }

    /// Register a tool. A tool with the same name is replaced in place
    /// (hot reload); a new name goes last.
    pub fn register(&mut self, tool: Tool)
        ensures
            final(self)@ == registered(old(self)@, tool),
    {
        proof {
            use_type_invariant(&*self);
        }
        let key = crate::text::copy_str(tool.name.as_str());
        let ghost t = tool;
        let ghost before = self@;
        let mut tools = tool_map_new();
        std::mem::swap(&mut tools, &mut self.tools);
        let _ = tool_map_insert(&mut tools, key, tool);
        proof {
            let after = tool_map_entries(tools);
            match key_position(before, t.name@) {
                Some(i) => {
                    assert forall|a: int, b: int|
                        0 <= a < after.len() && 0 <= b < after.len() && a != b implies after[a].0
                        != after[b].0 by {
                        if a != i && b != i {
                            assert(after[a] == before[a]);
                            assert(after[b] == before[b]);
                        }
                    }
                    assert forall|a: int| 0 <= a < after.len() implies #[trigger] after[a].0
                        == after[a].1.name@ by {
                        if a != i {
                            assert(after[a] == before[a]);
                        }
                    }
                },
                None => {
                    assert forall|a: int, b: int|
                        0 <= a < after.len() && 0 <= b < after.len() && a != b implies after[a].0
                        != after[b].0 by {
                        if a < before.len() && b < before.len() {
                            assert(after[a] == before[a]);
                            assert(after[b] == before[b]);
                        } else if a < before.len() {
                            assert(after[a] == before[a]);
                        } else if b < before.len() {
                            assert(after[b] == before[b]);
                        }
                    }
                    assert forall|a: int| 0 <= a < after.len() implies #[trigger] after[a].0
                        == after[a].1.name@ by {
                        if a < before.len() {
                            assert(after[a] == before[a]);
                        }
                    }
                },
            }
        }
        self.tools = tools;
    }

    /// Remove the tool named `name`, keeping the order of the rest, and
    /// return it.
    pub fn unregister(&mut self, name: &str) -> (r: Option<Tool>)
        ensures
            final(self)@ == unregistered(old(self)@, name@),
            r == match key_position(old(self)@, name@) {
                Some(i) => Some(old(self)@[i].1),
                None => None,
            },
    {
        proof {
            use_type_invariant(&*self);
        }
        let ghost before = self@;
        let mut tools = tool_map_new();
        std::mem::swap(&mut tools, &mut self.tools);
        let r = tool_map_shift_remove(&mut tools, name);
        proof {
            let after = tool_map_entries(tools);
            if let Some(i) = key_position(before, name@) {
                assert forall|a: int| 0 <= a < after.len() implies after[a] == before[if a < i {
                    a
                } else {
                    a + 1
                }] by {}
                assert forall|a: int, b: int|
                    0 <= a < after.len() && 0 <= b < after.len() && a != b implies after[a].0
                    != after[b].0 by {
                    let a2 = if a < i {
                        a
                    } else {
                        a + 1
                    };
                    let b2 = if b < i {
                        b
                    } else {
                        b + 1
                    };
                    assert(after[a] == before[a2]);
                    assert(after[b] == before[b2]);
                }
                assert forall|a: int| 0 <= a < after.len() implies #[trigger] after[a].0
                    == after[a].1.name@ by {
                    let a2 = if a < i {
                        a
                    } else {
                        a + 1
                    };
                    assert(after[a] == before[a2]);
                }
            }
        }
        self.tools = tools;
        r
    }

    /// The tool named `name`.
    pub fn get(&self, name: &str) -> (r: Option<&Tool>)
        ensures
            match key_position(self@, name@) {
                Some(i) => r matches Some(t) && *t == self@[i].1,
                None => r is None,
            },
    {
        tool_map_get(&self.tools, name)
    }

    /// The number of registered tools.
    pub fn len(&self) -> (r: usize)
        ensures
            r == self@.len(),
    {
        tool_map_len(&self.tools)
    }

    /// All tools in registration order.
    pub fn all(&self) -> (r: Vec<&Tool>)
        ensures
            r@.len() == self@.len(),
            forall|i: int| 0 <= i < r@.len() ==> *r@[i] == #[trigger] self@[i].1,
    {
        let n = tool_map_len(&self.tools);
        let mut out: Vec<&Tool> = Vec::new();
        let mut i: usize = 0;
        while i < n
            invariant
                n == self@.len(),
                i <= n,
                out@.len() == i,
                forall|j: int| 0 <= j < i ==> *out@[j] == #[trigger] self@[j].1,
            decreases n - i,
        {
            match tool_map_value_at(&self.tools, i) {
                Some(t) => out.push(t),
                None => {
                    assert(false);
                },
            }
            i = i + 1;
        }
        out
    }
}

// ---------------------------------------------------------------------------
// Selection and visibility
// ---------------------------------------------------------------------------

/// The tools of `es` that `keep` marks, in order.
pub open spec fn selected(es: Seq<(Seq<char>, Tool)>, keep: Seq<bool>) -> Seq<Tool>
    decreases es.len(),
{
    if es.len() == 0 {
        Seq::empty()
    } else {
        let before = selected(es.drop_last(), keep.take(es.len() - 1));
        if keep[es.len() - 1] {
            before.push(es.last().1)
        } else {
            before
        }
    }
}

/// The position of the first `c` in `s`, or `s.len()`.
pub open spec fn index_of_char(s: Seq<char>, c: char) -> nat
    decreases s.len(),
{
    if s.len() == 0 || s[0] == c {
        0
    } else {
        1 + index_of_char(s.drop_first(), c)
    }
}

/// The first `/`-separated segment of `s` (`s.split('/').next()`).
pub open spec fn first_segment(s: Seq<char>) -> Seq<char> {
    s.take(index_of_char(s, '/') as int)
}

/// Whether a synthesised tool at VFS path `path` is visible to context
/// `ctx` belonging to the flocks `flocks`: shared tools to all, a home's
/// tools to its owner, a flock's tools to its members, and tools in other
/// zones to all.
pub open spec fn path_visible(path: Seq<char>, ctx: Seq<char>, flocks: Seq<Seq<char>>) -> bool {
    if has_prefix(path, "/tools/shared/"@) {
        true
    } else if has_prefix(path, "/tools/home/"@) {
        first_segment(path.skip(12)) == ctx
    } else if has_prefix(path, "/tools/flocks/"@) {
        flocks.contains(first_segment(path.skip(14)))
    } else {
        true
    }
}

/// Whether the tool named `name` is visible: unknown tools and tools that
/// are not synthesised always are.
pub open spec fn tool_visible(
    es: Seq<(Seq<char>, Tool)>,
    name: Seq<char>,
    ctx: Seq<char>,
    flocks: Seq<Seq<char>>,
) -> bool {
    match key_position(es, name) {
        Some(i) => match es[i].1.implementation {
            ToolImpl::Synthesised { vfs_path, .. } => path_visible(vfs_path@, ctx, flocks),
            _ => true,
        },
        None => true,
    }
}

/// A flock's tools are for its members: a tool at
/// `/tools/flocks/<flock>/<rest>` is visible to a context exactly when
/// `flock` is among the context's flock memberships, whatever other
/// memberships it has.
pub proof fn law_flock_tools_for_members(
    flock: Seq<char>,
    rest: Seq<char>,
    ctx: Seq<char>,
    flocks: Seq<Seq<char>>,
)
    requires
        forall|i: int| 0 <= i < flock.len() ==> flock[i] != '/',
    ensures
        path_visible("/tools/flocks/"@ + flock + "/"@ + rest, ctx, flocks) == flocks.contains(flock),
{
    reveal_strlit("/tools/flocks/");
    reveal_strlit("/tools/shared/");
    reveal_strlit("/tools/home/");
    reveal_strlit("/");
    let path = "/tools/flocks/"@ + flock + "/"@ + rest;
    assert(path.subrange(0, 14) =~= "/tools/flocks/"@);
    assert(has_prefix(path, "/tools/flocks/"@));
    assert(path[7] == 'f');
    assert("/tools/shared/"@[7] == 's');
    assert("/tools/home/"@[7] == 'h');
    if has_prefix(path, "/tools/shared/"@) {
        assert(path.subrange(0, 14)[7] == "/tools/shared/"@[7]);
    }
    if has_prefix(path, "/tools/home/"@) {
        assert(path.subrange(0, 12)[7] == "/tools/home/"@[7]);
    }
    let tail = path.skip(14);
    assert(tail =~= flock + "/"@ + rest);
    assert forall|j: int| 0 <= j < flock.len() implies tail[j] != '/' by {
        assert(tail[j] == flock[j]);
    }
    assert(tail[flock.len() as int] == '/');
    lemma_index_of_char(tail, '/', flock.len() as int);
    assert(first_segment(tail) =~= flock);
}

/// A home's tools are for its owner: a tool at `/tools/home/<owner>/<rest>`
/// is visible to a context exactly when the context is `owner`.
pub proof fn law_home_tools_for_owner(
    owner: Seq<char>,
    rest: Seq<char>,
    ctx: Seq<char>,
    flocks: Seq<Seq<char>>,
)
    requires
        forall|i: int| 0 <= i < owner.len() ==> owner[i] != '/',
    ensures
        path_visible("/tools/home/"@ + owner + "/"@ + rest, ctx, flocks) == (ctx == owner),
{
    reveal_strlit("/tools/shared/");
    reveal_strlit("/tools/home/");
    reveal_strlit("/");
    let path = "/tools/home/"@ + owner + "/"@ + rest;
    assert(path.subrange(0, 12) =~= "/tools/home/"@);
    assert(has_prefix(path, "/tools/home/"@));
    assert(path[7] == 'h');
    assert("/tools/shared/"@[7] == 's');
    if has_prefix(path, "/tools/shared/"@) {
        assert(path.subrange(0, 14)[7] == "/tools/shared/"@[7]);
    }
    let tail = path.skip(12);
    assert(tail =~= owner + "/"@ + rest);
    assert forall|j: int| 0 <= j < owner.len() implies tail[j] != '/' by {
        assert(tail[j] == owner[j]);
    }
    assert(tail[owner.len() as int] == '/');
    lemma_index_of_char(tail, '/', owner.len() as int);
    assert(first_segment(tail) =~= owner);
}

/// The first `/`-separated segment of `s`.
fn first_segment_of(s: &[char]) -> (r: Vec<char>)
    ensures
        r@ == first_segment(s@),
{
    let n = s.len();
    let mut i: usize = 0;
    while i < n && s[i] != '/'
        invariant
            n == s@.len(),
            i <= n,
            forall|j: int| 0 <= j < i ==> s@[j] != '/',
        decreases n - i,
    {
        i = i + 1;
    }
    proof {
        lemma_index_of_char(s@, '/', i as int);
    }
    slice_chars(s, 0, i)
}

/// `index_of_char` is the first position of `c`, when there is one.
proof fn lemma_index_of_char(s: Seq<char>, c: char, k: int)
    requires
        0 <= k <= s.len(),
        forall|j: int| 0 <= j < k ==> s[j] != c,
        k == s.len() || s[k] == c,
    ensures
        index_of_char(s, c) == k,
    decreases k,
{
    if k > 0 {
        let d = s.drop_first();
        assert forall|j: int| 0 <= j < k - 1 implies d[j] != c by {
            assert(d[j] == s[j + 1]);
        }
        lemma_index_of_char(d, c, k - 1);
    }
}

/// Whether `v` holds a string equal to the characters `c`.
fn contains_chars(v: &[String], c: &[char]) -> (r: bool)
    ensures
        r == v@.map_values(|x: String| x@).contains(c@),
{
    let ghost views = v@.map_values(|x: String| x@);
    let n = v.len();
    let mut i: usize = 0;
    while i < n
        invariant
            n == v@.len(),
            views == v@.map_values(|x: String| x@),
            i <= n,
            forall|j: int| 0 <= j < i ==> views[j] != c@,
        decreases n - i,
    {
        let x = to_chars(v[i].as_str());
        if chars_eq(x.as_slice(), c) {
            assert(views[i as int] == c@);
            return true;
        }
        i = i + 1;
    }
    false
}

/// Whether a synthesised tool's path makes it visible.
fn path_is_visible(path: &str, context_name: &str, flocks: &[String]) -> (r: bool)
    ensures
        r == path_visible(path@, context_name@, flocks@.map_values(|x: String| x@)),
{
    let p = to_chars(path);
    if str_starts_with(path, "/tools/shared/") {
        true
    } else if str_starts_with(path, "/tools/home/") {
        proof {
            reveal_strlit("/tools/home/");
        }
        let rest = slice_chars(p.as_slice(), 12, p.len());
        assert(rest@ =~= path@.skip(12));
        let owner = first_segment_of(rest.as_slice());
        let ctx = to_chars(context_name);
        chars_eq(owner.as_slice(), ctx.as_slice())
    } else if str_starts_with(path, "/tools/flocks/") {
        proof {
            reveal_strlit("/tools/flocks/");
        }
        let rest = slice_chars(p.as_slice(), 14, p.len());
        assert(rest@ =~= path@.skip(14));
        let flock = first_segment_of(rest.as_slice());
        contains_chars(flocks, flock.as_slice())
    } else {
        true
    }
}

/// A synthesised tool loaded from the VFS file at `path`.
pub open spec fn loaded_from(t: Tool, path: Seq<char>) -> bool {
    match t.implementation {
        ToolImpl::Synthesised { vfs_path, .. } => vfs_path@ == path,
        _ => false,
    }
}

impl ToolRegistry {
    /// All tools for which `pred` holds, in registration order.
    pub fn filter<F: Fn(&Tool) -> bool>(&self, pred: F) -> (r: Vec<&Tool>)
        requires
            forall|t: &Tool| #[trigger] pred.requires((t,)),
        ensures
            exists|keep: Seq<bool>|
                #![trigger selected(self@, keep)]
                keep.len() == self@.len() && (forall|i: int|
                    0 <= i < self@.len() ==> pred.ensures((&self@[i].1,), #[trigger] keep[i]))
                    && r@.map_values(|t: &Tool| *t) == selected(self@, keep),
    {
        let n = tool_map_len(&self.tools);
        let mut out: Vec<&Tool> = Vec::new();
        let ghost mut keep: Seq<bool> = Seq::empty();
        let mut i: usize = 0;
        while i < n
            invariant
                n == self@.len(),
                i <= n,
                forall|t: &Tool| #[trigger] pred.requires((t,)),
                keep.len() == i,
                forall|j: int| 0 <= j < i ==> pred.ensures((&self@[j].1,), #[trigger] keep[j]),
                out@.map_values(|t: &Tool| *t) =~= selected(self@.take(i as int), keep),
            decreases n - i,
        {
            let t = match tool_map_value_at(&self.tools, i) {
                Some(t) => t,
                None => {
                    assert(false);
                    return out;
                },
            };
            let b = pred(t);
            let ghost before = out@.map_values(|t: &Tool| *t);
            let ghost k2 = keep.push(b);
            assert(self@.take(i + 1).drop_last() =~= self@.take(i as int));
            assert(k2.take(i as int) =~= keep);
            if b {
                out.push(t);
                assert(out@.map_values(|t: &Tool| *t) =~= before.push(*t));
            }
            proof {
                keep = k2;
            }
            i = i + 1;
        }
        assert(self@.take(n as int) =~= self@);
        out
    }

    /// The names of all synthesised tools loaded from the VFS file `path`
    /// (a file may define several tools), in registration order.
    pub fn find_all_by_vfs_path(&self, path: &str) -> (r: Vec<String>)
        ensures
            r@.map_values(|x: String| x@) == self@.filter(
                |e: (Seq<char>, Tool)| loaded_from(e.1, path@),
            ).map_values(|e: (Seq<char>, Tool)| e.1.name@),
    {
        let n = tool_map_len(&self.tools);
        let mut out: Vec<String> = Vec::new();
        let mut i: usize = 0;
        proof {
            reveal(Seq::filter);
            assert(self@.take(0).filter(|e: (Seq<char>, Tool)| loaded_from(e.1, path@)) =~= Seq::<(Seq<char>, Tool)>::empty());
        }
        while i < n
            invariant
                n == self@.len(),
                i <= n,
                out@.map_values(|x: String| x@) =~= self@.take(i as int).filter(|e: (Seq<char>, Tool)| loaded_from(e.1, path@)).map_values(
                    |e: (Seq<char>, Tool)| e.1.name@,
                ),
            decreases n - i,
        {
            proof {
                reveal(Seq::filter);
            }
            let t = match tool_map_value_at(&self.tools, i) {
                Some(t) => t,
                None => {
                    assert(false);
                    return out;
                },
            };
            assert(self@.take(i + 1).drop_last() =~= self@.take(i as int));
            assert(self@.take(i + 1).last() == self@[i as int]);
            let ghost before = out@.map_values(|x: String| x@);
            let matches_path = match &t.implementation {
                ToolImpl::Synthesised { vfs_path, .. } => str_eq(vfs_path.as_str(), path),
                _ => false,
            };
            assert(matches_path == loaded_from(*t, path@));
            let ghost e = self@[i as int];
            assert(*t == e.1);
            assert(matches_path == loaded_from(e.1, path@));
            let ghost prev_filtered = self@.take(i as int).filter(|e: (Seq<char>, Tool)| loaded_from(e.1, path@));
            proof {
                reveal(Seq::filter);
                assert(self@.take(i + 1).filter(|e: (Seq<char>, Tool)| loaded_from(e.1, path@)) == if loaded_from(e.1, path@) {
                    prev_filtered.push(e)
                } else {
                    prev_filtered
                });
            }
            if matches_path {
                out.push(copy_str(t.name.as_str()));
                assert(out@.map_values(|x: String| x@) =~= before.push(t.name@));
                assert(prev_filtered.push(e).map_values(|e: (Seq<char>, Tool)| e.1.name@)
                    =~= prev_filtered.map_values(|e: (Seq<char>, Tool)| e.1.name@).push(e.1.name@));
            }
            i = i + 1;
        }
        assert(self@.take(n as int) =~= self@);
        out
    }

    /// Whether a tool is visible to a context that belongs to the flocks
    /// `flock_memberships`. Tools that are not synthesised, and unknown
    /// tools, are visible.
    pub fn is_tool_visible(
        &self,
        tool_name: &str,
        context_name: &str,
        flock_memberships: &[String],
    ) -> (r: bool)
        ensures
            r == tool_visible(
                self@,
                tool_name@,
                context_name@,
                flock_memberships@.map_values(|x: String| x@),
            ),
    {
        match self.get(tool_name) {
            None => true,
            Some(tool) => match &tool.implementation {
                ToolImpl::Synthesised { vfs_path, .. } => path_is_visible(
                    vfs_path.as_str(),
                    context_name,
                    flock_memberships,
                ),
                _ => true,
            },
        }
    }
}

// ---------------------------------------------------------------------------
// Dispatch
// ---------------------------------------------------------------------------

/// How a tool is carried out, as plain values.
pub enum ImplView {
    Builtin,
    Plugin(Seq<char>),
    Mcp(Seq<char>, Seq<char>),
    Synthesised(Seq<char>, Seq<char>),
}

/// The plain values of a tool implementation.
pub open spec fn impl_view(i: ToolImpl) -> ImplView {
    match i {
        ToolImpl::Builtin => ImplView::Builtin,
        ToolImpl::Plugin(p) => ImplView::Plugin(p@),
        ToolImpl::Mcp { server, tool_name } => ImplView::Mcp(server@, tool_name@),
        ToolImpl::Synthesised { vfs_path, exec_binding } => ImplView::Synthesised(
            vfs_path@,
            exec_binding@,
        ),
    }
}

impl ToolImpl {
    /// A copy of this implementation.
    pub fn duplicate(&self) -> (r: ToolImpl)
        ensures
            impl_view(r) == impl_view(*self),
    {
        match self {
            ToolImpl::Builtin => ToolImpl::Builtin,
            ToolImpl::Plugin(p) => ToolImpl::Plugin(copy_str(p.as_str())),
            ToolImpl::Mcp { server, tool_name } => ToolImpl::Mcp {
                server: copy_str(server.as_str()),
                tool_name: copy_str(tool_name.as_str()),
            },
            ToolImpl::Synthesised { vfs_path, exec_binding } => ToolImpl::Synthesised {
                vfs_path: copy_str(vfs_path.as_str()),
                exec_binding: copy_str(exec_binding.as_str()),
            },
        }
    }
}

impl ToolRegistry {
    /// How a call of the tool `name` is carried out: the implementation of
    /// the registered tool of that name, or a `NotFound` error
    /// (`unknown tool: <name>`) when there is none.
    pub fn dispatch_target(&self, name: &str) -> (r: Result<ToolImpl, ToolError>)
        ensures
            match key_position(self@, name@) {
                Some(i) => r matches Ok(t) && impl_view(t) == impl_view(self@[i].1.implementation),
                None => r matches Err(e) && e.kind == ErrorKind::NotFound && e.message@
                    == "unknown tool: "@ + name@,
            },
    {
        match self.get(name) {
            Some(t) => Ok(t.implementation.duplicate()),
            None => {
                let mut m = copy_str("unknown tool: ");
                push_str(&mut m, name);
                Err(ToolError::new(ErrorKind::NotFound, m))
            },
        }
    }
}

} // verus!
