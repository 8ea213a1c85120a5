//! The text that dir_list and glob_files give back: an indented directory
//! tree with sizes and type tags, and a list of matching files. The caller
//! reads the directories and formats the file sizes.

use vstd::prelude::*;

use crate::error::{is_error, ErrorKind, ToolError};
use crate::text::{
    copy_str, has_prefix, join_strings, join_with, lemma_text_le_total, lemma_text_le_transitive,
    push_str, str_le, str_starts_with, text_le,
};

verus! {

/// One entry of a directory as read: a directory with the entries read
/// below it, or a file with its size as shown.
pub struct DirNode {
    pub name: String,
    pub is_dir: bool,
    /// The size of a file as shown (such as `12 B` or `1.5 KB`).
    pub size_text: String,
    /// The entries of a directory, in the order read; empty for a file and
    /// for a directory that was not read.
    pub children: Vec<DirNode>,
}

/// A directory entry as plain values.
pub struct DirNodeView {
    pub name: Seq<char>,
    pub is_dir: bool,
    pub size_text: Seq<char>,
    pub children: Seq<DirNodeView>,
}

/// The plain values of a directory entry.
pub open spec fn node_view(n: DirNode) -> DirNodeView
    decreases n,
{
    DirNodeView {
        name: n.name@,
        is_dir: n.is_dir,
        size_text: n.size_text@,
        children: Seq::new(
            n.children@.len(),
            |i: int|
                if 0 <= i < n.children@.len() {
                    node_view(n.children@[i])
                } else {
                    DirNodeView {
                        name: Seq::empty(),
                        is_dir: false,
                        size_text: Seq::empty(),
                        children: Seq::empty(),
                    }
                },
        ),
    }
}

/// The plain values of a list of directory entries.
pub open spec fn nodes_view(v: Seq<DirNode>) -> Seq<DirNodeView> {
    v.map_values(|n: DirNode| node_view(n))
}

/// `a` is listed no later than `b`: directories before files, then by name.
pub open spec fn listed_before(a: DirNodeView, b: DirNodeView) -> bool {
    (a.is_dir && !b.is_dir) || (a.is_dir == b.is_dir && text_le(a.name, b.name))
}

/// `s` with `v` inserted after the entries, counted from the end, listed
/// no later than it (a step of a stable sort).
pub open spec fn insert_listed(s: Seq<DirNodeView>, v: DirNodeView) -> Seq<DirNodeView>
    decreases s.len(),
{
    if s.len() == 0 {
        seq![v]
    } else if listed_before(s.last(), v) {
        s.push(v)
    } else {
        insert_listed(s.drop_last(), v).push(s.last())
    }
}

/// `s` in listing order: directories first, then files, each group by
/// name, equal entries in their original order (a stable sort).
pub open spec fn listing_order(s: Seq<DirNodeView>) -> Seq<DirNodeView>
    decreases s.len(),
{
    if s.len() == 0 {
        s
    } else {
        insert_listed(listing_order(s.drop_last()), s.last())
    }
}

/// Every entry is listed no later than the entries after it.
pub open spec fn in_listing_order(s: Seq<DirNodeView>) -> bool {
    forall|i: int, j: int|
        0 <= i < j < s.len() ==> listed_before(#[trigger] s[i], #[trigger] s[j])
}

/// Inserting into a list in listing order keeps it in order and adds
/// exactly the one entry.
proof fn lemma_insert_listed(s: Seq<DirNodeView>, v: DirNodeView)
    requires
        in_listing_order(s),
    ensures
        in_listing_order(insert_listed(s, v)),
        insert_listed(s, v).to_multiset() =~= s.to_multiset().insert(v),
        forall|k: int|
            0 <= k < insert_listed(s, v).len() ==> (#[trigger] insert_listed(s, v)[k] == v
                || s.contains(insert_listed(s, v)[k])),
    decreases s.len(),
{
    broadcast use vstd::seq_lib::group_to_multiset_ensures;

    let r = insert_listed(s, v);
    if s.len() == 0 {
        assert(r =~= seq![v]);
        assert(seq![v] =~= Seq::<DirNodeView>::empty().push(v));
    } else if listed_before(s.last(), v) {
        assert forall|i: int, j: int| 0 <= i < j < r.len() implies listed_before(
            #[trigger] r[i],
            #[trigger] r[j],
        ) by {
            if j == r.len() - 1 && i < s.len() - 1 {
                lemma_listed_before_transitive(s[i], s.last(), v);
            }
        }
        assert forall|k: int| 0 <= k < r.len() implies (#[trigger] r[k] == v || s.contains(r[k])) by {
            if k < s.len() {
                assert(r[k] == s[k]);
            }
        }
    } else {
        let t = s.drop_last();
        let last = s.last();
        assert(in_listing_order(t)) by {
            assert forall|i: int, j: int| 0 <= i < j < t.len() implies listed_before(
                #[trigger] t[i],
                #[trigger] t[j],
            ) by {
                assert(t[i] == s[i] && t[j] == s[j]);
            }
        }
        lemma_insert_listed(t, v);
        let u = insert_listed(t, v);
        lemma_listed_before_total(last, v);
        assert forall|k: int| 0 <= k < u.len() implies listed_before(#[trigger] u[k], last) by {
            if u[k] != v {
                assert(t.contains(u[k]));
                let m = choose|m: int| 0 <= m < t.len() && t[m] == u[k];
                assert(s[m] == t[m]);
            }
        }
        assert forall|i: int, j: int| 0 <= i < j < r.len() implies listed_before(
            #[trigger] r[i],
            #[trigger] r[j],
        ) by {
            if j == r.len() - 1 {
                assert(r[i] == u[i]);
            } else {
                assert(r[i] == u[i] && r[j] == u[j]);
            }
        }
        assert(s =~= t.push(last));
        assert forall|k: int| 0 <= k < r.len() implies (#[trigger] r[k] == v || s.contains(r[k])) by {
            if k < u.len() {
                assert(r[k] == u[k]);
                if u[k] != v {
                    assert(t.contains(u[k]));
                    let m = choose|m: int| 0 <= m < t.len() && t[m] == u[k];
                    assert(s[m] == t[m]);
                }
            } else {
                assert(r[k] == s[s.len() - 1]);
            }
        }
    }
}

/// Any two entries are ordered one way or the other.
proof fn lemma_listed_before_total(a: DirNodeView, b: DirNodeView)
    ensures
        listed_before(a, b) || listed_before(b, a),
{
    lemma_text_le_total(a.name, b.name);
}

/// The listing order is transitive.
proof fn lemma_listed_before_transitive(a: DirNodeView, b: DirNodeView, c: DirNodeView)
    requires
        listed_before(a, b),
        listed_before(b, c),
    ensures
        listed_before(a, c),
{
    if a.is_dir == b.is_dir && b.is_dir == c.is_dir {
        lemma_text_le_transitive(a.name, b.name, c.name);
    }
}

/// A directory is listed with its directories first, then its files, each
/// group ordered by name, and with exactly the entries shown.
pub proof fn law_listing_order(s: Seq<DirNodeView>)
    ensures
        in_listing_order(listing_order(s)),
        listing_order(s).to_multiset() == s.to_multiset(),
        forall|i: int, j: int|
            0 <= i < j < listing_order(s).len() && (#[trigger] listing_order(s)[j]).is_dir
                ==> (#[trigger] listing_order(s)[i]).is_dir,
    decreases s.len(),
{
    broadcast use vstd::seq_lib::group_to_multiset_ensures;

    if s.len() > 0 {
        law_listing_order(s.drop_last());
        lemma_insert_listed(listing_order(s.drop_last()), s.last());
        assert(s =~= s.drop_last().push(s.last()));
    }
    let r = listing_order(s);
    assert forall|i: int, j: int| 0 <= i < j < r.len() && (#[trigger] r[j]).is_dir implies (
    #[trigger] r[i]).is_dir by {
        assert(listed_before(r[i], r[j]));
    }
}

/// The entry is shown: hidden entries (names starting with a dot) only
/// when asked for.
pub open spec fn shown(n: DirNodeView, show_hidden: bool) -> bool {
    show_hidden || !has_prefix(n.name, "."@)
}

/// The entries of a directory as listed: the shown ones, in listing order.
pub open spec fn listed(nodes: Seq<DirNodeView>, show_hidden: bool) -> Seq<DirNodeView> {
    listing_order(nodes.filter(|n: DirNodeView| shown(n, show_hidden)))
}

/// The connector drawn before the `i`-th of `n` entries.
pub open spec fn connector(i: int, n: int) -> Seq<char> {
    if i + 1 == n {
        "└── "@
    } else {
        "├── "@
    }
}

/// The prefix under the `i`-th of `n` entries.
pub open spec fn child_prefix(prefix: Seq<char>, i: int, n: int) -> Seq<char> {
    prefix + if i + 1 == n {
        "    "@
    } else {
        "│   "@
    }
}

/// The tree lines of the entries `nodes` of a directory, `levels` levels
/// deep, each line starting with `prefix`.
pub open spec fn tree_text(
    nodes: Seq<DirNodeView>,
    prefix: Seq<char>,
    levels: nat,
    show_hidden: bool,
) -> Seq<char>
    decreases levels, 1nat, 0nat,
{
    if levels == 0 {
        Seq::empty()
    } else {
        entries_text(listed(nodes, show_hidden), 0, prefix, levels, show_hidden)
    }
}

/// The tree lines of the `i`-th of `n` listed entries `e`: its own line
/// and, for a directory, the lines of its entries one level less deep.
pub open spec fn entry_text(
    e: DirNodeView,
    i: int,
    n: int,
    prefix: Seq<char>,
    levels: nat,
    show_hidden: bool,
) -> Seq<char>
    decreases levels, 0nat, 0nat,
{
    if levels == 0 {
        Seq::empty()
    } else if e.is_dir {
        prefix + connector(i, n) + e.name + "/\n"@ + tree_text(
            e.children,
            child_prefix(prefix, i, n),
            (levels - 1) as nat,
            show_hidden,
        )
    } else {
        prefix + connector(i, n) + e.name + " ("@ + e.size_text + ")\n"@
    }
}

/// The tree lines of the listed entries `es` from the `i`-th on.
pub open spec fn entries_text(
    es: Seq<DirNodeView>,
    i: nat,
    prefix: Seq<char>,
    levels: nat,
    show_hidden: bool,
) -> Seq<char>
    decreases levels, 0nat, es.len() - i,
{
    if levels == 0 || i >= es.len() {
        Seq::empty()
    } else {
        entry_text(es[i as int], i as int, es.len() as int, prefix, levels, show_hidden)
            + entries_text(es, i + 1, prefix, levels, show_hidden)
    }
}

/// The whole dir_list text: the root, then its tree `depth` levels deep.
pub open spec fn dir_list_text(
    root: Seq<char>,
    nodes: Seq<DirNodeView>,
    depth: nat,
    show_hidden: bool,
) -> Seq<char> {
    root + "/\n"@ + tree_text(nodes, Seq::empty(), depth, show_hidden)
}

/// Whether `a` is listed no later than `b`.
fn listed_before_exec(a: &DirNode, b: &DirNode) -> (r: bool)
    ensures
        r == listed_before(node_view(*a), node_view(*b)),
{
    if a.is_dir && !b.is_dir {
        true
    } else if a.is_dir == b.is_dir {
        str_le(a.name.as_str(), b.name.as_str())
    } else {
        false
    }
}

/// The positions of the shown entries of `nodes`, in listing order.
fn listing_positions(nodes: &Vec<DirNode>, show_hidden: bool) -> (r: Vec<usize>)
    ensures
        forall|k: int| 0 <= k < r@.len() ==> #[trigger] r@[k] < nodes@.len(),
        r@.map_values(|i: usize| node_view(nodes@[i as int])) == listed(
            nodes_view(nodes@),
            show_hidden,
        ),
{
    let ghost nv = nodes_view(nodes@);
    let ghost keep = |n: DirNodeView| shown(n, show_hidden);
    let mut out: Vec<usize> = Vec::new();
    let n = nodes.len();
    let mut i: usize = 0;
    assert(nv.take(0) =~= Seq::<DirNodeView>::empty());
    while i < n
        invariant
            n == nodes@.len(),
            nv == nodes_view(nodes@),
            keep == (|n: DirNodeView| shown(n, show_hidden)),
            i <= n,
            forall|k: int| 0 <= k < out@.len() ==> #[trigger] out@[k] < n,
            out@.map_values(|j: usize| node_view(nodes@[j as int])) == listing_order(
                nv.take(i as int).filter(keep),
            ),
        decreases n - i,
    {
        proof {
            reveal(Seq::filter);
            assert(nv.take(i + 1).drop_last() =~= nv.take(i as int));
            assert(nv.take(i + 1).last() == nv[i as int]);
        }
        let visible = show_hidden || !str_starts_with(nodes[i].name.as_str(), ".");
        if visible {
            let ghost s = out@.map_values(|j: usize| node_view(nodes@[j as int]));
            let ghost v = node_view(nodes@[i as int]);
            let mut pos = out.len();
            assert(s.take(pos as int) =~= s);
            assert(s.skip(pos as int) =~= Seq::<DirNodeView>::empty());
            while pos > 0 && !listed_before_exec(&nodes[out[pos - 1]], &nodes[i])
                invariant
                    n == nodes@.len(),
                    i < n,
                    v == node_view(nodes@[i as int]),
                    forall|k: int| 0 <= k < out@.len() ==> #[trigger] out@[k] < n,
                    s == out@.map_values(|j: usize| node_view(nodes@[j as int])),
                    pos <= out@.len(),
                    insert_listed(s, v) == insert_listed(s.take(pos as int), v) + s.skip(
                        pos as int,
                    ),
                decreases pos,
            {
                proof {
                    let t = s.take(pos as int);
                    assert(t.drop_last() =~= s.take(pos - 1));
                    assert(t.last() == s[pos - 1]);
                    assert(s.skip(pos - 1) =~= seq![s[pos - 1]] + s.skip(pos as int));
                    assert(insert_listed(t, v) == insert_listed(s.take(pos - 1), v).push(
                        s[pos - 1],
                    ));
                    assert(insert_listed(s.take(pos - 1), v).push(s[pos - 1]) + s.skip(
                        pos as int,
                    ) =~= insert_listed(s.take(pos - 1), v) + s.skip(pos - 1));
                }
                pos = pos - 1;
            }
            proof {
                let t = s.take(pos as int);
                if pos == 0 {
                    assert(t =~= Seq::<DirNodeView>::empty());
                    assert(insert_listed(t, v) =~= seq![v]);
                } else {
                    assert(t.last() == s[pos - 1]);
                    assert(insert_listed(t, v) == t.push(v));
                }
            }
            out.insert(pos, i);
            assert(out@.map_values(|j: usize| node_view(nodes@[j as int])) =~= s.take(
                pos as int,
            ).push(v) + s.skip(pos as int));
            proof {
                let f = nv.take(i as int).filter(keep);
                assert(nv[i as int] == v);
                assert(keep(v));
                assert(nv.take(i + 1).filter(keep) == f.push(v));
                assert(f.push(v).drop_last() =~= f);
                assert(listing_order(f.push(v)) == insert_listed(listing_order(f), v));
            }
        } else {
            assert(!keep(nv[i as int]));
            assert(nv.take(i + 1).filter(keep) == nv.take(i as int).filter(keep));
        }
        i = i + 1;
    }
    assert(nv.take(n as int) =~= nv);
    out
}

/// Appends the tree lines of the entries `nodes`, `levels` levels deep.
fn push_tree(
    out: &mut String,
    nodes: &Vec<DirNode>,
    prefix: &str,
    levels: usize,
    show_hidden: bool,
)
    ensures
        final(out)@ == old(out)@ + tree_text(
            nodes_view(nodes@),
            prefix@,
            levels as nat,
            show_hidden,
        ),
    decreases levels, 1nat, 0nat,
{
    if levels == 0 {
        assert(old(out)@ + tree_text(nodes_view(nodes@), prefix@, levels as nat, show_hidden)
            =~= old(out)@);
        return ;
    }
    let order = listing_positions(nodes, show_hidden);
    let ghost es = listed(nodes_view(nodes@), show_hidden);
    let count = order.len();
    let mut k: usize = 0;
    assert(tree_text(nodes_view(nodes@), prefix@, levels as nat, show_hidden) == entries_text(
        es,
        0,
        prefix@,
        levels as nat,
        show_hidden,
    ));
    while k < count
        invariant
            count == order@.len(),
            count == es.len(),
            levels > 0,
            forall|j: int| 0 <= j < order@.len() ==> #[trigger] order@[j] < nodes@.len(),
            order@.map_values(|i: usize| node_view(nodes@[i as int])) == es,
            k <= count,
            old(out)@ + tree_text(nodes_view(nodes@), prefix@, levels as nat, show_hidden)
                == out@ + entries_text(es, k as nat, prefix@, levels as nat, show_hidden),
        decreases count - k,
    {
        let e = &nodes[order[k]];
        assert(node_view(*e) == es[k as int]);
        let ghost before = out@;
        push_entry(out, e, k, count, prefix, levels, show_hidden);
        assert(entries_text(es, k as nat, prefix@, levels as nat, show_hidden) == entry_text(
            es[k as int],
            k as int,
            count as int,
            prefix@,
            levels as nat,
            show_hidden,
        ) + entries_text(es, (k + 1) as nat, prefix@, levels as nat, show_hidden));
        k = k + 1;
    }
}

/// Appends the tree lines of the `k`-th of `count` listed entries.
fn push_entry(
    out: &mut String,
    e: &DirNode,
    k: usize,
    count: usize,
    prefix: &str,
    levels: usize,
    show_hidden: bool,
)
    requires
        k < count,
        levels > 0,
    ensures
        final(out)@ == old(out)@ + entry_text(
            node_view(*e),
            k as int,
            count as int,
            prefix@,
            levels as nat,
            show_hidden,
        ),
    decreases levels, 0nat, 0nat,
{
    let last = k + 1 == count;
    push_str(out, prefix);
    if last {
        push_str(out, "└── ");
    } else {
        push_str(out, "├── ");
    }
    push_str(out, e.name.as_str());
    if e.is_dir {
        push_str(out, "/\n");
        let mut sub = copy_str(prefix);
        if last {
            push_str(&mut sub, "    ");
        } else {
            push_str(&mut sub, "│   ");
        }
        assert(nodes_view(e.children@) =~= node_view(*e).children);
        push_tree(out, &e.children, sub.as_str(), levels - 1, show_hidden);
    } else {
        push_str(out, " (");
        push_str(out, e.size_text.as_str());
        push_str(out, ")\n");
    }
}

/// The text of a dir_list call: the root as shown followed by `/`, then
/// the tree of its entries `depth` levels deep (directories first, then
/// files, each by name; hidden entries only when `show_hidden`).
pub fn dir_list_report(root: &str, entries: &Vec<DirNode>, depth: usize, show_hidden: bool) -> (r:
    String)
    ensures
        r@ == dir_list_text(root@, nodes_view(entries@), depth as nat, show_hidden),
{
    proof {
        reveal_strlit("");
        assert(""@ =~= Seq::<char>::empty());
    }
    let mut out = copy_str(root);
    push_str(&mut out, "/\n");
    push_tree(&mut out, entries, "", depth, show_hidden);
    out
}

/// The text of a glob_files call for the files found (as paths relative to
/// the root, in walk order): the first `max_results` of them, one per line,
/// or a note that nothing matched.
pub fn glob_files_report(pattern: &str, found: &Vec<String>, max_results: usize) -> (r: String)
    ensures
        r@ == if found@.len() == 0 || max_results == 0 {
            "No files found matching pattern: "@ + pattern@
        } else {
            join_with(
                found@.take(
                    if found@.len() < max_results {
                        found@.len() as int
                    } else {
                        max_results as int
                    },
                ).map_values(|s: String| s@),
                "\n"@,
            )
        },
{
    if found.len() == 0 || max_results == 0 {
        let mut r = copy_str("No files found matching pattern: ");
        push_str(&mut r, pattern);
        return r;
    }
    let k = if found.len() < max_results {
        found.len()
    } else {
        max_results
    };
    let mut kept: Vec<String> = Vec::new();
    let mut i: usize = 0;
    while i < k
        invariant
            k <= found@.len(),
            i <= k,
            kept@.map_values(|s: String| s@) =~= found@.take(i as int).map_values(|s: String| s@),
        decreases k - i,
    {
        let ghost before = kept@.map_values(|s: String| s@);
        kept.push(copy_str(found[i].as_str()));
        assert(kept@.map_values(|s: String| s@) =~= before.push(found@[i as int]@));
        assert(found@.take(i + 1).map_values(|s: String| s@) =~= found@.take(i as int).map_values(
            |s: String| s@,
        ).push(found@[i as int]@));
        i = i + 1;
    }
    join_strings(&kept, "\n")
}

/// Whether a search or listing may start at a path (shown as `display`):
/// it must exist (`NotFound`, "Path not found: <path>") and, where a
/// directory is needed, be one (`InvalidInput`, "Path is not a directory:
/// <path>").
pub fn check_search_root(display: &str, exists: bool, is_dir: bool, need_dir: bool) -> (r: Result<
    (),
    ToolError,
>)
    ensures
        !exists ==> is_error(r, ErrorKind::NotFound, "Path not found: "@ + display@),
        exists && need_dir && !is_dir ==> is_error(
            r,
            ErrorKind::InvalidInput,
            "Path is not a directory: "@ + display@,
        ),
        exists && (is_dir || !need_dir) ==> r is Ok,
{
    if !exists {
        let mut m = copy_str("Path not found: ");
        push_str(&mut m, display);
        return Err(ToolError::new(ErrorKind::NotFound, m));
    }
    if need_dir && !is_dir {
        let mut m = copy_str("Path is not a directory: ");
        push_str(&mut m, display);
        return Err(ToolError::new(ErrorKind::InvalidInput, m));
    }
    Ok(())
}

} // verus!
