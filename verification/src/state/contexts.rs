//! Bookkeeping on the list of known contexts: keeping it in step with the
//! context directories found on disk, dropping, renaming and registering
//! contexts, and finding the contexts that are due for destruction. The
//! directories themselves are created, listed and removed by the caller.

use vstd::prelude::*;

use crate::error::{is_error, ErrorKind, ToolError};
use crate::text::{
    copy_str, push_str, lemma_text_le_total, lemma_text_le_transitive, str_eq, str_le, text_le,
};
use super::app::{ContextEntry, ContextState};

verus! {

/// What a known context records, as plain values.
pub struct ContextEntryView {
    pub name: Seq<char>,
    pub created_at: u64,
    pub last_activity_at: u64,
    pub destroy_at: u64,
    pub destroy_after_seconds_inactive: u64,
}

/// The plain values of a known context.
pub open spec fn entry_view(e: ContextEntry) -> ContextEntryView {
    ContextEntryView {
        name: e.name@,
        created_at: e.created_at,
        last_activity_at: e.last_activity_at,
        destroy_at: e.destroy_at,
        destroy_after_seconds_inactive: e.destroy_after_seconds_inactive,
    }
}

/// The plain values of a list of known contexts.
pub open spec fn entries_view(cs: Seq<ContextEntry>) -> Seq<ContextEntryView> {
    cs.map_values(|e: ContextEntry| entry_view(e))
}

/// The names of a list of known contexts.
pub open spec fn view_names(vs: Seq<ContextEntryView>) -> Seq<Seq<char>> {
    vs.map_values(|v: ContextEntryView| v.name)
}

/// A context registered now: created and last active at `now`, with no
/// destroy settings.
pub open spec fn fresh_view(name: Seq<char>, now: u64) -> ContextEntryView {
    ContextEntryView {
        name,
        created_at: now,
        last_activity_at: now,
        destroy_at: 0,
        destroy_after_seconds_inactive: 0,
    }
}

/// The plain values of the directories found on disk: each name with
/// whether it is a valid context name.
pub open spec fn dirs_view(dirs: Seq<(String, bool)>) -> Seq<(Seq<char>, bool)> {
    dirs.map_values(|d: (String, bool)| (d.0@, d.1))
}

/// The strings of a list, as character sequences.
pub open spec fn strings_view(v: Seq<String>) -> Seq<Seq<char>> {
    v.map_values(|s: String| s@)
}

// ---------------------------------------------------------------------------
// Order by name
// ---------------------------------------------------------------------------

/// `s` with `v` inserted after the entries, counted from the end, whose
/// name comes no later than its own: into a list ordered by name, this
/// puts `v` after every entry of an equal name.
pub open spec fn insert_by_name(s: Seq<ContextEntryView>, v: ContextEntryView) -> Seq<
    ContextEntryView,
>
    decreases s.len(),
{
    if s.len() == 0 {
        seq![v]
    } else if text_le(s.last().name, v.name) {
        s.push(v)
    } else {
        insert_by_name(s.drop_last(), v).push(s.last())
    }
}

/// `s` ordered by name, entries of equal names in their original order
/// (what the stable `sort_by` on names gives).
pub open spec fn sort_by_name(s: Seq<ContextEntryView>) -> Seq<ContextEntryView>
    decreases s.len(),
{
    if s.len() == 0 {
        s
    } else {
        insert_by_name(sort_by_name(s.drop_last()), s.last())
    }
}

/// Every entry's name comes no later than the names after it.
pub open spec fn sorted_by_name(s: Seq<ContextEntryView>) -> bool {
    forall|i: int, j: int| 0 <= i < j < s.len() ==> text_le(#[trigger] s[i].name, #[trigger] s[j].name)
}

/// Inserting into a list ordered by name keeps it ordered and adds exactly
/// the one entry.
pub proof fn lemma_insert_by_name(s: Seq<ContextEntryView>, v: ContextEntryView)
    requires
        sorted_by_name(s),
    ensures
        sorted_by_name(insert_by_name(s, v)),
        insert_by_name(s, v).to_multiset() =~= s.to_multiset().insert(v),
        insert_by_name(s, v).len() == s.len() + 1,
        forall|k: int|
            0 <= k < insert_by_name(s, v).len() ==> (#[trigger] insert_by_name(s, v)[k] == v
                || s.contains(insert_by_name(s, v)[k])),
    decreases s.len(),
{
    broadcast use vstd::seq_lib::group_to_multiset_ensures;

    let r = insert_by_name(s, v);
    if s.len() == 0 {
        assert(r =~= seq![v]);
        assert(seq![v] =~= Seq::<ContextEntryView>::empty().push(v));
    } else if text_le(s.last().name, v.name) {
        assert forall|i: int, j: int| 0 <= i < j < r.len() implies text_le(
            #[trigger] r[i].name,
            #[trigger] r[j].name,
        ) by {
            if j == r.len() - 1 && i < s.len() - 1 {
                lemma_text_le_transitive(s[i].name, s.last().name, v.name);
            }
        }
        assert forall|k: int| 0 <= k < r.len() implies (#[trigger] r[k] == v || s.contains(r[k])) by {
            if k < s.len() {
                assert(r[k] == s[k]);
            }
        }
    } else {
        let t = s.drop_last();
        let last = s.last();
        assert(sorted_by_name(t)) by {
            assert forall|i: int, j: int| 0 <= i < j < t.len() implies text_le(
                #[trigger] t[i].name,
                #[trigger] t[j].name,
            ) by {
                assert(t[i] == s[i] && t[j] == s[j]);
            }
        }
        lemma_insert_by_name(t, v);
        let u = insert_by_name(t, v);
        lemma_text_le_total(last.name, v.name);
        assert forall|k: int| 0 <= k < u.len() implies text_le(#[trigger] u[k].name, last.name) by {
            if u[k] != v {
                assert(t.contains(u[k]));
                let m = choose|m: int| 0 <= m < t.len() && t[m] == u[k];
                assert(s[m] == t[m]);
            }
        }
        assert forall|i: int, j: int| 0 <= i < j < r.len() implies text_le(
            #[trigger] r[i].name,
            #[trigger] r[j].name,
        ) by {
            if j == r.len() - 1 {
                assert(r[i] == u[i]);
            } else {
                assert(r[i] == u[i] && r[j] == u[j]);
            }
        }
        assert(s =~= t.push(last));
        assert forall|k: int| 0 <= k < r.len() implies (#[trigger] r[k] == v || s.contains(r[k])) by {
            if k < u.len() {
                assert(r[k] == u[k]);
                if u[k] != v {
                    assert(t.contains(u[k]));
                    let m = choose|m: int| 0 <= m < t.len() && t[m] == u[k];
                    assert(s[m] == t[m]);
                }
            } else {
                assert(r[k] == s[s.len() - 1]);
            }
        }
    }
}

/// A list ordered by name is ordered, and holds the same entries as the
/// list it came from.
pub proof fn lemma_sort_by_name(s: Seq<ContextEntryView>)
    ensures
        sorted_by_name(sort_by_name(s)),
        sort_by_name(s).to_multiset() =~= s.to_multiset(),
        sort_by_name(s).len() == s.len(),
    decreases s.len(),
{
    broadcast use vstd::seq_lib::group_to_multiset_ensures;

    if s.len() > 0 {
        lemma_sort_by_name(s.drop_last());
        lemma_insert_by_name(sort_by_name(s.drop_last()), s.last());
        assert(s =~= s.drop_last().push(s.last()));
    }
}

/// Sorting by name reorders the entries and nothing more: the result is
/// ordered by name and holds each entry as often as the input did.
pub proof fn law_sort_by_name_is_ordered_permutation(s: Seq<ContextEntryView>)
    ensures
        sorted_by_name(sort_by_name(s)),
        sort_by_name(s).to_multiset() == s.to_multiset(),
{
    lemma_sort_by_name(s);
}

// ---------------------------------------------------------------------------
// Specifications of the operations
// ---------------------------------------------------------------------------

/// A directory of this name is among those found on disk.
pub open spec fn dir_listed(dirs: Seq<(Seq<char>, bool)>, name: Seq<char>) -> bool {
    exists|i: int| 0 <= i < dirs.len() && #[trigger] dirs[i].0 == name
}

/// The known contexts whose directory is still there, in order.
pub open spec fn kept_contexts(
    cs: Seq<ContextEntryView>,
    dirs: Seq<(Seq<char>, bool)>,
) -> Seq<ContextEntryView> {
    cs.filter(|v: ContextEntryView| dir_listed(dirs, v.name))
}

/// The directories with a valid context name that no known context names,
/// registered now, in the order they were found.
pub open spec fn orphan_contexts(
    dirs: Seq<(Seq<char>, bool)>,
    known: Seq<Seq<char>>,
    now: u64,
) -> Seq<ContextEntryView> {
    dirs.filter(|d: (Seq<char>, bool)| d.1 && !known.contains(d.0)).map_values(
        |d: (Seq<char>, bool)| fresh_view(d.0, now),
    )
}

/// The known contexts after a sync with the directories on disk: those
/// whose directory is gone are dropped, directories not yet known are
/// registered, and the whole list is ordered by name.
pub open spec fn synced_contexts(
    cs: Seq<ContextEntryView>,
    dirs: Seq<(Seq<char>, bool)>,
    now: u64,
) -> Seq<ContextEntryView> {
    let kept = kept_contexts(cs, dirs);
    sort_by_name(kept + orphan_contexts(dirs, view_names(kept), now))
}

/// Whether the context is due for destruction at time `now`: its destroy
/// time has come, or it has been inactive for at least its inactivity
/// limit. A setting of 0 is off.
pub open spec fn should_auto_destroy(v: ContextEntryView, now: u64) -> bool {
    (v.destroy_at > 0 && now >= v.destroy_at) || (v.destroy_after_seconds_inactive > 0 && (
    if now >= v.last_activity_at {
        now - v.last_activity_at
    } else {
        0
    }) >= v.destroy_after_seconds_inactive)
}

/// The names of the contexts due for destruction at `now`, in order.
pub open spec fn expired_names(cs: Seq<ContextEntryView>, now: u64) -> Seq<Seq<char>> {
    view_names(cs.filter(|v: ContextEntryView| should_auto_destroy(v, now)))
}

/// The known contexts without those named `name`.
pub open spec fn without_name(cs: Seq<ContextEntryView>, name: Seq<char>) -> Seq<ContextEntryView> {
    cs.filter(|v: ContextEntryView| v.name != name)
}

/// The position of the first known context named `name`.
pub open spec fn view_position(cs: Seq<ContextEntryView>, name: Seq<char>) -> Option<int> {
    if exists|i: int| 0 <= i < cs.len() && #[trigger] cs[i].name == name {
        Some(
            choose|i: int|
                0 <= i < cs.len() && #[trigger] cs[i].name == name && forall|j: int|
                    0 <= j < i ==> cs[j].name != name,
        )
    } else {
        None
    }
}

/// The known contexts after renaming `old_name` to `new_name`: the old
/// entry goes, and unless a context of the new name is already known, one
/// is added at the end with the old entry's creation time (`now` when there
/// was no old entry).
pub open spec fn renamed_contexts(
    cs: Seq<ContextEntryView>,
    old_name: Seq<char>,
    new_name: Seq<char>,
    now: u64,
) -> Seq<ContextEntryView> {
    let created_at = match view_position(cs, old_name) {
        Some(i) => cs[i].created_at,
        None => now,
    };
    let rest = without_name(cs, old_name);
    if view_names(rest).contains(new_name) {
        rest
    } else {
        rest.push(fresh_view(new_name, created_at))
    }
}

/// After a sync with the directories on disk, the known contexts are
/// ordered by name, each of them has its directory on disk, and each
/// directory with a valid context name is known.
pub proof fn law_sync_matches_disk(
    cs: Seq<ContextEntryView>,
    dirs: Seq<(Seq<char>, bool)>,
    now: u64,
)
    ensures
        sorted_by_name(synced_contexts(cs, dirs, now)),
        forall|k: int|
            0 <= k < synced_contexts(cs, dirs, now).len() ==> dir_listed(
                dirs,
                #[trigger] synced_contexts(cs, dirs, now)[k].name,
            ),
        forall|i: int|
            0 <= i < dirs.len() && (#[trigger] dirs[i]).1 ==> view_names(
                synced_contexts(cs, dirs, now),
            ).contains(dirs[i].0),
{
    broadcast use vstd::seq_lib::group_to_multiset_ensures;
    broadcast use vstd::seq_lib::group_filter_ensures;

    let kept = kept_contexts(cs, dirs);
    let known = view_names(kept);
    let orphan = |d: (Seq<char>, bool)| d.1 && !known.contains(d.0);
    let f = dirs.filter(orphan);
    let orph = orphan_contexts(dirs, known, now);
    let all = kept + orph;
    let r = synced_contexts(cs, dirs, now);
    assert(r == sort_by_name(all));
    lemma_sort_by_name(all);
    assert forall|k: int| 0 <= k < r.len() implies dir_listed(dirs, #[trigger] r[k].name) by {
        let x = r[k];
        assert(r.contains(x));
        assert(r.to_multiset().contains(x));
        assert(all.contains(x));
        let m = choose|m: int| 0 <= m < all.len() && all[m] == x;
        if m < kept.len() {
            assert(kept[m] == x);
            assert(cs.filter(|v: ContextEntryView| dir_listed(dirs, v.name)).contains(x));
            cs.lemma_filter_pred(|v: ContextEntryView| dir_listed(dirs, v.name), m);
        } else {
            let m2 = m - kept.len();
            assert(orph[m2] == x);
            assert(x == fresh_view(f[m2].0, now));
            assert(f.contains(f[m2]));
            dirs.lemma_filter_contains_rev(orphan, f[m2]);
            let i = choose|i: int| 0 <= i < dirs.len() && dirs[i] == f[m2];
            assert(dirs[i].0 == x.name);
        }
    }
    assert forall|i: int| 0 <= i < dirs.len() && (#[trigger] dirs[i]).1 implies view_names(
        r,
    ).contains(dirs[i].0) by {
        let d = dirs[i];
        if known.contains(d.0) {
            let m = choose|m: int| 0 <= m < known.len() && known[m] == d.0;
            let x = kept[m];
            assert(all[m] == x);
            assert(all.contains(x));
            assert(r.to_multiset().contains(x));
            assert(r.contains(x));
            let k = choose|k: int| 0 <= k < r.len() && r[k] == x;
            assert(view_names(r)[k] == d.0);
        } else {
            dirs.lemma_filter_contains(orphan, i);
            assert(f.contains(d));
            let m2 = choose|m2: int| 0 <= m2 < f.len() && f[m2] == d;
            let x = orph[m2];
            assert(x == fresh_view(d.0, now));
            assert(all[kept.len() + m2] == x);
            assert(all.contains(x));
            assert(r.to_multiset().contains(x));
            assert(r.contains(x));
            let k = choose|k: int| 0 <= k < r.len() && r[k] == x;
            assert(view_names(r)[k] == d.0);
        }
    }
}

/// After the contexts named `name` are dropped, no known context has that
/// name, and every other known context stays.
pub proof fn law_remove_named(cs: Seq<ContextEntryView>, name: Seq<char>)
    ensures
        !view_names(without_name(cs, name)).contains(name),
        forall|i: int|
            0 <= i < cs.len() && cs[i].name != name ==> without_name(cs, name).contains(
                #[trigger] cs[i],
            ),
{
    broadcast use vstd::seq_lib::group_filter_ensures;

    let r = without_name(cs, name);
    if view_names(r).contains(name) {
        let k = choose|k: int| 0 <= k < view_names(r).len() && view_names(r)[k] == name;
        cs.lemma_filter_pred(|v: ContextEntryView| v.name != name, k);
    }
    assert forall|i: int| 0 <= i < cs.len() && cs[i].name != name implies r.contains(
        #[trigger] cs[i],
    ) by {
        cs.lemma_filter_contains(|v: ContextEntryView| v.name != name, i);
    }
}

/// After a rename to a different name, the old name is no longer known and
/// the new one is.
pub proof fn law_rename(
    cs: Seq<ContextEntryView>,
    old_name: Seq<char>,
    new_name: Seq<char>,
    now: u64,
)
    requires
        old_name != new_name,
    ensures
        !view_names(renamed_contexts(cs, old_name, new_name, now)).contains(old_name),
        view_names(renamed_contexts(cs, old_name, new_name, now)).contains(new_name),
{
    law_remove_named(cs, old_name);
    let rest = without_name(cs, old_name);
    let r = renamed_contexts(cs, old_name, new_name, now);
    if !view_names(rest).contains(new_name) {
        let created_at = match view_position(cs, old_name) {
            Some(i) => cs[i].created_at,
            None => now,
        };
        assert(r == rest.push(fresh_view(new_name, created_at)));
        assert(view_names(r) =~= view_names(rest).push(new_name));
        assert(view_names(r)[rest.len() as int] == new_name);
    }
}

// ---------------------------------------------------------------------------
// Helpers
// ---------------------------------------------------------------------------

/// A copy of a known context.
fn copy_entry(e: &ContextEntry) -> (r: ContextEntry)
    ensures
        entry_view(r) == entry_view(*e),
{
    ContextEntry {
        name: copy_str(e.name.as_str()),
        created_at: e.created_at,
        last_activity_at: e.last_activity_at,
        destroy_at: e.destroy_at,
        destroy_after_seconds_inactive: e.destroy_after_seconds_inactive,
    }
}

/// Whether a directory of this name is among those found.
fn listed(dirs: &[(String, bool)], name: &str) -> (r: bool)
    ensures
        r == dir_listed(dirs_view(dirs@), name@),
{
    let ghost dv = dirs_view(dirs@);
    let n = dirs.len();
    let mut i: usize = 0;
    while i < n
        invariant
            n == dirs@.len(),
            dv == dirs_view(dirs@),
            i <= n,
            forall|j: int| 0 <= j < i ==> dv[j].0 != name@,
        decreases n - i,
    {
        if str_eq(dirs[i].0.as_str(), name) {
            assert(dv[i as int].0 == name@);
            return true;
        }
        i = i + 1;
    }
    false
}

/// Whether one of the contexts is named `name`.
fn has_name(cs: &Vec<ContextEntry>, name: &str) -> (r: bool)
    ensures
        r == view_names(entries_view(cs@)).contains(name@),
{
    let ghost names = view_names(entries_view(cs@));
    let n = cs.len();
    let mut i: usize = 0;
    while i < n
        invariant
            n == cs@.len(),
            names == view_names(entries_view(cs@)),
            i <= n,
            forall|j: int| 0 <= j < i ==> names[j] != name@,
        decreases n - i,
    {
        if str_eq(cs[i].name.as_str(), name) {
            assert(names[i as int] == name@);
            return true;
        }
        i = i + 1;
    }
    false
}

/// Inserts `e` into `out` as `insert_by_name` does.
fn insert_sorted(out: &mut Vec<ContextEntry>, e: ContextEntry)
    ensures
        entries_view(final(out)@) == insert_by_name(entries_view(old(out)@), entry_view(e)),
{
    let ghost s = entries_view(out@);
    let ghost v = entry_view(e);
    let mut pos = out.len();
    assert(s.take(pos as int) =~= s);
    assert(s.skip(pos as int) =~= Seq::<ContextEntryView>::empty());
    while pos > 0 && !str_le(out[pos - 1].name.as_str(), e.name.as_str())
        invariant
            out@ == old(out)@,
            s == entries_view(out@),
            v == entry_view(e),
            pos <= out@.len(),
            insert_by_name(s, v) == insert_by_name(s.take(pos as int), v) + s.skip(pos as int),
        decreases pos,
    {
        proof {
            let t = s.take(pos as int);
            assert(t.drop_last() =~= s.take(pos - 1));
            assert(t.last() == s[pos - 1]);
            assert(s.skip(pos - 1) =~= seq![s[pos - 1]] + s.skip(pos as int));
            assert(insert_by_name(t, v) == insert_by_name(s.take(pos - 1), v).push(s[pos - 1]));
            assert(insert_by_name(s.take(pos - 1), v).push(s[pos - 1]) + s.skip(pos as int)
                =~= insert_by_name(s.take(pos - 1), v) + s.skip(pos - 1));
        }
        pos = pos - 1;
    }
    proof {
        let t = s.take(pos as int);
        if pos == 0 {
            assert(t =~= Seq::<ContextEntryView>::empty());
            assert(insert_by_name(t, v) =~= seq![v]);
        } else {
            assert(t.last() == s[pos - 1]);
            assert(insert_by_name(t, v) == t.push(v));
        }
    }
    out.insert(pos, e);
    assert(entries_view(out@) =~= s.take(pos as int).push(v) + s.skip(pos as int));
}

/// A vector of copies of the known contexts ordered by name.
fn sorted_copy(cs: &Vec<ContextEntry>) -> (r: Vec<ContextEntry>)
    ensures
        entries_view(r@) == sort_by_name(entries_view(cs@)),
{
    let ghost s = entries_view(cs@);
    let mut out: Vec<ContextEntry> = Vec::new();
    let n = cs.len();
    let mut i: usize = 0;
    assert(s.take(0) =~= Seq::<ContextEntryView>::empty());
    while i < n
        invariant
            n == cs@.len(),
            s == entries_view(cs@),
            i <= n,
            entries_view(out@) == sort_by_name(s.take(i as int)),
        decreases n - i,
    {
        let e = copy_entry(&cs[i]);
        insert_sorted(&mut out, e);
        proof {
            assert(s.take(i + 1).drop_last() =~= s.take(i as int));
            assert(s.take(i + 1).last() == s[i as int]);
        }
        i = i + 1;
    }
    assert(s.take(n as int) =~= s);
    out
}

impl ContextEntry {
    /// Whether this context is due for destruction at time `now`: its
    /// destroy time has come, or it has been inactive for at least its
    /// inactivity limit (a setting of 0 is off).
    pub fn should_auto_destroy_at(&self, now: u64) -> (r: bool)
        ensures
            r == should_auto_destroy(entry_view(*self), now),
    {
        if self.destroy_at > 0 && now >= self.destroy_at {
            return true;
        }
        if self.destroy_after_seconds_inactive > 0 {
            let inactive = if now >= self.last_activity_at {
                now - self.last_activity_at
            } else {
                0
            };
            if inactive >= self.destroy_after_seconds_inactive {
                return true;
            }
        }
        false
    }
}

impl ContextState {
    /// Brings the known contexts in step with the context directories found
    /// on disk, given as names each with whether it is a valid context
    /// name: contexts whose directory is gone are dropped, valid
    /// directories not yet known are registered as created at `now`, and
    /// the list is ordered by name. Returns whether anything was dropped or
    /// added (the list then needs saving).
    pub fn sync_with_dirs(&mut self, dirs: &[(String, bool)], now: u64) -> (modified: bool)
        ensures
            entries_view(final(self).contexts@) == synced_contexts(
                entries_view(old(self).contexts@),
                dirs_view(dirs@),
                now,
            ),
            modified == (kept_contexts(entries_view(old(self).contexts@), dirs_view(dirs@)).len()
                != old(self).contexts@.len() || orphan_contexts(
                dirs_view(dirs@),
                view_names(kept_contexts(entries_view(old(self).contexts@), dirs_view(dirs@))),
                now,
            ).len() > 0),
    {
        let ghost cv = entries_view(self.contexts@);
        let ghost dv = dirs_view(dirs@);
        let ghost keep = |v: ContextEntryView| dir_listed(dv, v.name);
        let mut all: Vec<ContextEntry> = Vec::new();
        let n = self.contexts.len();
        let mut i: usize = 0;
        assert(cv.take(0) =~= Seq::<ContextEntryView>::empty());
        proof {
            reveal(Seq::filter);
        }
        while i < n
            invariant
                n == self.contexts@.len(),
                cv == entries_view(self.contexts@),
                dv == dirs_view(dirs@),
                keep == (|v: ContextEntryView| dir_listed(dv, v.name)),
                i <= n,
                entries_view(all@) == cv.take(i as int).filter(keep),
            decreases n - i,
        {
            proof {
                reveal(Seq::filter);
                assert(cv.take(i + 1).drop_last() =~= cv.take(i as int));
                assert(cv.take(i + 1).last() == cv[i as int]);
            }
            if listed(dirs, self.contexts[i].name.as_str()) {
                let e = copy_entry(&self.contexts[i]);
                let ghost before = entries_view(all@);
                all.push(e);
                assert(entries_view(all@) =~= before.push(cv[i as int]));
            }
            i = i + 1;
        }
        assert(cv.take(n as int) =~= cv);
        let ghost kv = entries_view(all@);
        let ghost known = view_names(kv);
        let ghost orphan = |d: (Seq<char>, bool)| d.1 && !known.contains(d.0);
        let ghost fresh = |d: (Seq<char>, bool)| fresh_view(d.0, now);
        let mut orphans: Vec<ContextEntry> = Vec::new();
        let m = dirs.len();
        let mut j: usize = 0;
        assert(dv.take(0) =~= Seq::<(Seq<char>, bool)>::empty());
        while j < m
            invariant
                m == dirs@.len(),
                dv == dirs_view(dirs@),
                kv == entries_view(all@),
                known == view_names(kv),
                orphan == (|d: (Seq<char>, bool)| d.1 && !known.contains(d.0)),
                fresh == (|d: (Seq<char>, bool)| fresh_view(d.0, now)),
                j <= m,
                entries_view(orphans@) == dv.take(j as int).filter(orphan).map_values(fresh),
            decreases m - j,
        {
            proof {
                reveal(Seq::filter);
                assert(dv.take(j + 1).drop_last() =~= dv.take(j as int));
                assert(dv.take(j + 1).last() == dv[j as int]);
            }
            let valid = dirs[j].1;
            let is_known = has_name(&all, dirs[j].0.as_str());
            if valid && !is_known {
                let ghost before = entries_view(orphans@);
                orphans.push(
                    ContextEntry {
                        name: copy_str(dirs[j].0.as_str()),
                        created_at: now,
                        last_activity_at: now,
                        destroy_at: 0,
                        destroy_after_seconds_inactive: 0,
                    },
                );
                assert(entries_view(orphans@) =~= before.push(fresh_view(dv[j as int].0, now)));
                assert(dv.take(j + 1).filter(orphan).map_values(fresh) =~= dv.take(
                    j as int,
                ).filter(orphan).map_values(fresh).push(fresh_view(dv[j as int].0, now)));
            } else {
                assert(dv.take(j + 1).filter(orphan) == dv.take(j as int).filter(orphan));
            }
            j = j + 1;
        }
        assert(dv.take(m as int) =~= dv);
        let kept_len = all.len();
        let added = orphans.len();
        let ghost ov = entries_view(orphans@);
        all.append(&mut orphans);
        assert(entries_view(all@) =~= kv + ov);
        let sorted = sorted_copy(&all);
        self.contexts = sorted;
        kept_len != n || added > 0
    }

    /// The names of the contexts due for destruction at time `now`, in
    /// order.
    pub fn expired_names(&self, now: u64) -> (r: Vec<String>)
        ensures
            strings_view(r@) == expired_names(entries_view(self.contexts@), now),
    {
        let ghost cv = entries_view(self.contexts@);
        let ghost due = |v: ContextEntryView| should_auto_destroy(v, now);
        let mut out: Vec<String> = Vec::new();
        let n = self.contexts.len();
        let mut i: usize = 0;
        assert(cv.take(0) =~= Seq::<ContextEntryView>::empty());
        proof {
            reveal(Seq::filter);
        }
        while i < n
            invariant
                n == self.contexts@.len(),
                cv == entries_view(self.contexts@),
                due == (|v: ContextEntryView| should_auto_destroy(v, now)),
                i <= n,
                strings_view(out@) == view_names(cv.take(i as int).filter(due)),
            decreases n - i,
        {
            proof {
                reveal(Seq::filter);
                assert(cv.take(i + 1).drop_last() =~= cv.take(i as int));
                assert(cv.take(i + 1).last() == cv[i as int]);
            }
            if self.contexts[i].should_auto_destroy_at(now) {
                let ghost before = strings_view(out@);
                out.push(copy_str(self.contexts[i].name.as_str()));
                assert(strings_view(out@) =~= before.push(cv[i as int].name));
                assert(view_names(cv.take(i + 1).filter(due)) =~= view_names(
                    cv.take(i as int).filter(due),
                ).push(cv[i as int].name));
            }
            i = i + 1;
        }
        assert(cv.take(n as int) =~= cv);
        out
    }

    /// The position of the first known context named `name`.
    fn position_of(&self, name: &str) -> (r: Option<usize>)
        ensures
            match r {
                Some(i) => i < self.contexts@.len() && view_position(
                    entries_view(self.contexts@),
                    name@,
                ) == Some(i as int),
                None => view_position(entries_view(self.contexts@), name@) is None,
            },
    {
        let ghost cv = entries_view(self.contexts@);
        let n = self.contexts.len();
        let mut i: usize = 0;
        while i < n
            invariant
                n == self.contexts@.len(),
                cv == entries_view(self.contexts@),
                i <= n,
                forall|j: int| 0 <= j < i ==> cv[j].name != name@,
            decreases n - i,
        {
            if str_eq(self.contexts[i].name.as_str(), name) {
                proof {
                    assert(cv[i as int].name == name@);
                    let k = choose|k: int|
                        0 <= k < cv.len() && #[trigger] cv[k].name == name@ && forall|j: int|
                            0 <= j < k ==> cv[j].name != name@;
                    if k < i {
                        assert(cv[k].name != name@);
                    }
                    if k > i {
                        assert(cv[i as int].name != name@);
                    }
                }
                return Some(i);
            }
            i = i + 1;
        }
        None
    }

    /// Registers a context named `name`, created at `created_at`, unless a
    /// context of that name is already known. Returns whether it was added.
    pub fn register(&mut self, name: &str, created_at: u64) -> (added: bool)
        ensures
            added == !view_names(entries_view(old(self).contexts@)).contains(name@),
            entries_view(final(self).contexts@) == if added {
                entries_view(old(self).contexts@).push(fresh_view(name@, created_at))
            } else {
                entries_view(old(self).contexts@)
            },
    {
        if has_name(&self.contexts, name) {
            false
        } else {
            let ghost before = entries_view(self.contexts@);
            self.contexts.push(ContextEntry::with_created_at(name, created_at));
            assert(entries_view(self.contexts@) =~= before.push(fresh_view(name@, created_at)));
            true
        }
    }

    /// Renames the known context `old_name` to `new_name` (after its
    /// directory was renamed): the old entry goes and, unless a context of
    /// the new name is already known, one is added with the old entry's
    /// creation time, or `now` when `old_name` was not known.
    pub fn rename_entry(&mut self, old_name: &str, new_name: &str, now: u64)
        ensures
            entries_view(final(self).contexts@) == renamed_contexts(
                entries_view(old(self).contexts@),
                old_name@,
                new_name@,
                now,
            ),
    {
        let created_at = match self.position_of(old_name) {
            Some(i) => self.contexts[i].created_at,
            None => now,
        };
        self.remove_named(old_name);
        self.register(new_name, created_at);
    }

    /// Drops every known context named `name` (after its directory was
    /// removed).
    pub fn remove_named(&mut self, name: &str)
        ensures
            entries_view(final(self).contexts@) == without_name(
                entries_view(old(self).contexts@),
                name@,
            ),
    {
        let ghost cv = entries_view(self.contexts@);
        let ghost keep = |v: ContextEntryView| v.name != name@;
        let mut kept: Vec<ContextEntry> = Vec::new();
        let n = self.contexts.len();
        let mut i: usize = 0;
        assert(cv.take(0) =~= Seq::<ContextEntryView>::empty());
        proof {
            reveal(Seq::filter);
        }
        while i < n
            invariant
                n == self.contexts@.len(),
                cv == entries_view(self.contexts@),
                keep == (|v: ContextEntryView| v.name != name@),
                i <= n,
                entries_view(kept@) == cv.take(i as int).filter(keep),
            decreases n - i,
        {
            proof {
                reveal(Seq::filter);
                assert(cv.take(i + 1).drop_last() =~= cv.take(i as int));
                assert(cv.take(i + 1).last() == cv[i as int]);
            }
            if !str_eq(self.contexts[i].name.as_str(), name) {
                let e = copy_entry(&self.contexts[i]);
                let ghost before = entries_view(kept@);
                kept.push(e);
                assert(entries_view(kept@) =~= before.push(cv[i as int]));
            }
            i = i + 1;
        }
        assert(cv.take(n as int) =~= cv);
        self.contexts = kept;
    }
}

/// Whether a context directory may be renamed: its directory must exist
/// (`NotFound`, "Context '<old>' does not exist") and the new one must not
/// (`AlreadyExists`, "Context '<new>' already exists"), checked in that order.
pub fn rename_precheck(old_name: &str, new_name: &str, old_exists: bool, new_exists: bool) -> (r:
    Result<(), ToolError>)
    ensures
        !old_exists ==> is_error(
            r,
            ErrorKind::NotFound,
            "Context '"@ + old_name@ + "' does not exist"@,
        ),
        old_exists && new_exists ==> is_error(
            r,
            ErrorKind::AlreadyExists,
            "Context '"@ + new_name@ + "' already exists"@,
        ),
        old_exists && !new_exists ==> r is Ok,
{
    if !old_exists {
        let mut m = copy_str("Context '");
        push_str(&mut m, old_name);
        push_str(&mut m, "' does not exist");
        return Err(ToolError::new(ErrorKind::NotFound, m));
    }
    if new_exists {
        let mut m = copy_str("Context '");
        push_str(&mut m, new_name);
        push_str(&mut m, "' already exists");
        return Err(ToolError::new(ErrorKind::AlreadyExists, m));
    }
    Ok(())
}

} // verus!
