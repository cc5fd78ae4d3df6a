//! The undo handles of deleted notes, each with its own expiry time.
//! Times are milliseconds on one monotonic clock chosen by the caller.
use crate::types::{DeletedNote, NoteId};
use vstd::prelude::*;

verus! {

/// How long an undo handle lives, in milliseconds (the toast's lifetime).
pub const UNDO_TTL_MS: u64 = 5000;

/// An undo handle as the log holds it: `((id, original path), expires_at)`.
pub type EntryView = ((Seq<char>, Seq<char>), int);

/// The entries still alive at `now`: those that expire after it, in order.
pub open spec fn live_entries(s: Seq<EntryView>, now: int) -> Seq<EntryView>
    decreases s.len(),
{
    if s.len() == 0 {
        Seq::empty()
    } else {
        let p = live_entries(s.drop_last(), now);
        if s.last().1 > now {
            p.push(s.last())
        } else {
            p
        }
    }
}

/// Index of the latest entry of note `id`, or -1.
pub open spec fn last_index_of_id(s: Seq<EntryView>, id: Seq<char>) -> int
    decreases s.len(),
{
    if s.len() == 0 {
        -1
    } else if s.last().0.0 == id {
        s.len() - 1
    } else {
        last_index_of_id(s.drop_last(), id)
    }
}

/// The handle the latest live entry of `id` holds, if any.
pub open spec fn find_outcome(s: Seq<EntryView>, id: Seq<char>, now: int) -> Option<(Seq<char>, Seq<char>)> {
    let l = live_entries(s, now);
    let i = last_index_of_id(l, id);
    if i >= 0 {
        Some(l[i].0)
    } else {
        None
    }
}

/// The entries after removing the latest live entry of `id` at `now` (the
/// expired ones are gone as well).
pub open spec fn after_remove(s: Seq<EntryView>, id: Seq<char>, now: int) -> Seq<EntryView> {
    let l = live_entries(s, now);
    let i = last_index_of_id(l, id);
    if i >= 0 {
        l.remove(i)
    } else {
        l
    }
}

/// The entries after pushing `d` at `now` with a lifetime of `ttl`.
pub open spec fn after_push(s: Seq<EntryView>, d: (Seq<char>, Seq<char>), now: int, ttl: int) -> Seq<
    EntryView,
> {
    live_entries(s, now).push((d, now + ttl))
}

pub proof fn lemma_last_index_of_id(s: Seq<EntryView>, id: Seq<char>)
    ensures
        -1 <= last_index_of_id(s, id) < s.len(),
        last_index_of_id(s, id) >= 0 ==> s[last_index_of_id(s, id)].0.0 == id,
        forall|k: int| last_index_of_id(s, id) < k < s.len() ==> #[trigger] s[k].0.0 != id,
    decreases s.len(),
{
    if s.len() > 0 && s.last().0.0 != id {
        lemma_last_index_of_id(s.drop_last(), id);
        assert forall|k: int| last_index_of_id(s, id) < k < s.len() implies #[trigger] s[k].0.0 != id by {
            if k < s.len() - 1 {
                assert(s[k] == s.drop_last()[k]);
            }
        }
    }
}

/// Whether a handle survives pruning depends on its own expiry alone.
pub proof fn lemma_live_entries(s: Seq<EntryView>, now: int)
    ensures
        live_entries(s, now).len() <= s.len(),
        forall|e: EntryView| #[trigger] live_entries(s, now).contains(e) <==> (s.contains(e) && e.1 > now),
    decreases s.len(),
{
    if s.len() > 0 {
        let q = s.drop_last();
        lemma_live_entries(q, now);
        let p = live_entries(q, now);
        assert forall|e: EntryView| #[trigger] live_entries(s, now).contains(e) <==> (s.contains(e) && e.1 > now) by {
            if s.contains(e) {
                let k = choose|k: int| 0 <= k < s.len() && s[k] == e;
                if k < s.len() - 1 {
                    assert(q[k] == e);
                }
            }
            if q.contains(e) {
                let k = choose|k: int| 0 <= k < q.len() && q[k] == e;
                assert(s[k] == e);
            }
            if s.last().1 > now {
                assert(p.push(s.last())[p.len() as int] == s.last());
                if p.push(s.last()).contains(e) {
                    let k = choose|k: int| 0 <= k < p.len() + 1 && p.push(s.last())[k] == e;
                    if k < p.len() {
                        assert(p[k] == e);
                    }
                }
                if p.contains(e) {
                    let k = choose|k: int| 0 <= k < p.len() && p[k] == e;
                    assert(p.push(s.last())[k] == e);
                }
            }
        }
    }
}

/// A handle just pushed is found by its note's id for as long as it lives.
pub proof fn lemma_push_then_find(
    s: Seq<EntryView>,
    d: (Seq<char>, Seq<char>),
    now: int,
    ttl: int,
    t: int,
)
    requires
        t < now + ttl,
    ensures
        find_outcome(after_push(s, d, now, ttl), d.0, t) == Some(d),
{
    let p = after_push(s, d, now, ttl);
    assert(p.drop_last() =~= live_entries(s, now));
    let l = live_entries(p, t);
    assert(l.last() == (d, now + ttl));
}

/// Once every handle of a note has expired, none is found.
pub proof fn lemma_expired_not_found(s: Seq<EntryView>, id: Seq<char>, t: int)
    requires
        forall|k: int| 0 <= k < s.len() && #[trigger] s[k].0.0 == id ==> s[k].1 <= t,
    ensures
        find_outcome(s, id, t) is None,
{
    let l = live_entries(s, t);
    lemma_live_entries(s, t);
    lemma_last_index_of_id(l, id);
    let i = last_index_of_id(l, id);
    if i >= 0 {
        assert(l.contains(l[i]));
        let k = choose|k: int| 0 <= k < s.len() && s[k] == l[i];
        assert(s[k].0.0 == id);
    }
}

/// Removing a note's handle takes out exactly one live entry, that note's
/// latest, and leaves the handles of every other note as they were.
pub proof fn lemma_remove_is_per_note(s: Seq<EntryView>, id: Seq<char>, now: int)
    ensures
        find_outcome(s, id, now) is Some ==> after_remove(s, id, now).len() + 1 == live_entries(
            s,
            now,
        ).len(),
        find_outcome(s, id, now) is None ==> after_remove(s, id, now) == live_entries(s, now),
        forall|e: EntryView|
            e.0.0 != id ==> (#[trigger] after_remove(s, id, now).contains(e) <==> live_entries(
                s,
                now,
            ).contains(e)),
{
    let l = live_entries(s, now);
    lemma_last_index_of_id(l, id);
    let i = last_index_of_id(l, id);
    if i >= 0 {
        let r = l.remove(i);
        assert forall|e: EntryView| e.0.0 != id implies (#[trigger] r.contains(e) <==> l.contains(e)) by {
            if l.contains(e) {
                let k = choose|k: int| 0 <= k < l.len() && l[k] == e;
                assert(k != i);
                if k < i {
                    assert(r[k] == e);
                } else {
                    assert(r[k - 1] == e);
                }
            }
            if r.contains(e) {
                let k = choose|k: int| 0 <= k < r.len() && r[k] == e;
                if k < i {
                    assert(l[k] == e);
                } else {
                    assert(l[k + 1] == e);
                }
            }
        }
    }
}

proof fn lemma_live_twice(s: Seq<EntryView>, a: int, b: int)
    requires
        a <= b,
    ensures
        live_entries(live_entries(s, a), b) == live_entries(s, b),
    decreases s.len(),
{
    if s.len() > 0 {
        lemma_live_twice(s.drop_last(), a, b);
        let p = live_entries(s.drop_last(), a);
        if s.last().1 > a {
            assert(p.push(s.last()).drop_last() =~= p);
        }
    }
}

/// Undoing a handle while it lives, right after it was pushed, gives that
/// handle back and leaves the log as pruning alone would have left it.
pub proof fn lemma_remove_after_push(
    s: Seq<EntryView>,
    d: (Seq<char>, Seq<char>),
    now: int,
    ttl: int,
    t: int,
)
    requires
        now <= t < now + ttl,
    ensures
        find_outcome(after_push(s, d, now, ttl), d.0, t) == Some(d),
        after_remove(after_push(s, d, now, ttl), d.0, t) == live_entries(s, t),
{
    lemma_push_then_find(s, d, now, ttl, t);
    let p = after_push(s, d, now, ttl);
    assert(p.drop_last() =~= live_entries(s, now));
    lemma_live_twice(s, now, t);
    let l = live_entries(p, t);
    assert(l == live_entries(s, t).push((d, now + ttl)));
    assert(l.remove(l.len() - 1) =~= live_entries(s, t));
}

/// An undo handle with the time at which it expires.
#[derive(Debug)]
pub struct UndoEntry {
    deleted: DeletedNote,
    expires_at_ms: u64,
}

impl View for UndoEntry {
    type V = EntryView;

    closed spec fn view(&self) -> EntryView {
        (self.deleted@, self.expires_at_ms as int)
    }
}

/// Undo handles in push order; each expires on its own, and expired ones are
/// dropped whenever the log is used.
#[derive(Debug)]
pub struct InMemoryUndoStack {
    entries: Vec<UndoEntry>,
    ttl_ms: u64,
}

impl View for InMemoryUndoStack {
    /// The entries, oldest first.
    type V = Seq<EntryView>;

    closed spec fn view(&self) -> Seq<EntryView> {
        self.entries@.map_values(|e: UndoEntry| e@)
    }
}

impl Default for InMemoryUndoStack {
    fn default() -> (r: InMemoryUndoStack)
        ensures
            r@ == Seq::<EntryView>::empty(),
            r.ttl() == UNDO_TTL_MS,
    {
        InMemoryUndoStack::new()
    }
}

impl InMemoryUndoStack {
    /// The lifetime of each handle, in milliseconds.
    pub closed spec fn ttl(&self) -> int {
        self.ttl_ms as int
    }

    /// An empty log whose handles live `UNDO_TTL_MS`.
    pub fn new() -> (r: InMemoryUndoStack)
        ensures
            r@ == Seq::<EntryView>::empty(),
            r.ttl() == UNDO_TTL_MS,
    {
        Self::with_ttl(UNDO_TTL_MS)
    }

    /// An empty log whose handles live `ttl_ms` milliseconds.
    pub fn with_ttl(ttl_ms: u64) -> (r: InMemoryUndoStack)
        ensures
            r@ == Seq::<EntryView>::empty(),
            r.ttl() == ttl_ms,
    {
        let r = InMemoryUndoStack { entries: Vec::new(), ttl_ms };
        assert(r@ =~= Seq::<EntryView>::empty());
        r
    }

    /// Drops the entries that expire at or before `now_ms`.
    fn prune_expired(&mut self, now_ms: u64)
        ensures
            final(self)@ == live_entries(old(self)@, now_ms as int),
            final(self).ttl() == old(self).ttl(),
    {
        let ghost src = self@;
        let mut old_entries: Vec<UndoEntry> = Vec::new();
        std::mem::swap(&mut old_entries, &mut self.entries);
        let mut kept: Vec<UndoEntry> = Vec::new();
        let mut i: usize = 0;
        let n = old_entries.len();
        assert(old_entries@.map_values(|e: UndoEntry| e@) == src);
        while i < n
            invariant
                n == old_entries.len(),
                i <= n,
                old_entries@.map_values(|e: UndoEntry| e@) == src,
                kept@.map_values(|e: UndoEntry| e@) == live_entries(src.subrange(0, i as int), now_ms as int),
            decreases n - i,
        {
            let ghost before = kept@;
            assert(src.subrange(0, i + 1).drop_last() =~= src.subrange(0, i as int));
            assert(src.subrange(0, i + 1).last() == old_entries@[i as int]@);
            if old_entries[i].expires_at_ms > now_ms {
                let e = UndoEntry {
                    deleted: old_entries[i].deleted.clone(),
                    expires_at_ms: old_entries[i].expires_at_ms,
                };
                kept.push(e);
                assert(kept@.map_values(|e: UndoEntry| e@) =~= before.map_values(|e: UndoEntry| e@).push(
                    old_entries@[i as int]@,
                ));
            }
            i = i + 1;
        }
        assert(src.subrange(0, n as int) =~= src);
        self.entries = kept;
    }

    /// Drops the expired entries, then adds `deleted`, which expires `ttl`
    /// after `now_ms`. The other live entries stay, in order.
    pub fn push(&mut self, deleted: DeletedNote, now_ms: u64)
        requires
            now_ms + old(self).ttl() <= u64::MAX,
        ensures
            final(self)@ == after_push(old(self)@, deleted@, now_ms as int, old(self).ttl()),
            final(self).ttl() == old(self).ttl(),
    {
        self.prune_expired(now_ms);
        let ghost before = self@;
        let e = UndoEntry { deleted, expires_at_ms: now_ms + self.ttl_ms };
        self.entries.push(e);
        assert(self@ =~= before.push(e@));
    }

    /// The handle of the latest live entry of note `id` (expired entries are
    /// dropped first).
    pub fn find_by_id(&mut self, id: &NoteId, now_ms: u64) -> (r: Option<DeletedNote>)
        ensures
            final(self)@ == live_entries(old(self)@, now_ms as int),
            final(self).ttl() == old(self).ttl(),
            match find_outcome(old(self)@, id@, now_ms as int) {
                Some(d) => r matches Some(x) && x@ == d,
                None => r is None,
            },
    {
        self.prune_expired(now_ms);
        match self.last_position_of(id) {
            Some(i) => Some(self.entries[i].deleted.clone()),
            None => None,
        }
    }

    /// Removes the latest live entry of note `id` and returns its handle
    /// (expired entries are dropped first); the other entries stay in order.
    pub fn remove_by_id(&mut self, id: &NoteId, now_ms: u64) -> (r: Option<DeletedNote>)
        ensures
            final(self)@ == after_remove(old(self)@, id@, now_ms as int),
            final(self).ttl() == old(self).ttl(),
            match find_outcome(old(self)@, id@, now_ms as int) {
                Some(d) => r matches Some(x) && x@ == d,
                None => r is None,
            },
    {
        self.prune_expired(now_ms);
        let ghost before = self@;
        match self.last_position_of(id) {
            Some(i) => {
                let e = self.entries.remove(i);
                assert(self@ =~= before.remove(i as int));
                Some(e.deleted)
            },
            None => None,
        }
    }

    /// The number of live entries (expired entries are dropped first).
    pub fn len(&mut self, now_ms: u64) -> (r: usize)
        ensures
            final(self)@ == live_entries(old(self)@, now_ms as int),
            final(self).ttl() == old(self).ttl(),
            r == final(self)@.len(),
    {
        self.prune_expired(now_ms);
        self.entries.len()
    }

    /// Position of the latest entry of note `id`.
    fn last_position_of(&self, id: &NoteId) -> (r: Option<usize>)
        ensures
            match r {
                Some(i) => i == last_index_of_id(self@, id@) && i < self@.len(),
                None => last_index_of_id(self@, id@) == -1,
            },
    {
        let ghost s = self@;
        let mut j = self.entries.len();
        assert(s.subrange(0, j as int) =~= s);
        while j > 0
            invariant
                j <= self.entries.len(),
                s == self@,
                last_index_of_id(s, id@) == last_index_of_id(s.subrange(0, j as int), id@),
            decreases j,
        {
            let ghost sub = s.subrange(0, j as int);
            assert(sub.drop_last() =~= s.subrange(0, j - 1));
            assert(sub.last() == self.entries@[j - 1]@);
            if self.entries[j - 1].deleted.id().same_as(id) {
                return Some(j - 1);
            }
            j = j - 1;
        }
        assert(s.subrange(0, 0) =~= Seq::<EntryView>::empty());
        None
    }
}

} // verus!
