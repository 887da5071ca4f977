//! The mailbox: tracks each outstanding request's completion slot under its
//! correlation id, so an inbound response can be handed to exactly the caller
//! that sent the matching request.
use vstd::prelude::*;

use crate::request::RequestID;

verus! {

/// Whether some entry of `s` carries the id `id`.
pub open spec fn seq_contains_id<S>(s: Seq<(RequestID, S)>, id: RequestID) -> bool {
    exists|i: int| 0 <= i < s.len() && s[i].0 == id
}

/// The index of the entry of `s` carrying `id`.
pub open spec fn seq_index_of<S>(s: Seq<(RequestID, S)>, id: RequestID) -> int {
    choose|i: int| 0 <= i < s.len() && s[i].0 == id
}

/// The slot stored under `id` in `s`.
pub open spec fn seq_slot_of<S>(s: Seq<(RequestID, S)>, id: RequestID) -> S {
    s[seq_index_of(s, id)].1
}

/// `s` with the entry carrying `id` removed; `s` itself when no entry does.
pub open spec fn seq_remove_id<S>(s: Seq<(RequestID, S)>, id: RequestID) -> Seq<(RequestID, S)> {
    if seq_contains_id(s, id) {
        s.remove(seq_index_of(s, id))
    } else {
        s
    }
}

/// No two entries of `s` carry the same id.
pub open spec fn ids_distinct<S>(s: Seq<(RequestID, S)>) -> bool {
    forall|i: int, j: int| 0 <= i < j < s.len() ==> s[i].0 != s[j].0
}

/// Removing one id keeps every other id tracked, under the same slot, and
/// keeps the ids distinct: correlation is by identity, not by position.
pub proof fn lemma_remove_preserves_others<S>(s: Seq<(RequestID, S)>, keep: RequestID, gone: RequestID)
    requires
        ids_distinct(s),
        seq_contains_id(s, keep),
        seq_contains_id(s, gone),
        keep != gone,
    ensures
        seq_contains_id(seq_remove_id(s, gone), keep),
        seq_slot_of(seq_remove_id(s, gone), keep) == seq_slot_of(s, keep),
        ids_distinct(seq_remove_id(s, gone)),
{
    let j = seq_index_of(s, gone);
    let k = seq_index_of(s, keep);
    let t = s.remove(j);
    assert(0 <= j < s.len() && s[j].0 == gone);
    assert(0 <= k < s.len() && s[k].0 == keep);
    assert(k != j);
    lemma_remove_keeps_distinct(s, j);
    if k < j {
        assert(t[k] == s[k]);
        assert(seq_contains_id(t, keep));
        let w = seq_index_of(t, keep);
        assert(0 <= w < t.len() && t[w].0 == keep);
        assert(forall|i: int| 0 <= i < t.len() && i != w ==> t[i].0 != t[w].0);
        assert(t[w] == s[k]);
    } else {
        assert(t[k - 1] == s[k]);
        assert(seq_contains_id(t, keep));
        let w = seq_index_of(t, keep);
        assert(0 <= w < t.len() && t[w].0 == keep);
        assert(t[w] == s[k]);
    }
}

/// Removing an entry keeps the remaining ids distinct.
pub proof fn lemma_remove_keeps_distinct<S>(s: Seq<(RequestID, S)>, j: int)
    requires
        ids_distinct(s),
        0 <= j < s.len(),
    ensures
        ids_distinct(s.remove(j)),
        forall|w: int, i: int|
            0 <= w < s.remove(j).len() && 0 <= i < s.remove(j).len() && s.remove(j)[i].0
                == s.remove(j)[w].0 ==> i == w,
{
    let t = s.remove(j);
    assert forall|a: int, b: int| 0 <= a < b < t.len() implies t[a].0 != t[b].0 by {
        let sa: int = if a < j {
            a
        } else {
            a + 1
        };
        let sb: int = if b < j {
            b
        } else {
            b + 1
        };
        assert(t[a] == s[sa]);
        assert(t[b] == s[sb]);
    }
}

/// With distinct ids, any index whose entry carries `id` is the index that
/// `seq_index_of` names.
pub proof fn lemma_index_of_unique<S>(s: Seq<(RequestID, S)>, id: RequestID, i: int)
    requires
        ids_distinct(s),
        0 <= i < s.len(),
        s[i].0 == id,
    ensures
        seq_contains_id(s, id),
        seq_index_of(s, id) == i,
{
    let w = seq_index_of(s, id);
    assert(0 <= w < s.len() && s[w].0 == id);
    if w < i {
        assert(s[w].0 != s[i].0);
    } else if i < w {
        assert(s[i].0 != s[w].0);
    }
}

/// The tracker of outstanding requests. Each correlation id is tracked at
/// most once; its entry holds the completion slot of the awaiting caller.
pub struct MailBox<S> {
    items: Vec<(RequestID, S)>,
}

impl<S> MailBox<S> {
    /// The tracked entries, in tracking order.
    pub closed spec fn entries(&self) -> Seq<(RequestID, S)> {
        self.items@
    }

    /// Whether `id` is tracked.
    pub open spec fn contains_id(&self, id: RequestID) -> bool {
        seq_contains_id(self.entries(), id)
    }

    /// All tracked ids are distinct.
    pub open spec fn wf(&self) -> bool {
        ids_distinct(self.entries())
    }

    /// An empty mailbox.
    pub fn new() -> (r: MailBox<S>)
        ensures
            r.entries() == Seq::<(RequestID, S)>::empty(),
            r.wf(),
    {
        let r = MailBox { items: Vec::new() };
        proof {
            assert(r.entries() =~= Seq::<(RequestID, S)>::empty());
        }
        r
    }

    /// How many requests are outstanding.
    pub fn len(&self) -> (r: usize)
        ensures
            r == self.entries().len(),
    {
        self.items.len()
    }

    /// Whether `id` is tracked.
    pub fn is_tracked(&self, id: RequestID) -> (r: bool)
        ensures
            r == self.contains_id(id),
    {
        let n = self.items.len();
        let mut i: usize = 0;
        while i < n
            invariant
                n == self.entries().len(),
                0 <= i <= n,
                forall|j: int| 0 <= j < i ==> self.entries()[j].0 != id,
            decreases n - i,
        {
            if self.items[i].0 == id {
                return true;
            }
            i = i + 1;
        }
        false
    }

    /// Track `slot` under `id`. A duplicate id is a contract violation, never
    /// a silent overwrite: callers must establish that `id` is untracked.
    pub fn track(&mut self, id: RequestID, slot: S)
        requires
            old(self).wf(),
            !old(self).contains_id(id),
        ensures
            final(self).entries() == old(self).entries().push((id, slot)),
            final(self).wf(),
    {
        self.items.push((id, slot));
    }

    /// Remove and return the slot tracked under `id`, if any; a mailbox that
    /// does not track `id` is left unchanged.
    pub fn take(&mut self, id: RequestID) -> (r: Option<S>)
        requires
            old(self).wf(),
        ensures
            final(self).wf(),
            old(self).contains_id(id) ==> r == Option::Some(
                seq_slot_of(old(self).entries(), id),
            ) && final(self).entries() == seq_remove_id(old(self).entries(), id),
            !old(self).contains_id(id) ==> r == Option::<S>::None && *final(self) == *old(self),
    {
        let n = self.items.len();
        let mut i: usize = 0;
        while i < n
            invariant
                n == self.entries().len(),
                0 <= i <= n,
                *self == *old(self),
                old(self).wf(),
                forall|j: int| 0 <= j < i ==> self.entries()[j].0 != id,
            decreases n - i,
        {
            if self.items[i].0 == id {
                proof {
                    lemma_index_of_unique(self.entries(), id, i as int);
                    lemma_remove_keeps_distinct(self.entries(), i as int);
                }
                let entry = self.items.remove(i);
                return Option::Some(entry.1);
            }
            i = i + 1;
        }
        proof {
            assert(!old(self).contains_id(id));
        }
        Option::None
    }

    /// Give up every tracked slot, in tracking order. Dropping the returned
    /// slots is what signals cancellation to every still-awaiting caller.
    pub fn into_slots(self) -> (r: Vec<S>)
        ensures
            r@ == self.entries().map_values(|e: (RequestID, S)| e.1),
    {
        let ghost all = self.entries();
        let mut items = self.items;
        let mut out: Vec<S> = Vec::new();
        proof {
            assert(out@ =~= all.map_values(|e: (RequestID, S)| e.1).take(0));
        }
        while items.len() > 0
            invariant
                out@.len() + items@.len() == all.len(),
                items@ == all.skip(out@.len() as int),
                out@ == all.map_values(|e: (RequestID, S)| e.1).take(out@.len() as int),
            decreases items@.len(),
        {
            let ghost k = out@.len() as int;
            let entry = items.remove(0);
            proof {
                assert(entry == all[k]);
            }
            out.push(entry.1);
            proof {
                assert(items@ =~= all.skip(k + 1));
                assert(out@ =~= all.map_values(|e: (RequestID, S)| e.1).take(k + 1));
            }
        }
        proof {
            assert(out@ =~= all.map_values(|e: (RequestID, S)| e.1));
        }
        out
    }
}

} // verus!
