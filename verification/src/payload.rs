//! The generic key-value payload carried inside every envelope.
use vstd::prelude::*;

verus! {

/// The mathematical value of one payload entry.
pub enum ValueModel {
    Text(Seq<char>),
    Number(u64),
}

/// A payload value: either a text field or a numeric field.
#[derive(Clone, Debug, PartialEq, Eq)]
pub enum PayloadValue {
    Text(String),
    Number(u64),
}

impl PayloadValue {
    /// The abstract value of this payload entry.
    pub open spec fn model(&self) -> ValueModel {
        match self {
            PayloadValue::Text(s) => ValueModel::Text(s@),
            PayloadValue::Number(n) => ValueModel::Number(*n),
        }
    }
}

/// A key-value container with distinct keys, kept in insertion order.
///
/// Inserting an existing key replaces its value in place, so a given key is
/// never stored twice.
#[derive(Clone, Debug, PartialEq, Eq)]
pub struct Payload {
    entries: Vec<(String, PayloadValue)>,
}

impl Payload {
    /// The entries of this payload, as (key, value) pairs in storage order.
    pub closed spec fn model(&self) -> Seq<(Seq<char>, ValueModel)> {
        self.entries@.map_values(|p: (String, PayloadValue)| (p.0@, p.1.model()))
    }

    /// Whether some entry carries the key `k`.
    pub open spec fn has_key(&self, k: Seq<char>) -> bool {
        exists|i: int| 0 <= i < self.model().len() && self.model()[i].0 == k
    }

    /// The index of the entry carrying the key `k`.
    pub open spec fn key_index(&self, k: Seq<char>) -> int {
        choose|i: int| 0 <= i < self.model().len() && self.model()[i].0 == k
    }

    /// All keys are distinct.
    pub open spec fn wf(&self) -> bool {
        forall|i: int, j: int|
            0 <= i < j < self.model().len() ==> self.model()[i].0 != self.model()[j].0
    }

    /// Create an empty payload.
    pub fn new() -> (r: Payload)
        ensures
            r.model() == Seq::<(Seq<char>, ValueModel)>::empty(),
            r.wf(),
    {
        let r = Payload { entries: Vec::new() };
        proof {
            assert(r.model() =~= Seq::<(Seq<char>, ValueModel)>::empty());
        }
        r
    }

    /// Create a payload holding the single entry `(k, v)`.
    pub fn from_kv(k: String, v: PayloadValue) -> (r: Payload)
        ensures
            r.model() == seq![(k@, v.model())],
            r.wf(),
    {
        let ghost key_view = k@;
        let ghost value_model = v.model();
        let mut entries: Vec<(String, PayloadValue)> = Vec::new();
        entries.push((k, v));
        let r = Payload { entries };
        proof {
            assert(r.model() =~= seq![(key_view, value_model)]);
        }
        r
    }

    /// The entries of this payload, in storage order.
    pub fn entries(&self) -> (r: &Vec<(String, PayloadValue)>)
        ensures
            r@.map_values(|p: (String, PayloadValue)| (p.0@, p.1.model())) == self.model(),
    {
        &self.entries
    }

    /// Add the entry `(k, v)`: appended if the key is new, replacing the old
    /// value in place if the key is already present.
    pub fn insert(&mut self, k: String, v: PayloadValue)
        requires
            old(self).wf(),
        ensures
            final(self).wf(),
            old(self).has_key(k@) ==> final(self).model() == old(self).model().update(
                old(self).key_index(k@),
                (k@, v.model()),
            ),
            !old(self).has_key(k@) ==> final(self).model() == old(self).model().push(
                (k@, v.model()),
            ),
    {
        let ghost key_view = k@;
        let ghost value_model = v.model();
        let ghost pre = self.model();
        let n = self.entries.len();
        let mut i: usize = 0;
        while i < n
            invariant
                n == self.entries.len(),
                0 <= i <= n,
                key_view == k@,
                value_model == v.model(),
                pre == old(self).model(),
                old(self).wf(),
                self.model() == pre,
                *self == *old(self),
                forall|j: int| 0 <= j < i ==> pre[j].0 != key_view,
            decreases n - i,
        {
            proof {
                assert(pre[i as int] == (self.entries@[i as int].0@, self.entries@[i as int].1.model()));
            }
            if self.entries[i].0 == k {
                assert(pre[i as int].0 == key_view);
                self.entries[i] = (k, v);
                proof {
                    assert(self.model() =~= pre.update(i as int, (key_view, value_model)));
                    assert(old(self).has_key(key_view));
                    let w = old(self).key_index(key_view);
                    assert(0 <= w < pre.len() && pre[w].0 == key_view);
                    assert(w == i as int);
                }
                return;
            }
            i = i + 1;
        }
        proof {
            assert(forall|j: int| 0 <= j < pre.len() ==> pre[j].0 != key_view);
            assert(!old(self).has_key(key_view));
        }
        self.entries.push((k, v));
        proof {
            assert(self.model() =~= pre.push((key_view, value_model)));
        }
    }
}

impl Default for Payload {
    /// An empty payload.
    fn default() -> (r: Payload)
        ensures
            r.model() == Seq::<(Seq<char>, ValueModel)>::empty(),
            r.wf(),
    {
        Payload::new()
    }
}

} // verus!
