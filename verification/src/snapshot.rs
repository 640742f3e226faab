use vstd::prelude::*;

use vstd::hash_map::StringHashMap;

use crate::classify::ClassifiedValue;

verus! {

/// The session's queryable live state: a table from topic to the most
/// recent classified value seen on that topic. Keys are unique, the last
/// write wins, and no history is kept. The ingestion loop is the sole
/// writer; each `set` replaces the whole value, so a reader never sees a
/// partially updated entry. When the surrounding runtime lets another
/// execution context read concurrently, it guards the access itself; the
/// contracts here describe the values.
pub struct SnapshotStore {
    table: StringHashMap<ClassifiedValue>,
}

impl View for SnapshotStore {
    type V = Map<Seq<char>, ClassifiedValue>;

    closed spec fn view(&self) -> Map<Seq<char>, ClassifiedValue> {
        self.table@
    }
}

impl SnapshotStore {
    /// A fresh store holds nothing.
    pub fn new() -> (r: Self)
        ensures
            r@ == Map::<Seq<char>, ClassifiedValue>::empty(),
    {
        SnapshotStore { table: StringHashMap::new() }
    }

    /// Record the most recent value for `topic`, replacing any earlier one
    /// whole. Every other topic's entry is untouched.
    pub fn set(&mut self, topic: String, value: ClassifiedValue)
        ensures
            final(self)@ == old(self)@.insert(topic@, value),
    {
        self.table.insert(topic, value);
    }

    /// Look up the most recent value for `topic`, if any was ever set.
    pub fn get<'a>(&'a self, topic: &str) -> (r: Option<&'a ClassifiedValue>)
        ensures
            match r {
                Some(v) => self@.contains_key(topic@) && *v == self@[topic@],
                None => !self@.contains_key(topic@),
            },
    {
        self.table.get(topic)
    }
}

/// After `set(t, v)` a `get(t)` yields exactly `v`; a later `set(t, v2)`
/// overwrites it whole, never merging, and entries under other topics are
/// untouched by either write.
pub proof fn lemma_set_then_get(
    m: Map<Seq<char>, ClassifiedValue>,
    t: Seq<char>,
    v: ClassifiedValue,
    v2: ClassifiedValue,
)
    ensures
        m.insert(t, v).contains_key(t),
        m.insert(t, v)[t] == v,
        m.insert(t, v).insert(t, v2)[t] == v2,
        forall|u: Seq<char>|
            u != t && m.contains_key(u) ==> m.insert(t, v).contains_key(u) && m.insert(t, v)[u]
                == m[u],
{
}

} // verus!
