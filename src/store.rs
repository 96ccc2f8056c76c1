//! A session store held in memory: pending registrations keyed by store key,
//! written only where no record stands, and taken at most once.
use vstd::prelude::*;

use crate::model::RegistrationError;
use crate::record::{item_view, session_outcome, AttrView, Attribute};

verus! {

/// What a stored item holds.
pub type ItemView = Seq<(Seq<char>, AttrView)>;

/// What taking `key` from a store that holds `m` hands back.
pub open spec fn taken_from(m: Map<Seq<char>, ItemView>, key: Seq<char>) -> Option<ItemView> {
    if m.contains_key(key) {
        Some(m[key])
    } else {
        None
    }
}

/// What a store that holds `m` holds once `key` is taken.
pub open spec fn after_take(m: Map<Seq<char>, ItemView>, key: Seq<char>) -> Map<Seq<char>, ItemView> {
    m.remove(key)
}

/// A record is taken at most once: after it was taken, taking it again finds
/// nothing, and finishing with what was found is `SessionNotFound`.
pub proof fn lemma_take_once_single_use(m: Map<Seq<char>, ItemView>, key: Seq<char>, now: int)
    requires
        m.contains_key(key),
    ensures
        taken_from(m, key) == Some(m[key]),
        taken_from(after_take(m, key), key) is None,
        session_outcome(taken_from(after_take(m, key), key), now) == Err::<(), _>(
            RegistrationError::SessionNotFound,
        ),
{
}

/// Finishing under a key that was never stored looks exactly like finishing
/// under one that was already consumed.
pub proof fn lemma_unknown_like_consumed(
    unknown: Map<Seq<char>, ItemView>,
    consumed: Map<Seq<char>, ItemView>,
    key: Seq<char>,
    now: int,
)
    requires
        !unknown.contains_key(key),
    ensures
        session_outcome(taken_from(unknown, key), now) == session_outcome(
            taken_from(after_take(consumed, key), key),
            now,
        ),
{
}

/// Pending registrations in memory.
pub struct SessionTable {
    entries: Vec<(String, Vec<Attribute>)>,
    model: Ghost<Map<Seq<char>, ItemView>>,
}

impl View for SessionTable {
    type V = Map<Seq<char>, ItemView>;

    closed spec fn view(&self) -> Map<Seq<char>, ItemView> {
        self.model@
    }
}

impl SessionTable {
    pub closed spec fn wf(&self) -> bool {
        &&& forall|i: int, j: int|
            0 <= i < self.entries.len() && 0 <= j < self.entries.len() && i != j
                ==> #[trigger] self.entries@[i].0@ != #[trigger] self.entries@[j].0@
        &&& forall|i: int|
            0 <= i < self.entries.len() ==> {
                &&& self.model@.contains_key(#[trigger] self.entries@[i].0@)
                &&& self.model@[self.entries@[i].0@] == item_view(self.entries@[i].1@)
            }
        &&& forall|k: Seq<char>|
            #[trigger] self.model@.contains_key(k) ==> exists|i: int|
                0 <= i < self.entries.len() && #[trigger] self.entries@[i].0@ == k
    }

    /// An empty table.
    pub fn new() -> (r: SessionTable)
        ensures
            r.wf(),
            r@ == Map::<Seq<char>, ItemView>::empty(),
    {
        SessionTable { entries: Vec::new(), model: Ghost(Map::empty()) }
    }

    fn position(&self, key: &String) -> (r: Option<usize>)
        requires
            self.wf(),
        ensures
            match r {
                Some(i) => i < self.entries.len() && self.entries@[i as int].0@ == key@,
                None => !self@.contains_key(key@),
            },
    {
        let mut i: usize = 0;
        while i < self.entries.len()
            invariant
                i <= self.entries.len(),
                forall|j: int| 0 <= j < i ==> self.entries@[j].0@ != key@,
            decreases self.entries.len() - i,
        {
            if self.entries[i].0 == *key {
                return Some(i);
            }
            i = i + 1;
        }
        None
    }

    /// Stores `item` under `key`, unless a record already stands there.
    pub fn put(&mut self, key: String, item: Vec<Attribute>) -> (r: Result<(), RegistrationError>)
        requires
            old(self).wf(),
        ensures
            final(self).wf(),
            old(self)@.contains_key(key@) ==> r == Err::<(), _>(RegistrationError::SessionIdCollision)
                && final(self)@ == old(self)@,
            !old(self)@.contains_key(key@) ==> r is Ok && final(self)@ == old(self)@.insert(
                key@,
                item_view(item@),
            ),
    {
        if self.position(&key).is_some() {
            return Err(RegistrationError::SessionIdCollision);
        }
        let ghost k = key@;
        let ghost v = item_view(item@);
        let ghost old_entries = self.entries@;
        self.entries.push((key, item));
        self.model = Ghost(self.model@.insert(k, v));
        assert forall|q: Seq<char>| #[trigger] self.model@.contains_key(q) implies exists|i: int|
            0 <= i < self.entries.len() && #[trigger] self.entries@[i].0@ == q by {
            if q == k {
                assert(self.entries@[old_entries.len() as int].0@ == q);
            } else {
                let i = choose|i: int| 0 <= i < old_entries.len() && #[trigger] old_entries[i].0@ == q;
                assert(self.entries@[i].0@ == q);
            }
        }
        Ok(())
    }

    /// Takes the record under `key` and deletes it, in one step.
    pub fn take_once(&mut self, key: &str) -> (r: Option<Vec<Attribute>>)
        requires
            old(self).wf(),
        ensures
            final(self).wf(),
            match r {
                Some(item) => taken_from(old(self)@, key@) == Some(item_view(item@)),
                None => taken_from(old(self)@, key@) is None,
            },
            final(self)@ == after_take(old(self)@, key@),
    {
        match self.position(&String::from_str(key)) {
            None => {
                assert(self.model@.remove(key@) =~= self.model@);
                None
            },
            Some(i) => {
                let ghost old_entries = self.entries@;
                let ghost old_model = self.model@;
                let (_, item) = self.entries.remove(i);
                self.model = Ghost(self.model@.remove(key@));
                assert forall|a: int| 0 <= a < self.entries.len() implies #[trigger] self.entries@[a]
                    == old_entries[if a < i { a } else { a + 1 }] by {}
                assert forall|a: int| 0 <= a < self.entries.len() implies {
                    &&& self.model@.contains_key(#[trigger] self.entries@[a].0@)
                    &&& self.model@[self.entries@[a].0@] == item_view(self.entries@[a].1@)
                } by {
                    let b = if a < i { a } else { a + 1 };
                    assert(self.entries@[a] == old_entries[b]);
                    assert(old_entries[b].0@ != old_entries[i as int].0@);
                }
                assert forall|q: Seq<char>| #[trigger] self.model@.contains_key(q) implies exists|a: int|
                    0 <= a < self.entries.len() && #[trigger] self.entries@[a].0@ == q by {
                    let b = choose|b: int| 0 <= b < old_entries.len() && #[trigger] old_entries[b].0@ == q;
                    assert(b != i);
                    let a = if b < i { b } else { b - 1 };
                    assert(self.entries@[a] == old_entries[b]);
                }
                assert forall|a: int, c: int|
                    0 <= a < self.entries.len() && 0 <= c < self.entries.len() && a != c
                        implies #[trigger] self.entries@[a].0@ != #[trigger] self.entries@[c].0@ by {
                    let a2 = if a < i { a } else { a + 1 };
                    let c2 = if c < i { c } else { c + 1 };
                    assert(self.entries@[a] == old_entries[a2]);
                    assert(self.entries@[c] == old_entries[c2]);
                }
                Some(item)
            },
        }
    }
}

} // verus!
