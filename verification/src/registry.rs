//! The native thread's object map.
//!
//! Every native object handed to the host is registered under a fresh
//! numeric id; the host refers to objects only by id, and the map — owned
//! by the single native thread — answers whether an id still names a live
//! object.  Ids are never reused, so a released id can never silently
//! reach another object.

use vstd::prelude::*;
use vstd::std_specs::hash::{builds_valid_hashers, obeys_key_model};

use std::collections::HashMap;

verus! {

broadcast use vstd::std_specs::hash::group_hash_axioms,
    vstd::std_specs::hash::axiom_u64_obeys_hash_table_key_model,
    vstd::std_specs::hash::axiom_random_state_builds_valid_hashers;

/// The object map: live native objects by id, plus the next fresh id.
pub struct ObjectRegistry {
    map: HashMap<u64, usize>,
    next_id: u64,
}

impl ObjectRegistry {
    /// The ids currently naming live objects, and their addresses.
    pub closed spec fn view(&self) -> Map<u64, usize> {
        self.map@
    }

    /// The next id that will be handed out.
    pub closed spec fn spec_next_id(&self) -> u64 {
        self.next_id
    }

    /// Well-formedness: every registered id is below the next fresh id.
    pub closed spec fn wf(&self) -> bool {
        &&& forall|k: u64| #[trigger] self.map@.contains_key(k) ==> k < self.next_id
        &&& obeys_key_model::<u64>()
        &&& builds_valid_hashers::<std::hash::RandomState>()
    }

    /// An empty registry.
    pub fn new() -> (r: ObjectRegistry)
        ensures
            r.wf(),
            r@ == Map::<u64, usize>::empty(),
            r.spec_next_id() == 1,
    {
        ObjectRegistry { map: HashMap::new(), next_id: 1 }
    }

    /// Registers the object at `ptr` under a fresh id, never one handed
    /// out before.
    pub fn register(&mut self, ptr: usize) -> (r: u64)
        requires
            old(self).wf(),
            old(self).spec_next_id() < u64::MAX,
        ensures
            final(self).wf(),
            r == old(self).spec_next_id(),
            !old(self)@.contains_key(r),
            final(self)@ == old(self)@.insert(r, ptr),
            final(self).spec_next_id() == old(self).spec_next_id() + 1,
    {
        let id: u64 = self.next_id;
        self.map.insert(id, ptr);
        self.next_id = id + 1;
        id
    }

    /// The address registered under `id`, while the object is live.
    pub fn get(&self, id: u64) -> (r: Option<usize>)
        requires
            self.wf(),
        ensures
            self@.contains_key(id) ==> r == Some(self@[id]),
            !self@.contains_key(id) ==> r is None,
    {
        match self.map.get(&id) {
            Some(p) => Some(*p),
            None => None,
        }
    }

    /// Releases `id`, returning the address it named; a released id
    /// stays retired for good, since fresh ids never repeat.
    pub fn remove(&mut self, id: u64) -> (r: Option<usize>)
        requires
            old(self).wf(),
        ensures
            final(self).wf(),
            old(self)@.contains_key(id) ==> r == Some(old(self)@[id]),
            !old(self)@.contains_key(id) ==> r is None,
            final(self)@ == old(self)@.remove(id),
            final(self).spec_next_id() == old(self).spec_next_id(),
    {
        self.map.remove(&id)
    }

    /// How many objects are live.
    pub fn len(&self) -> (r: usize)
        requires
            self.wf(),
        ensures
            r == self@.len(),
    {
        self.map.len()
    }
}

} // verus!
