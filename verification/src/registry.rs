//! The handle-keyed state registry: a mapping from an opaque Vulkan object
//! handle to its per-object state. A handle is present exactly between the
//! successful completion of its create call and the completion of its
//! destroy call.

use vstd::prelude::*;
use vstd::hash_map::HashMapWithView;
use vstd::std_specs::hash::obeys_key_model;

verus! {

/// A registry of per-object state keyed by raw object handles.
#[verifier::reject_recursive_types(T)]
pub struct HandleRegistry<T> {
    map: HashMapWithView<u64, T>,
}

impl<T> View for HandleRegistry<T> {
    type V = Map<u64, T>;

    closed spec fn view(&self) -> Map<u64, T> {
        self.map@
    }
}

impl<T> HandleRegistry<T> {
    /// An empty registry.
    pub fn new() -> (r: Self)
        ensures
            r@ == Map::<u64, T>::empty(),
    {
        proof {
            broadcast use vstd::std_specs::hash::group_hash_axioms;

            assert(obeys_key_model::<u64>());
        }
        HandleRegistry { map: HashMapWithView::new() }
    }

    /// Record the state for a handle, replacing any state already recorded
    /// for it.
    pub fn insert(&mut self, handle: u64, state: T)
        ensures
            final(self)@ == old(self)@.insert(handle, state),
    {
        self.map.insert(handle, state);
    }

    /// Whether a handle is currently live, that is, recorded in the registry.
    pub fn contains(&self, handle: u64) -> (r: bool)
        ensures
            r == self@.contains_key(handle),
    {
        self.map.contains_key(&handle)
    }

    /// The state recorded for a handle, or `None` for a handle that is not
    /// live.
    pub fn get(&self, handle: u64) -> (r: Option<&T>)
        ensures
            match r {
                Some(state) => self@.contains_key(handle) && *state == self@[handle],
                None => !self@.contains_key(handle),
            },
    {
        self.map.get(&handle)
    }

    /// Remove a handle's state. Removing a handle that is not live leaves the
    /// registry exactly as it was: every other entry is untouched either way.
    pub fn remove(&mut self, handle: u64) -> (was_live: bool)
        ensures
            final(self)@ == old(self)@.remove(handle),
            was_live == old(self)@.contains_key(handle),
            !was_live ==> final(self)@ == old(self)@,
    {
        let r = self.map.remove(&handle);
        proof {
            if !old(self)@.contains_key(handle) {
                assert(final(self)@ =~= old(self)@);
            }
        }
        r.is_some()
    }

    /// How many handles are live.
    pub fn len(&self) -> (r: usize)
        ensures
            r == self@.len(),
    {
        self.map.len()
    }
}

} // verus!
