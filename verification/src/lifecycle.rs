//! Lifecycle interception: the registry bookkeeping around instance and
//! device creation and destruction, and the decision part of the present
//! interceptor.
//!
//! The onward calls themselves (into the next layer or the driver) happen
//! outside this crate; these functions take the onward result as an argument
//! and decide what the layer records and what it answers.

use vstd::prelude::*;
use crate::registry::HandleRegistry;
use crate::{LayerState, VK_SUCCESS};

verus! {

/// The per-instance dispatch record: the next link's instance-level
/// proc-address query, captured when the instance was created. An address of
/// 0 stands for a null ProcAddress.
#[derive(Clone, Copy, PartialEq, Eq, Structural, Debug)]
pub struct InstanceDispatch {
    pub next_get_instance_proc_addr: usize,
}

/// The per-device dispatch record: the next link's device-level proc-address
/// query and its present function, captured when the device was created.
#[derive(Clone, Copy, PartialEq, Eq, Structural, Debug)]
pub struct DeviceDispatch {
    pub next_get_device_proc_addr: usize,
    pub next_queue_present: usize,
}

/// Everything the registry holds for a live instance.
#[derive(Clone, Copy, PartialEq, Eq, Structural, Debug)]
pub struct InstanceEntry {
    pub dispatch: InstanceDispatch,
    pub state: LayerState,
}

/// Everything the registry holds for a live device, including which instance
/// owns it.
#[derive(Clone, Copy, PartialEq, Eq, Structural, Debug)]
pub struct DeviceEntry {
    pub dispatch: DeviceDispatch,
    pub owner_instance: u64,
}

/// The layer's one piece of shared mutable state: per-instance and per-device
/// registries. The surrounding ABI code serializes access to it with a lock
/// scoped around the registry access only, never held across an onward call.
pub struct LayerRegistry {
    pub instances: HandleRegistry<InstanceEntry>,
    pub devices: HandleRegistry<DeviceEntry>,
}

impl LayerRegistry {
    /// A registry with no live instances and no live devices.
    pub fn new() -> (r: Self)
        ensures
            r.instances@ == Map::<u64, InstanceEntry>::empty(),
            r.devices@ == Map::<u64, DeviceEntry>::empty(),
    {
        LayerRegistry { instances: HandleRegistry::new(), devices: HandleRegistry::new() }
    }

    /// Finish an intercepted instance creation, given the result of the
    /// onward create call. On success the returned handle becomes live, keyed
    /// to a fresh enabled state with no frames observed and to the next
    /// link's proc-address query; on failure nothing is recorded and the
    /// failure is propagated verbatim.
    pub fn complete_create_instance(
        &mut self,
        onward_result: i32,
        instance: u64,
        next_get_instance_proc_addr: usize,
    ) -> (r: i32)
        ensures
            r == onward_result,
            onward_result == VK_SUCCESS ==> final(self).instances@ == old(self).instances@.insert(
                instance,
                InstanceEntry {
                    dispatch: InstanceDispatch { next_get_instance_proc_addr },
                    state: LayerState { enabled: true, frame_count: 0 },
                },
            ),
            onward_result != VK_SUCCESS ==> final(self).instances@ == old(self).instances@,
            final(self).devices@ == old(self).devices@,
    {
        if onward_result == VK_SUCCESS {
            let entry = InstanceEntry {
                dispatch: InstanceDispatch { next_get_instance_proc_addr },
                state: LayerState::default(),
            };
            self.instances.insert(instance, entry);
        }
        onward_result
    }

    /// Finish an intercepted instance destruction, after the onward destroy
    /// call has run (chain order: this layer cleans up around the next
    /// layer's cleanup, not instead of it). The handle ceases to be live;
    /// destroying a handle that was never live leaves every entry untouched
    /// and reports `false`, so the caller can log the contract violation.
    pub fn complete_destroy_instance(&mut self, instance: u64) -> (was_live: bool)
        ensures
            final(self).instances@ == old(self).instances@.remove(instance),
            was_live == old(self).instances@.contains_key(instance),
            !was_live ==> final(self).instances@ == old(self).instances@,
            final(self).devices@ == old(self).devices@,
    {
        self.instances.remove(instance)
    }

    /// Finish an intercepted device creation, given the result of the onward
    /// create call: the device-level counterpart of
    /// `complete_create_instance`, additionally capturing the next link's
    /// present function for the present interceptor.
    pub fn complete_create_device(
        &mut self,
        onward_result: i32,
        device: u64,
        owner_instance: u64,
        next_get_device_proc_addr: usize,
        next_queue_present: usize,
    ) -> (r: i32)
        ensures
            r == onward_result,
            onward_result == VK_SUCCESS ==> final(self).devices@ == old(self).devices@.insert(
                device,
                DeviceEntry {
                    dispatch: DeviceDispatch { next_get_device_proc_addr, next_queue_present },
                    owner_instance,
                },
            ),
            onward_result != VK_SUCCESS ==> final(self).devices@ == old(self).devices@,
            final(self).instances@ == old(self).instances@,
    {
        if onward_result == VK_SUCCESS {
            let entry = DeviceEntry {
                dispatch: DeviceDispatch { next_get_device_proc_addr, next_queue_present },
                owner_instance,
            };
            self.devices.insert(device, entry);
        }
        onward_result
    }

    /// Finish an intercepted device destruction, after the onward destroy
    /// call has run; mirrors `complete_destroy_instance`.
    pub fn complete_destroy_device(&mut self, device: u64) -> (was_live: bool)
        ensures
            final(self).devices@ == old(self).devices@.remove(device),
            was_live == old(self).devices@.contains_key(device),
            !was_live ==> final(self).devices@ == old(self).devices@,
            final(self).instances@ == old(self).instances@,
    {
        self.devices.remove(device)
    }

    /// The next link's instance-level proc-address query for a handle, used
    /// when a queried name is not intercepted. An unknown handle — as during
    /// the very first instance-level query, before any instance exists —
    /// falls back to the "no layer installed" terminal, which answers null.
    pub fn next_instance_proc_addr(&self, instance: u64) -> (r: usize)
        ensures
            r == if self.instances@.contains_key(instance) {
                self.instances@[instance].dispatch.next_get_instance_proc_addr
            } else {
                0usize
            },
    {
        match self.instances.get(instance) {
            Some(entry) => entry.dispatch.next_get_instance_proc_addr,
            None => 0,
        }
    }

    /// The device-level counterpart of `next_instance_proc_addr`.
    pub fn next_device_proc_addr(&self, device: u64) -> (r: usize)
        ensures
            r == if self.devices@.contains_key(device) {
                self.devices@[device].dispatch.next_get_device_proc_addr
            } else {
                0usize
            },
    {
        match self.devices.get(device) {
            Some(entry) => entry.dispatch.next_get_device_proc_addr,
            None => 0,
        }
    }

    /// The entry recorded for a live instance, or `None` for a handle that
    /// is not live.
    pub fn lookup_instance(&self, instance: u64) -> (r: Option<&InstanceEntry>)
        ensures
            match r {
                Some(entry) => self.instances@.contains_key(instance) && *entry
                    == self.instances@[instance],
                None => !self.instances@.contains_key(instance),
            },
    {
        self.instances.get(instance)
    }

    /// The entry recorded for a live device, or `None` for a handle that is
    /// not live.
    pub fn lookup_device(&self, device: u64) -> (r: Option<&DeviceEntry>)
        ensures
            match r {
                Some(entry) => self.devices@.contains_key(device) && *entry
                    == self.devices@[device],
                None => !self.devices@.contains_key(device),
            },
    {
        self.devices.get(device)
    }

    /// Switch the overlay hook of a live instance on or off; its frame count
    /// and dispatch record are kept, and no other entry changes. For a
    /// handle that is not live nothing changes.
    pub fn set_instance_enabled(&mut self, instance: u64, enabled: bool) -> (was_live: bool)
        ensures
            was_live == old(self).instances@.contains_key(instance),
            was_live ==> final(self).instances@ == old(self).instances@.insert(
                instance,
                InstanceEntry {
                    dispatch: old(self).instances@[instance].dispatch,
                    state: LayerState {
                        enabled,
                        frame_count: old(self).instances@[instance].state.frame_count,
                    },
                },
            ),
            !was_live ==> final(self).instances@ == old(self).instances@,
            final(self).devices@ == old(self).devices@,
    {
        match self.instances.get(instance) {
            Some(entry) => {
                let updated = InstanceEntry {
                    dispatch: entry.dispatch,
                    state: LayerState { enabled, frame_count: entry.state.frame_count },
                };
                self.instances.insert(instance, updated);
                true
            },
            None => false,
        }
    }
}

/// Law: after an instance creation succeeds, the registry holds exactly one
/// entry for the returned handle — enabled, with a frame count of zero — and
/// after that handle is destroyed it holds none for it; every other live
/// instance's entry is untouched by both steps.
pub proof fn lemma_instance_lifecycle(
    instances: Map<u64, InstanceEntry>,
    instance: u64,
    next_get_instance_proc_addr: usize,
)
    ensures
        ({
            let created = instances.insert(
                instance,
                InstanceEntry {
                    dispatch: InstanceDispatch { next_get_instance_proc_addr },
                    state: LayerState { enabled: true, frame_count: 0 },
                },
            );
            let destroyed = created.remove(instance);
            &&& created.contains_key(instance)
            &&& created[instance].state.enabled
            &&& created[instance].state.frame_count == 0
            &&& !destroyed.contains_key(instance)
            &&& forall|h: u64|
                h != instance ==> #[trigger] created.contains_key(h) == instances.contains_key(h)
                    && destroyed.contains_key(h) == instances.contains_key(h)
            &&& forall|h: u64|
                h != instance && instances.contains_key(h) ==> #[trigger] created[h]
                    == instances[h] && destroyed[h] == instances[h]
        }),
{
}

/// Law: two instance creations that return distinct handles leave both
/// handles live, each keyed to its own state; the registry never conflates
/// them, whichever order the two insertions were serialized in.
pub proof fn lemma_distinct_creates_are_independent(
    instances: Map<u64, InstanceEntry>,
    first: u64,
    first_entry: InstanceEntry,
    second: u64,
    second_entry: InstanceEntry,
)
    requires
        first != second,
    ensures
        instances.insert(first, first_entry).insert(second, second_entry)[first] == first_entry,
        instances.insert(first, first_entry).insert(second, second_entry)[second] == second_entry,
        instances.insert(first, first_entry).insert(second, second_entry).contains_key(first),
        instances.insert(first, first_entry).insert(second, second_entry).contains_key(second),
{
}

/// Law: destroying a handle that is not live leaves the registry exactly as
/// it was, and destroying any handle never mutates another handle's entry.
pub proof fn lemma_destroy_unknown_harmless(instances: Map<u64, InstanceEntry>, instance: u64)
    ensures
        !instances.contains_key(instance) ==> instances.remove(instance) == instances,
        forall|h: u64|
            h != instance ==> #[trigger] instances.remove(instance).contains_key(h)
                == instances.contains_key(h),
        forall|h: u64|
            h != instance && instances.contains_key(h) ==> #[trigger] instances.remove(instance)[h]
                == instances[h],
{
    if !instances.contains_key(instance) {
        assert(instances.remove(instance) =~= instances);
    }
}

} // verus!
