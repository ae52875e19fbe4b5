//! Present interception: the hook point a future overlay sits on. The layer
//! observes the frame, then the call is always forwarded to the chain's
//! onward present function and its result is returned unmodified.

use vstd::prelude::*;
use crate::lifecycle::{InstanceEntry, LayerRegistry};
use crate::LayerState;

verus! {

/// The frame counter after one more present call: one step up, wrapping at
/// the top of the 64-bit range.
pub open spec fn next_frame(c: u64) -> u64 {
    if c == u64::MAX {
        0
    } else {
        (c + 1) as u64
    }
}

/// What the present interceptor decided, for the ABI code to carry out.
#[derive(Clone, Copy, PartialEq, Eq, Structural, Debug)]
pub struct PresentPlan {
    /// The chain's onward present function to invoke, or `None` when the
    /// device is unknown and no onward pointer exists, in which case the call
    /// is answered as a no-op success only as a last resort.
    pub onward_present: Option<usize>,
    /// Whether the overlay hook point is active for this frame.
    pub overlay_active: bool,
    /// Whether the lookup hit a handle the registry does not know: a
    /// loader-contract violation to be logged, never a crash.
    pub violation: bool,
}

impl LayerRegistry {
    /// Observe a present call on a queue of `device`: look up the device's
    /// entry and, through it, the owning instance's state; when both are
    /// known and the instance is enabled, the overlay hook is active and that
    /// instance's frame counter steps up. No other entry changes, and the
    /// plan always carries the device's onward present function when one is
    /// recorded. An unknown device or owner is a contract violation, noted in
    /// the plan and degraded to a pass-through, never a crash.
    pub fn note_present(&mut self, device: u64) -> (plan: PresentPlan)
        ensures
            final(self).devices@ == old(self).devices@,
            plan.onward_present == if old(self).devices@.contains_key(device) {
                Some(old(self).devices@[device].dispatch.next_queue_present)
            } else {
                None::<usize>
            },
            ({
                let known = old(self).devices@.contains_key(device)
                    && old(self).instances@.contains_key(
                    old(self).devices@[device].owner_instance,
                );
                let owner = old(self).devices@[device].owner_instance;
                &&& plan.violation == !known
                &&& plan.overlay_active == (known && old(self).instances@[owner].state.enabled)
                &&& if known && old(self).instances@[owner].state.enabled {
                    final(self).instances@ == old(self).instances@.insert(
                        owner,
                        InstanceEntry {
                            dispatch: old(self).instances@[owner].dispatch,
                            state: LayerState {
                                enabled: true,
                                frame_count: next_frame(
                                    old(self).instances@[owner].state.frame_count,
                                ),
                            },
                        },
                    )
                } else {
                    final(self).instances@ == old(self).instances@
                }
            }),
    {
        let dev = match self.devices.get(device) {
            Some(d) => *d,
            None => {
                return PresentPlan { onward_present: None, overlay_active: false, violation: true };
            },
        };
        let onward = Some(dev.dispatch.next_queue_present);
        match self.instances.get(dev.owner_instance) {
            Some(entry) => {
                if entry.state.enabled {
                    let fc = entry.state.frame_count;
                    let bumped = InstanceEntry {
                        dispatch: entry.dispatch,
                        state: LayerState {
                            enabled: true,
                            frame_count: if fc == u64::MAX {
                                0
                            } else {
                                fc + 1
                            },
                        },
                    };
                    self.instances.insert(dev.owner_instance, bumped);
                    PresentPlan { onward_present: onward, overlay_active: true, violation: false }
                } else {
                    PresentPlan { onward_present: onward, overlay_active: false, violation: false }
                }
            },
            None => PresentPlan { onward_present: onward, overlay_active: false, violation: true },
        }
    }
}

/// Law: distinct instance handles own independent state. Stepping one
/// instance's entry — as a present call observed for one of its devices does
/// — neither adds, removes nor alters the entry of any other handle.
pub proof fn lemma_frame_step_isolated(
    instances: Map<u64, InstanceEntry>,
    owner: u64,
    updated: InstanceEntry,
    other: u64,
)
    requires
        other != owner,
    ensures
        instances.insert(owner, updated).contains_key(other) == instances.contains_key(other),
        instances.contains_key(other) ==> instances.insert(owner, updated)[other]
            == instances[other],
{
}

/// Law: the result of the onward present call is handed back to the caller
/// unmodified — success, suboptimal-swapchain and error codes alike — since
/// callers depend on exact status propagation; the interceptor never
/// suppresses or rewrites a result code.
pub fn forward_present_result(onward_result: i32) -> (r: i32)
    ensures
        r == onward_result,
{
    onward_result
}

} // verus!
