//! Core logic of a Vulkan explicit layer: proc-address resolution for the
//! intercepted entry points, the handle-keyed state registry, per-object
//! dispatch records, the layer-properties enumeration contract, and the
//! decision logic of the lifecycle and present interceptors.
//!
//! The C ABI surface (raw pointers, the exported entry points, the onward
//! calls through loader-supplied function pointers) lives outside this
//! crate; it hands these functions plain values and carries their decisions
//! out.

use vstd::prelude::*;

pub mod lifecycle;
pub mod properties;
pub mod present;
pub mod registry;
pub mod resolver;

verus! {

/// The result code for a call that completed successfully.
pub const VK_SUCCESS: i32 = 0;

/// The result code for an enumeration whose output buffer was too small: a
/// normal control-flow outcome, not an error.
pub const VK_INCOMPLETE: i32 = 5;

/// The generic error code an internal fault is converted to at the ABI
/// boundary. Error codes are negative; callers tell success, incomplete and
/// error apart by sign and exact value.
pub const VK_ERROR_UNKNOWN: i32 = -13;

/// Per-instance layer state: whether the overlay hook is active, and how many
/// present calls have been observed for the instance's devices.
#[derive(Clone, Copy, PartialEq, Eq, Structural, Debug)]
pub struct LayerState {
    pub enabled: bool,
    pub frame_count: u64,
}

impl Default for LayerState {
    /// A freshly created instance starts enabled with no frames observed yet.
    fn default() -> (r: Self)
        ensures
            r.enabled,
            r.frame_count == 0,
    {
        LayerState { enabled: true, frame_count: 0 }
    }
}

} // verus!
