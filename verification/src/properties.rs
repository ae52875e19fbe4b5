//! The layer-properties enumeration contract: the loader's two-call idiom
//! for discovering this layer's name, description and versions, answered
//! bit-exactly with a single property record.

use vstd::prelude::*;
use vstd::string::StringSliceAdditionalSpecFns;
use crate::{VK_INCOMPLETE, VK_SUCCESS};

verus! {

/// The width of the fixed character fields of a property record.
pub const FIELD_WIDTH: usize = 256;

/// The layer's advertised name.
pub open spec fn layer_name_bytes() -> Seq<u8> {
    "VK_LAYER_GOOPINATOR".spec_bytes()
}

/// The layer's advertised description.
pub open spec fn layer_description_bytes() -> Seq<u8> {
    "Goopinator - ARC Raiders Tactical Overlay".spec_bytes()
}

/// The standard 32-bit Vulkan version packing of variant, major, minor and
/// patch.
pub open spec fn api_version_of(variant: u32, major: u32, minor: u32, patch: u32) -> u32 {
    (variant << 29) | (major << 22) | (minor << 12) | patch
}

/// Where a string is cut to fit a fixed field: after its last byte, or after
/// byte 254 if it is longer, so that a terminating 0 always fits.
pub open spec fn field_cut(s: Seq<u8>) -> int {
    if s.len() <= (FIELD_WIDTH - 1) {
        s.len() as int
    } else {
        FIELD_WIDTH - 1
    }
}

/// A fixed-width field: the string's bytes, truncated to leave room for the
/// terminator, then zero up to the full width — so the field is always
/// null-terminated.
pub open spec fn fixed_field_of(s: Seq<u8>) -> Seq<u8> {
    Seq::new(
        FIELD_WIDTH as nat,
        |i: int|
            if i < field_cut(s) {
                s[i]
            } else {
                0
            },
    )
}

/// One property record: two fixed 256-byte character fields and the two
/// 32-bit versions.
#[derive(PartialEq, Eq, Debug)]
pub struct LayerProperties {
    pub layer_name: Vec<u8>,
    pub description: Vec<u8>,
    pub spec_version: u32,
    pub implementation_version: u32,
}

/// The one record this layer advertises: its name and description in fixed
/// null-terminated fields, the Vulkan API version it is built against as the
/// spec version, and implementation version 1.
pub open spec fn is_layer_record(p: LayerProperties) -> bool {
    &&& p.layer_name@ == fixed_field_of(layer_name_bytes())
    &&& p.description@ == fixed_field_of(layer_description_bytes())
    &&& p.spec_version == api_version_of(0, 1, 3, 0)
    &&& p.implementation_version == 1
}

/// Relies on `ash::vk::make_api_version`: it packs the four components as
/// `(variant << 29) | (major << 22) | (minor << 12) | patch`.
#[verifier::external_body]
fn pack_api_version(variant: u32, major: u32, minor: u32, patch: u32) -> (r: u32)
    ensures
        r == api_version_of(variant, major, minor, patch),
{
    ash::vk::make_api_version(variant, major, minor, patch)
}

/// Lay a string out in a fixed-width, null-terminated field, truncating it
/// if it is longer than the field keeps room for.
pub fn fixed_field(s: &[u8]) -> (r: Vec<u8>)
    ensures
        r@ == fixed_field_of(s@),
{
    let n = s.len();
    let cut: usize = if n <= FIELD_WIDTH - 1 {
        n
    } else {
        FIELD_WIDTH - 1
    };
    let mut out: Vec<u8> = Vec::new();
    let mut i: usize = 0;
    while i < cut
        invariant
            i <= cut,
            cut == field_cut(s@),
            cut <= s@.len(),
            out@.len() == i,
            forall|j: int| 0 <= j < i ==> out@[j] == s@[j],
        decreases cut - i,
    {
        out.push(s[i]);
        i += 1;
    }
    while out.len() < FIELD_WIDTH
        invariant
            cut == field_cut(s@),
            cut <= out@.len() <= FIELD_WIDTH,
            forall|j: int| 0 <= j < cut ==> out@[j] == s@[j],
            forall|j: int| cut <= j < out@.len() ==> out@[j] == 0,
        decreases FIELD_WIDTH - out@.len(),
    {
        out.push(0);
    }
    proof {
        assert(out@ =~= fixed_field_of(s@));
    }
    out
}

/// Build the single property record this layer advertises.
pub fn make_layer_record() -> (r: LayerProperties)
    ensures
        is_layer_record(r),
{
    let name = fixed_field("VK_LAYER_GOOPINATOR".as_bytes());
    let description = fixed_field("Goopinator - ARC Raiders Tactical Overlay".as_bytes());
    let spec_version = pack_api_version(0, 1, 3, 0);
    LayerProperties { layer_name: name, description, spec_version, implementation_version: 1 }
}

/// Enumerate this layer's properties, the loader's two-call idiom.
/// `has_buffer` says whether the caller passed an output buffer; `count` is
/// the caller's in/out element count.
///
/// With no buffer, the call is a size query: the count becomes 1 and the
/// call succeeds. With a buffer but a count of zero, the call reports
/// `VK_INCOMPLETE`, and neither the count nor any buffer element is written.
/// Otherwise exactly one record — the layer's — is produced for the caller's
/// buffer, the count becomes 1, and the call succeeds.
pub fn enumerate_layer_properties(count: &mut u32, has_buffer: bool) -> (r: (
    i32,
    Option<LayerProperties>,
))
    ensures
        !has_buffer ==> r.0 == VK_SUCCESS && r.1 is None && *final(count) == 1,
        has_buffer && *old(count) < 1 ==> r.0 == VK_INCOMPLETE && r.1 is None && *final(count)
            == *old(count),
        has_buffer && *old(count) >= 1 ==> r.0 == VK_SUCCESS && *final(count) == 1 && (r.1 matches
            Some(p) && is_layer_record(p)),
{
    if !has_buffer {
        *count = 1;
        return (VK_SUCCESS, None);
    }
    if *count < 1 {
        return (VK_INCOMPLETE, None);
    }
    let record = make_layer_record();
    *count = 1;
    (VK_SUCCESS, Some(record))
}

} // verus!
