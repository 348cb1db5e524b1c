//! The flag sets that the GPU backend crate defines and that the requests
//! of this library carry as plain bits.

use vstd::prelude::*;

verus! {

/// The bits of every device feature of the web-compatible profile.
pub const WEBGPU_FEATURES: u64 = 0xFFF;

/// The instance flags of advanced debugging: debug information (1),
/// validation (2) and GPU-based validation (16).
pub const ADVANCED_DEBUGGING: u32 = 19;

/// The write mask that lets all four colour channels through: red (1),
/// green (2), blue (4) and alpha (8).
pub const COLOR_WRITES_ALL: u32 = 15;

/// Calls `wgpu::Features::all_webgpu_mask` and hands out the bits of the
/// set. The crate builds the set from the low twenty bits, truncated to the
/// flags it defines, which are those at bits 0 to 11: the contract claims
/// exactly these twelve bits.
#[verifier::external_body]
pub(crate) fn webgpu_features() -> (bits: u64)
    ensures
        bits == WEBGPU_FEATURES,
{
    wgpu::Features::all_webgpu_mask().bits()
}

/// Calls `wgpu::InstanceFlags::advanced_debugging` and hands out the bits
/// of the set. The crate returns the union of its flags for debug
/// information, validation and GPU-based validation: the contract claims
/// exactly these three bits.
#[verifier::external_body]
pub(crate) fn advanced_debugging_flags() -> (bits: u32)
    ensures
        bits == ADVANCED_DEBUGGING,
{
    wgpu::InstanceFlags::advanced_debugging().bits()
}

/// Calls `Default::default` of `wgpu::ColorWrites` and hands out the bits
/// of the mask. The crate's default is the mask of all four channels: the
/// contract claims exactly these four bits.
#[verifier::external_body]
pub(crate) fn default_color_writes() -> (bits: u32)
    ensures
        bits == COLOR_WRITES_ALL,
{
    wgpu::ColorWrites::default().bits()
}

} // verus!
