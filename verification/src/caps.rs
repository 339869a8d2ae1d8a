//! Capability data for the device layer.
//!
//! The device layer probes the graphics driver and decides which rendering
//! techniques are usable.  The probing itself is an external collaborator's
//! work; the library holds the plain-valued capability records the
//! decisions read.

use vstd::prelude::*;

verus! {

/// The PCI vendor identifier of NVIDIA adapters, used to select
/// vendor-specific depth-buffer techniques.
pub const D3D_VENDOR_ID_NVIDIA: u32 = 0x10DE;

/// The portion of the device layer's global state that rendering decisions
/// read: which adapter is in use, who made it, and whether the
/// vendor-specific depth-readback path has been initialized.
pub struct DxGlobals {
    /// The index of the adapter the device was created on.
    pub adapter_index: u32,
    /// The PCI vendor identifier of that adapter.
    pub vendor_id: u32,
    /// Whether the NVIDIA depth-readback extension was initialized.
    pub nv_initialized: bool,
}

/// Whether shadow-map rendering should bind the vendor-specific null color
/// render target: exactly when the NVIDIA depth-readback extension is up.
pub fn nv_use_shadow_null_color_render_target(dx: &DxGlobals) -> (r: bool)
    ensures
        r == dx.nv_initialized,
{
    dx.nv_initialized
}

/// How to respond when a capability probe fails its check.
#[derive(Copy, Clone, Debug, Eq, PartialEq)]
pub enum DxCapsResponse {
    /// The capability is required: abort initialization.
    Quit,
    /// Log a warning and continue.
    Warn,
    /// Log a note and continue.
    Info,
    /// Disable the shader-model-3 path and continue.
    ForbidSm3,
}

/// A capability check over a bit field of the driver capability record: the
/// bits that must be set, the bits that must be clear, and what to do when
/// the check fails.
#[derive(Copy, Clone, Debug)]
pub struct DxCapsCheckBits {
    /// Byte offset of the checked field within the capability record.
    pub offset: isize,
    /// Bits that must be set.
    pub set_bits: u32,
    /// Bits that must be clear.
    pub clear_bits: u32,
    /// What to do when the check fails.
    pub response: DxCapsResponse,
    /// The message to report on failure.
    pub message: &'static str,
}

/// A capability check over an integer field of the driver capability
/// record: the inclusive range the value must lie in, and what to do when
/// the check fails.
#[derive(Copy, Clone, Debug)]
pub struct DxCapsCheckInteger {
    /// Byte offset of the checked field within the capability record.
    pub offset: isize,
    /// The least acceptable value.
    pub min: u32,
    /// The greatest acceptable value.
    pub max: u32,
    /// What to do when the check fails.
    pub response: DxCapsResponse,
    /// The message to report on failure.
    pub message: &'static str,
}

/// Which sampler-state variant the shadow-map path uses.
#[derive(Copy, Clone, Debug)]
pub enum ShadowmapSamplerState {
    A,
    B,
}

/// Which technique builds the shadow map: a depth-buffer readback or a
/// color-target encoding.
#[derive(Copy, Clone, Debug)]
pub enum ShadowmapBuildTechType {
    Depth,
    Color,
}

} // verus!
