//! Creation descriptors and allocation records.
//!
//! These are the plain-value records that travel with a creation request: a
//! descriptor saying what to create, an allocation-strategy tag saying where
//! its memory must be visible, and the record of a backing allocation the
//! external allocation service hands back.

use vstd::prelude::*;

verus! {

/// How the memory backing a resource is chosen.
#[derive(Clone, Copy, PartialEq, Eq, Structural, Debug)]
pub enum AllocationStrategy {
    /// Memory only ever accessed by the device.
    AutoGpuOnly,
    /// Memory accessed by both the device and the host.
    AutoGpuCpu,
}

/// Creation descriptor for a buffer.
#[derive(Clone, Copy, PartialEq, Eq, Structural, Debug)]
pub struct BufferCreateDesc {
    pub size: u64,
    pub usage_flags: u32,
}

/// Creation descriptor for a buffer view.
#[derive(Clone, Copy, PartialEq, Eq, Structural, Debug)]
pub struct BufferViewCreateDesc {
    pub format: u32,
    pub offset: u64,
    pub range: u64,
}

/// Creation descriptor for an image.
#[derive(Clone, Copy, PartialEq, Eq, Structural, Debug)]
pub struct ImageCreateDesc {
    pub width: u32,
    pub height: u32,
    pub format: u32,
    pub usage_flags: u32,
}

/// Creation descriptor for an image view.
#[derive(Clone, Copy, PartialEq, Eq, Structural, Debug)]
pub struct ImageViewCreateDesc {
    pub format: u32,
}

/// A backing allocation produced by the external allocation service,
/// recorded so that the batched teardown of a set can free it.
#[derive(Clone, Copy, PartialEq, Eq, Structural, Debug)]
pub struct Allocation {
    pub handle: u64,
}

} // verus!
