//! Resource-identity and synchronization-state layer of a GPU rendering
//! engine.
//!
//! The crate assigns stable identities to GPU resources, groups creation
//! requests into atomically built object sets bound to a synchronization
//! group, and tracks the post-execution state of each resource so that a
//! downstream execution-compilation stage can plan the minimum necessary
//! barriers and ownership transfers.

pub mod descriptors;
pub mod end_state;
pub mod features;
pub mod id;
pub mod object_set;
pub mod refs;
pub mod set_ids;
pub mod sync_group;
