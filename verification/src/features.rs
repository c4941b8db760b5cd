//! Results of feature initialization steps.
//!
//! During instance and device creation, each application feature is probed
//! for support before it is enabled. Only the outcome value lives here; the
//! probing itself belongs to the initialization collaborators.

use vstd::prelude::*;

verus! {

/// Represents the result of an init operation of a feature.
#[derive(Clone, Copy, PartialEq, Eq, Structural, Debug)]
pub enum InitResult {
    /// Indicates that the feature is supported and can be enabled.
    Supported,
    /// Indicates that the feature is not supported and must be disabled.
    Disable,
}

} // verus!
