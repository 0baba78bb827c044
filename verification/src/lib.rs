use vstd::prelude::*;

pub mod classify;
pub mod container;
pub mod decode;
pub mod features;
pub mod report;
pub mod scan;
pub mod walk;

verus! {

/// A CPU feature identifier: an index into the closed feature enumeration.
pub type FeatureId = u16;

/// The number of slots in the feature enumeration.
pub const FEATURE_SLOTS: usize = 256;

} // verus!
