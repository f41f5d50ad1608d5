//! Showcase items of the kind the transformation decorates: functions whose
//! availability depends on a platform or feature predicate, next to one that
//! is always there.  Their directive prefixes are what [`crate::doc_cfg`]
//! rewrites.

use vstd::prelude::*;

verus! {

/// Mark something as only available on fancy platforms!
pub fn cool_nonportable_fn() {
}

/// An item whose displayed condition may differ from the actual build
/// predicate it is gated on.
pub fn feature_gated_fn() {
}

/// A plain old normal function.
pub fn boring_old_fn() {
}

} // verus!
