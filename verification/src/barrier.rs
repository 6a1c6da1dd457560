//! The memory barrier that separates software's accesses to a buffer from
//! the engine's.

use vstd::prelude::*;

verus! {

/// Calls `core::sync::atomic::compiler_fence` with sequentially consistent
/// ordering. The call returns nothing and changes no value that the driver
/// holds, so the contract claims nothing; what it does to the order of
/// memory accesses around it is not proved here.
#[verifier::external_body]
pub(crate) fn full_fence() {
    core::sync::atomic::compiler_fence(core::sync::atomic::Ordering::SeqCst);
}

} // verus!
