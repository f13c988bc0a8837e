//! Trusted declaration around the CPU-affinity collaborator, which
//! enumerates the core identifiers that workers can be bound to.

use vstd::prelude::*;

verus! {

/// Relies on core_affinity::get_core_ids: returns the identifiers of the
/// cores the current thread may run on, in their enumerated order, or
/// nothing when the enumeration is unavailable. The list depends on the
/// machine, so nothing is promised of it.
#[verifier::external_body]
pub(crate) fn available_core_ids() -> Option<Vec<usize>> {
    match core_affinity::get_core_ids() {
        Some(ids) => Some(ids.iter().map(|core| core.id).collect()),
        None => None,
    }
}

} // verus!
