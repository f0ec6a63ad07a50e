//! Library-level error type.

use vstd::prelude::*;

verus! {

/// Errors surfaced to callers of the equipment lookups.
#[derive(Debug)]
pub enum Error {
    /// No equipment record exists for the given id.
    EquipNotFound(i64),
}

} // verus!
