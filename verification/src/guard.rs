//! Markers and errors shared by the mapped guards
use vstd::prelude::*;

verus! {

/// Represents an unmapped guard
pub struct Pure;

/// Represents a mapped guard
pub struct Mapped;

/// The error return type of `try_map` and `try_split_map`
///
/// Contains the error and the old guard in that order
pub struct TryMapError<E, G>(pub E, pub G);

} // verus!
