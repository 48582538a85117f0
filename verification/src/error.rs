use vstd::prelude::*;

verus! {

/// Why an operation on the counter record was rejected.
#[derive(Clone, Copy, Debug, PartialEq, Eq, Structural)]
pub enum CounterError {
    /// The slot is already in use, or the requesting party cannot authorize or
    /// fund the allocation.
    AllocationError,
    /// The count would rise above 255.
    ArithmeticOverflow,
    /// The count would fall below 0.
    ArithmeticUnderflow,
    /// The caller is not the party that the record recognizes.
    AuthorizationError,
}

/// What validating a set of accounts finds, before any operation runs.
#[derive(Clone, Copy, Debug, PartialEq, Eq, Structural)]
pub enum Validation {
    /// The accounts have the shape and carry the authorization that the
    /// operation expects.
    Valid,
    /// The storage slot is not in the state that the operation expects.
    ShapeMismatch,
    /// The requesting party did not authorize the operation, or is not the
    /// party that the record recognizes.
    Unauthorized,
}

} // verus!
