//! The two ways in which a pool operation can fail.
use vstd::prelude::*;

verus! {

/// Why a pool operation did not succeed.
#[derive(Debug, Clone, Copy, PartialEq, Eq, Structural)]
pub enum PoolError {
    /// The object could not be put back: no receiving end of the pool is left.
    AttachError,
    /// A non-blocking pull found no object ready.
    NoBuffersAvailable,
}

impl PoolError {
    /// The human-readable description of the error.
    pub fn message(&self) -> (r: &'static str)
        ensures
            *self == PoolError::AttachError ==> r@ == "Failed to attach object to pool"@,
            *self == PoolError::NoBuffersAvailable ==> r@ == "No buffers available in pool"@,
    {
        match self {
            PoolError::AttachError => "Failed to attach object to pool",
            PoolError::NoBuffersAvailable => "No buffers available in pool",
        }
    }
}

} // verus!
