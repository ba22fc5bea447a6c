//! Typed outcomes of the services, kept apart from any transport.

use vstd::prelude::*;

verus! {

/// Why a request was turned away. The boundary maps each kind to one transport status;
/// none of them says which comparison failed.
#[derive(Clone, Copy, Debug, PartialEq, Eq, Structural)]
pub enum AccessError {
    /// The resource, or the parent it is reached through, does not exist or was soft-deleted.
    NotFound,
    /// The resource exists but the principal's role and units do not cover it.
    Forbidden,
    /// An organizational id supplied by the caller does not refer to a usable unit or officer.
    BadRequest,
    /// No valid credentials were presented.
    Unauthorized,
    /// A record with the same unique key already exists.
    Conflict,
    /// Storage failed or answered unexpectedly; the request fails closed.
    Internal,
}

/// A failed read or write against the store. It carries nothing, so nothing of the store's
/// internals can reach a caller through it.
#[derive(Clone, Copy, Debug, PartialEq, Eq, Structural)]
pub struct StorageError;

impl AccessError {
    /// The HTTP status that stands for this outcome.
    pub open spec fn spec_status(self) -> u16 {
        match self {
            AccessError::NotFound => 404,
            AccessError::Forbidden => 403,
            AccessError::BadRequest => 400,
            AccessError::Unauthorized => 401,
            AccessError::Conflict => 409,
            AccessError::Internal => 500,
        }
    }

    pub fn status_code(&self) -> (r: u16)
        ensures
            r == self.spec_status(),
    {
        match self {
            AccessError::NotFound => 404,
            AccessError::Forbidden => 403,
            AccessError::BadRequest => 400,
            AccessError::Unauthorized => 401,
            AccessError::Conflict => 409,
            AccessError::Internal => 500,
        }
    }
}

/// The outcome of a write that targets one row by id: no row touched means the row was not
/// there.
pub open spec fn write_outcome(result: Result<u64, StorageError>) -> Result<(), AccessError> {
    match result {
        Err(_) => Err(AccessError::Internal),
        Ok(n) => if n > 0 {
            Ok(())
        } else {
            Err(AccessError::NotFound)
        },
    }
}

/// Judges a write by the number of rows it affected.
pub fn judge_write(result: Result<u64, StorageError>) -> (r: Result<(), AccessError>)
    ensures
        r == write_outcome(result),
{
    match result {
        Err(_) => Err(AccessError::Internal),
        Ok(n) => {
            if n > 0 {
                Ok(())
            } else {
                Err(AccessError::NotFound)
            }
        },
    }
}

} // verus!
