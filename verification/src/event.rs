//! What an operation on content hands back: the event that records it, or
//! the reason why it was refused.

use crate::id::AccountId;
use crate::id::ContentHash;
use vstd::prelude::*;

verus! {

/// Why an operation was refused.
#[derive(Clone, Copy, Debug, PartialEq, Eq, Structural)]
pub enum OpError {
    /// The content hash has a record already.
    AlreadyExists,
    /// The caller is not registered, or the content hash has no record.
    NotFound,
    /// The caller's balance is below the price of the operation.
    InsufficientFunds,
    /// The caller is not the owner of the record and lacks the permission.
    PermissionDenied,
}

/// The event that records one successful operation on content.
#[derive(Clone, Copy, Debug, PartialEq, Eq)]
pub enum FileEvent {
    FileCreated { owner: AccountId, hash: ContentHash, ts: u64 },
    FileRemoved { hash: ContentHash, ts: u64 },
    FileModified { hash: ContentHash, ts: u64 },
    FileRead { hash: ContentHash, ts: u64 },
}

/// What an operation hands back: the reason, where it is refused, and else
/// the event.
pub open spec fn outcome_of(refusal: Option<OpError>, event: FileEvent) -> Result<FileEvent, OpError> {
    match refusal {
        Some(reason) => Err(reason),
        None => Ok(event),
    }
}

} // verus!
