//! What a caller hands to every operation: who acts, and whether the storage
//! allocator will charge them for what the operation needs.

use crate::address::Address;
use crate::error::ErrorCode;
use vstd::prelude::*;

verus! {

/// The storage allocator's answer to a request for capacity.
#[derive(Clone, Copy, Debug, PartialEq, Eq, Hash, Structural)]
pub enum Allocation {
    /// The capacity is provided and the payer is charged.
    Granted,
    /// The payer cannot fund the capacity.
    InsufficientFunds,
    /// The allocator cannot provide the capacity.
    AllocationFailed,
}

impl Allocation {
    /// The error that an answer stands for, if it is a refusal.
    pub open spec fn refusal(self) -> Option<ErrorCode> {
        match self {
            Allocation::Granted => None,
            Allocation::InsufficientFunds => Some(ErrorCode::InsufficientFunds),
            Allocation::AllocationFailed => Some(ErrorCode::AllocationFailed),
        }
    }

    /// Passes a refusal on unchanged.
    pub fn granted(&self) -> (r: Result<(), ErrorCode>)
        ensures
            match r {
                Ok(()) => self.refusal() is None,
                Err(e) => self.refusal() == Some(e),
            },
    {
        match self {
            Allocation::Granted => Ok(()),
            Allocation::InsufficientFunds => Err(ErrorCode::InsufficientFunds),
            Allocation::AllocationFailed => Err(ErrorCode::AllocationFailed),
        }
    }
}

/// The acting party of one operation: an identity whose authorization of the
/// operation has been verified, with the allocator's answer to charging this
/// party for the storage that the operation asks for. Neither is checked
/// here: signatures and funds are the business of whoever makes the value.
/// It is made for one operation and never kept; an operation that creates
/// two records heeds the one answer for both.
#[derive(Clone, Copy, Debug)]
pub struct Signer {
    pub key: Address,
    pub funding: Allocation,
}

impl Signer {
    /// The verified party `key`, for whom the allocator answered `funding`.
    pub fn new(key: Address, funding: Allocation) -> (signer: Signer)
        ensures
            signer.key == key,
            signer.funding == funding,
    {
        Signer { key, funding }
    }
}

} // verus!
