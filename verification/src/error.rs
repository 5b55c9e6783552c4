//! The failures an operation can report.

use vstd::prelude::*;

verus! {

/// Why an operation was rejected. Every rejection leaves the store as it was.
#[derive(Clone, Copy, Debug, PartialEq, Eq, Hash, Structural)]
pub enum ErrorCode {
    /// A contact or group name is longer than 100 bytes.
    NameTooLong,
    /// A message is longer than 1024 bytes.
    MessageTooLong,
    /// The acting party lacks the relation that the operation asks for.
    NotAuthorized,
    /// A record already occupies the address.
    AddressInUse,
    /// No disambiguator in the search range yields a usable address.
    AddressSpaceExhausted,
    /// No record (of the kind asked for) occupies the address.
    NotFound,
    /// The payer cannot fund the requested storage.
    InsufficientFunds,
    /// The requested size is below what the record already holds.
    ShrinkRejected,
    /// The storage allocator could not provide the requested storage.
    AllocationFailed,
}

/// The four families of [`ErrorCode`].
#[derive(Clone, Copy, Debug, PartialEq, Eq, Hash, Structural)]
pub enum ErrorCategory {
    Validation,
    Authorization,
    Address,
    Resource,
}

impl ErrorCode {
    /// The family a code belongs to.
    pub open spec fn category_spec(self) -> ErrorCategory {
        match self {
            ErrorCode::NameTooLong => ErrorCategory::Validation,
            ErrorCode::MessageTooLong => ErrorCategory::Validation,
            ErrorCode::NotAuthorized => ErrorCategory::Authorization,
            ErrorCode::AddressInUse => ErrorCategory::Address,
            ErrorCode::AddressSpaceExhausted => ErrorCategory::Address,
            ErrorCode::NotFound => ErrorCategory::Address,
            ErrorCode::InsufficientFunds => ErrorCategory::Resource,
            ErrorCode::ShrinkRejected => ErrorCategory::Resource,
            ErrorCode::AllocationFailed => ErrorCategory::Resource,
        }
    }

    /// The family a code belongs to.
    pub fn category(&self) -> (c: ErrorCategory)
        ensures
            c == self.category_spec(),
    {
        match self {
            ErrorCode::NameTooLong => ErrorCategory::Validation,
            ErrorCode::MessageTooLong => ErrorCategory::Validation,
            ErrorCode::NotAuthorized => ErrorCategory::Authorization,
            ErrorCode::AddressInUse => ErrorCategory::Address,
            ErrorCode::AddressSpaceExhausted => ErrorCategory::Address,
            ErrorCode::NotFound => ErrorCategory::Address,
            ErrorCode::InsufficientFunds => ErrorCategory::Resource,
            ErrorCode::ShrinkRejected => ErrorCategory::Resource,
            ErrorCode::AllocationFailed => ErrorCategory::Resource,
        }
    }

    /// The text shown to a caller for each code.
    pub open spec fn message_spec(self) -> Seq<char> {
        match self {
            ErrorCode::NameTooLong => "name is more than 100 characters"@,
            ErrorCode::MessageTooLong => "message is more than 1024 characters"@,
            ErrorCode::NotAuthorized => "Not Authorized"@,
            ErrorCode::AddressInUse => "address is already in use"@,
            ErrorCode::AddressSpaceExhausted => "no usable address could be derived"@,
            ErrorCode::NotFound => "record not found"@,
            ErrorCode::InsufficientFunds => "payer cannot fund the storage"@,
            ErrorCode::ShrinkRejected => "records only grow"@,
            ErrorCode::AllocationFailed => "storage allocation failed"@,
        }
    }

    /// The text shown to a caller for each code.
    pub fn message(&self) -> (text: String)
        ensures
            text@ == self.message_spec(),
    {
        match self {
            ErrorCode::NameTooLong => "name is more than 100 characters".to_string(),
            ErrorCode::MessageTooLong => "message is more than 1024 characters".to_string(),
            ErrorCode::NotAuthorized => "Not Authorized".to_string(),
            ErrorCode::AddressInUse => "address is already in use".to_string(),
            ErrorCode::AddressSpaceExhausted => "no usable address could be derived".to_string(),
            ErrorCode::NotFound => "record not found".to_string(),
            ErrorCode::InsufficientFunds => "payer cannot fund the storage".to_string(),
            ErrorCode::ShrinkRejected => "records only grow".to_string(),
            ErrorCode::AllocationFailed => "storage allocation failed".to_string(),
        }
    }
}

} // verus!
