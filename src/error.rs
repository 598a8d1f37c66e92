use vstd::prelude::*;

verus! {

/// The ways an operation of the marketplace can be refused.
#[derive(Debug, Clone, Copy, PartialEq, Eq, Structural)]
pub enum ErrorCode {
    /// The metadata URI is empty or longer than the allowed bound.
    InvalidMetadataUri,
    /// The price is zero.
    InvalidPrice,
    /// A batch holds no item or more items than allowed.
    InvalidBatchSize,
    /// A purchase was attempted on an asset that is not listed.
    NotForSale,
    /// The caller is not the recorded owner.
    OwnershipError,
}

impl ErrorCode {
    /// A human-readable description of the error.
    pub fn message(&self) -> (r: &'static str) {
        match self {
            ErrorCode::InvalidMetadataUri => "The provided metadata URI is invalid.",
            ErrorCode::InvalidPrice => "The provided price is invalid.",
            ErrorCode::InvalidBatchSize => "Batch size must be between 1 and 10.",
            ErrorCode::NotForSale => "This NFT is not for sale.",
            ErrorCode::OwnershipError => "The operation could not be completed due to ownership issues.",
        }
    }
}

} // verus!
