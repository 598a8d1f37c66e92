use vstd::prelude::*;
use crate::error::ErrorCode;
use crate::pubkey::Pubkey;

verus! {

/// Longest metadata URI accepted, in UTF-8 bytes.
pub const MAX_URI_LEN: usize = 200;

/// Whether a URI of this text has an acceptable length: between 1 and 200
/// bytes once encoded as UTF-8.
pub open spec fn valid_uri(uri: Seq<char>) -> bool {
    1 <= vstd::utf8::encode_utf8(uri).len() <= MAX_URI_LEN
}

/// Whether a price may be listed: it is positive.
pub open spec fn valid_price(price: int) -> bool {
    price > 0
}

/// Checks the length of a metadata URI.
pub fn validate_metadata_uri(uri: &str) -> (r: Result<(), ErrorCode>)
    ensures
        r is Ok <==> valid_uri(uri@),
        r is Err ==> r == Err::<(), ErrorCode>(ErrorCode::InvalidMetadataUri),
{
    let n = uri.as_bytes().len();
    if n == 0 || n > MAX_URI_LEN {
        return Err(ErrorCode::InvalidMetadataUri);
    }
    Ok(())
}

/// Checks that a price is positive.
pub fn validate_price(price: u64) -> (r: Result<(), ErrorCode>)
    ensures
        r is Ok <==> valid_price(price as int),
        r is Err ==> r == Err::<(), ErrorCode>(ErrorCode::InvalidPrice),
{
    if price == 0 {
        return Err(ErrorCode::InvalidPrice);
    }
    Ok(())
}

/// Checks that the (already authenticated) caller is the recorded owner.
pub fn check_ownership(signer: &Pubkey, owner: &Pubkey) -> (r: Result<(), ErrorCode>)
    ensures
        r is Ok <==> signer.key() == owner.key(),
        r is Err ==> r == Err::<(), ErrorCode>(ErrorCode::OwnershipError),
{
    if !signer.same_key(owner) {
        return Err(ErrorCode::OwnershipError);
    }
    Ok(())
}

} // verus!
