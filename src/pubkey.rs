use vstd::prelude::*;
use vstd::string::StringSliceAdditionalSpecFns;

verus! {

/// The 32 bytes that a base58 text names as a key, if it names one.
pub uninterp spec fn base58_pubkey(text: Seq<char>) -> Option<Seq<u8>>;

/// Relies on `solana_program::pubkey::Pubkey::from_str`: base58 decoding of
/// a key, which refuses a text of more than 44 bytes and any text that does
/// not decode to exactly 32 bytes.
#[verifier::external_body]
fn decode_base58_key(text: &str) -> (r: Option<[u8; 32]>)
    ensures
        r is Some <==> base58_pubkey(text@) is Some,
        r is Some ==> r->0@ == base58_pubkey(text@)->0,
        text.spec_bytes().len() > 44 ==> r is None,
{
    match <anchor_lang::solana_program::pubkey::Pubkey as std::str::FromStr>::from_str(text) {
        Ok(key) => Some(key.to_bytes()),
        Err(_) => None,
    }
}

/// Number of bytes in a principal's identity.
pub const PUBKEY_BYTES: usize = 32;

/// The key of the sentinel "no owner" identity: 32 zero bytes.
pub open spec fn sentinel_key() -> Seq<u8> {
    Seq::new(32, |i: int| 0u8)
}

/// The identity of a principal on the ledger: 32 opaque bytes.
///
/// The all-zero key is the sentinel "no owner" identity written on burn.
#[derive(Debug, Clone, Copy)]
pub struct Pubkey {
    pub bytes: [u8; 32],
}

impl Pubkey {
    /// The identity as a sequence of bytes.
    pub open spec fn key(self) -> Seq<u8> {
        self.bytes@
    }

    /// Whether this is the sentinel "no owner" identity.
    pub open spec fn is_sentinel(self) -> bool {
        self.key() == sentinel_key()
    }

    /// Builds a key from its bytes.
    pub fn new_from_array(bytes: [u8; 32]) -> (r: Pubkey)
        ensures
            r.key() == bytes@,
    {
        Pubkey { bytes }
    }

    /// Reads a key written in base58, as keys are shown to users.
    pub fn from_base58(text: &str) -> (r: Option<Pubkey>)
        ensures
            r is Some <==> base58_pubkey(text@) is Some,
            r is Some ==> r->0.key() == base58_pubkey(text@)->0,
            text.spec_bytes().len() > 44 ==> r is None,
    {
        match decode_base58_key(text) {
            Some(bytes) => Some(Pubkey { bytes }),
            None => None,
        }
    }

    /// The sentinel "no owner" identity: all bytes zero.
    pub fn sentinel() -> (r: Pubkey)
        ensures
            r.is_sentinel(),
    {
        let r = Pubkey { bytes: [0u8; 32] };
        assert(r.bytes@ =~= sentinel_key());
        r
    }

    /// The bytes of the key.
    pub fn to_bytes(&self) -> (r: [u8; 32])
        ensures
            r@ == self.key(),
    {
        self.bytes
    }

    /// Whether two keys name the same principal.
    pub fn same_key(&self, other: &Pubkey) -> (r: bool)
        ensures
            r == (self.key() == other.key()),
    {
        let mut i: usize = 0;
        while i < PUBKEY_BYTES
            invariant
                0 <= i <= PUBKEY_BYTES,
                self.bytes@.len() == PUBKEY_BYTES,
                other.bytes@.len() == PUBKEY_BYTES,
                forall|j: int| 0 <= j < i ==> self.bytes@[j] == other.bytes@[j],
            decreases PUBKEY_BYTES - i,
        {
            if self.bytes[i] != other.bytes[i] {
                return false;
            }
            i = i + 1;
        }
        proof {
            assert(self.bytes@ =~= other.bytes@);
        }
        true
    }

    /// Whether this key is the sentinel "no owner" identity.
    pub fn is_default(&self) -> (r: bool)
        ensures
            r == self.is_sentinel(),
    {
        let mut i: usize = 0;
        while i < PUBKEY_BYTES
            invariant
                0 <= i <= PUBKEY_BYTES,
                self.bytes@.len() == PUBKEY_BYTES,
                forall|j: int| 0 <= j < i ==> self.bytes@[j] == 0u8,
            decreases PUBKEY_BYTES - i,
        {
            if self.bytes[i] != 0 {
                assert(self.bytes@[i as int] != sentinel_key()[i as int]);
                return false;
            }
            i = i + 1;
        }
        assert(self.bytes@ =~= sentinel_key());
        true
    }
}

impl PartialEq for Pubkey {
    fn eq(&self, other: &Pubkey) -> (r: bool) {
        self.same_key(other)
    }
}

impl vstd::std_specs::cmp::PartialEqSpecImpl for Pubkey {
    open spec fn obeys_eq_spec() -> bool {
        true
    }

    open spec fn eq_spec(&self, other: &Pubkey) -> bool {
        self.key() == other.key()
    }
}

impl Eq for Pubkey {}

} // verus!
