use vstd::prelude::*;
use crate::pubkey::{base58_pubkey, Pubkey, sentinel_key};

verus! {

/// The persistent record of one asset.
pub struct NftMetadata {
    /// Descriptive metadata pointer; empty once the asset is burned.
    pub uri: String,
    /// The principal that controls the asset; the sentinel once burned.
    pub owner: Pubkey,
    /// The asking price while the asset is listed for sale.
    pub sale_price: Option<u64>,
}

/// The mathematical model of an asset record.
pub struct RecordView {
    pub uri: Seq<char>,
    pub owner: Seq<u8>,
    pub sale_price: Option<u64>,
}

impl View for NftMetadata {
    type V = RecordView;

    open spec fn view(&self) -> RecordView {
        RecordView { uri: self.uri@, owner: self.owner.key(), sale_price: self.sale_price }
    }
}

impl RecordView {
    /// A listed price is never zero.
    pub open spec fn wf(self) -> bool {
        self.sale_price is Some ==> self.sale_price->0 > 0
    }

    /// The record of a burned asset: empty URI, sentinel owner, not listed.
    pub open spec fn cleared() -> RecordView {
        RecordView { uri: Seq::empty(), owner: sentinel_key(), sale_price: None }
    }
}

impl NftMetadata {
    /// A freshly provisioned record slot, not yet minted: empty URI, sentinel
    /// owner, not listed.
    pub fn initialize() -> (r: NftMetadata)
        ensures
            r@ == RecordView::cleared(),
    {
        let owner = Pubkey::sentinel();
        let r = NftMetadata { uri: String::new(), owner, sale_price: None };
        assert(r.uri@ =~= Seq::<char>::empty());
        r
    }

    /// Whether the asset is listed for sale.
    pub fn is_for_sale(&self) -> (r: bool)
        ensures
            r == (self.sale_price is Some),
    {
        self.sale_price.is_some()
    }
}

/// The two beneficiaries of every sale's fees, fixed at deployment.
#[derive(Debug, Clone, Copy)]
pub struct MarketConfig {
    /// Receives the creator fee.
    pub creator: Pubkey,
    /// Receives the platform fee.
    pub platform: Pubkey,
}

impl MarketConfig {
    /// The configuration whose beneficiaries are given as base58 keys; none
    /// if either text is not a key.
    pub fn from_base58(creator: &str, platform: &str) -> (r: Option<MarketConfig>)
        ensures
            r is Some <==> (base58_pubkey(creator@) is Some && base58_pubkey(platform@) is Some),
            r is Some ==> r->0.creator.key() == base58_pubkey(creator@)->0
                && r->0.platform.key() == base58_pubkey(platform@)->0,
    {
        let creator = match Pubkey::from_base58(creator) {
            Some(k) => k,
            None => return None,
        };
        let platform = match Pubkey::from_base58(platform) {
            Some(k) => k,
            None => return None,
        };
        Some(MarketConfig { creator, platform })
    }
}

/// How a buyer pays for a purchase.
#[derive(Debug, Clone, Copy)]
pub enum PaymentMethod {
    /// Native currency, moved directly between principals' balances.
    SOL,
    /// A fungible token, moved between token accounts by the custody service
    /// under the buyer's authorization for `amount`.
    SPLToken { token_mint: Pubkey, amount: u64 },
}

/// One movement of value from one principal to another.
#[derive(Debug, Clone, Copy)]
pub struct Leg {
    pub from: Pubkey,
    pub to: Pubkey,
    pub amount: u64,
}

/// An instruction for the custody service, to be carried out by the host in
/// the same atomic transaction as the record change.
#[derive(Debug, Clone, Copy)]
pub enum CustodyOp {
    /// Issue `amount` units of the asset to `owner`.
    MintTo { owner: Pubkey, amount: u64 },
    /// Destroy `amount` units of the asset held by `owner`.
    Burn { owner: Pubkey, amount: u64 },
    /// Move native currency.
    NativeTransfer { leg: Leg },
    /// Move tokens of `token_mint`, under an authorization for `authorized`.
    TokenTransfer { token_mint: Pubkey, authorized: u64, leg: Leg },
}

/// An audit record of a successful operation.
#[derive(Debug, Clone, Copy)]
pub enum Event {
    NftMinted { authority: Pubkey },
    MetadataUpdated { authority: Pubkey },
    NftTransferred { old_owner: Pubkey, new_owner: Pubkey },
    NftBurned { authority: Pubkey },
    NftListedForSale { authority: Pubkey, price: u64 },
    NftPurchased { seller: Pubkey, buyer: Pubkey, sale_price: u64 },
}

/// What the host must do after an operation succeeds: the custody
/// instructions, in order, and the events to emit.
pub struct Effects {
    pub custody: Vec<CustodyOp>,
    pub events: Vec<Event>,
}

/// The sum of the amounts of some legs.
pub open spec fn legs_total(legs: Seq<Leg>) -> int
    decreases legs.len(),
{
    if legs.len() == 0 {
        0
    } else {
        legs_total(legs.drop_last()) + legs.last().amount
    }
}

} // verus!
