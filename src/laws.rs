use vstd::prelude::*;
use crate::engine::{
    batch_mint_step, burn_step, list_step, mint_step, purchase_step, settlement_legs,
    transfer_step, update_metadata_step, valid_batch_size, MAX_BATCH_SIZE,
};
use crate::error::ErrorCode;
use crate::fees::{creator_fee, lemma_fees_within_price, platform_fee, seller_proceeds};
use crate::pubkey::{sentinel_key, Pubkey};
use crate::state::{legs_total, Leg, MarketConfig, RecordView};
use crate::utils::valid_uri;

verus! {

/// Every operation that succeeds keeps a record well formed: a listed price
/// is never zero.
pub proof fn law_steps_preserve_wf(
    r: RecordView,
    caller: Seq<u8>,
    new_uri: Seq<char>,
    new_owner: Seq<u8>,
    price: u64,
)
    requires
        r.wf(),
    ensures
        mint_step(caller, new_uri) is Ok ==> mint_step(caller, new_uri)->Ok_0.wf(),
        update_metadata_step(r, caller, new_uri) is Ok ==> update_metadata_step(
            r,
            caller,
            new_uri,
        )->Ok_0.wf(),
        transfer_step(r, caller, new_owner) is Ok ==> transfer_step(r, caller, new_owner)->Ok_0.wf(),
        list_step(r, caller, price) is Ok ==> list_step(r, caller, price)->Ok_0.wf(),
        burn_step(r, caller) is Ok ==> burn_step(r, caller)->Ok_0.wf(),
        purchase_step(r, caller) is Ok ==> purchase_step(r, caller)->Ok_0.wf(),
{
}

/// A freshly minted asset is not listed, so buying it at once is refused as
/// not for sale.
pub proof fn law_mint_then_purchase_not_for_sale(authority: Seq<u8>, uri: Seq<char>, buyer: Seq<u8>)
    requires
        mint_step(authority, uri) is Ok,
    ensures
        purchase_step(mint_step(authority, uri)->Ok_0, buyer) == Err::<RecordView, ErrorCode>(
            ErrorCode::NotForSale,
        ),
{
}

/// When the owner lists an asset at a positive price and a buyer purchases
/// it, the buyer becomes the owner, the listing is gone, the URI is kept, and
/// the three settlement legs add up to exactly the price.
pub proof fn law_list_then_purchase(
    config: MarketConfig,
    r: RecordView,
    seller: Pubkey,
    price: u64,
    buyer: Pubkey,
)
    requires
        seller.key() == r.owner,
        price > 0,
    ensures
        list_step(r, seller.key(), price) is Ok,
        purchase_step(list_step(r, seller.key(), price)->Ok_0, buyer.key()) == Ok::<
            RecordView,
            ErrorCode,
        >(RecordView { uri: r.uri, owner: buyer.key(), sale_price: None }),
        legs_total(settlement_legs(config, seller, buyer, price)) == price as int,
{
    lemma_fees_within_price(price as int);
    let legs = settlement_legs(config, seller, buyer, price);
    let two = legs.drop_last();
    let one = two.drop_last();
    assert(two =~= seq![legs[0], legs[1]]);
    assert(one =~= seq![legs[0]]);
    assert(one.drop_last() =~= Seq::<Leg>::empty());
    assert(legs_total(one.drop_last()) == 0);
    assert(legs_total(one) == legs[0].amount);
    assert(legs_total(two) == legs[0].amount + legs[1].amount);
    assert(legs_total(legs) == seller_proceeds(price as int) + creator_fee(price as int)
        + platform_fee(price as int));
}

/// Every owner-gated operation invoked by someone other than the recorded
/// owner is refused with an ownership error (and the operations then leave
/// the record as it was).
pub proof fn law_non_owner_refused(
    r: RecordView,
    caller: Seq<u8>,
    new_uri: Seq<char>,
    new_owner: Seq<u8>,
    price: u64,
)
    requires
        caller != r.owner,
    ensures
        update_metadata_step(r, caller, new_uri) == Err::<RecordView, ErrorCode>(
            ErrorCode::OwnershipError,
        ),
        transfer_step(r, caller, new_owner) == Err::<RecordView, ErrorCode>(
            ErrorCode::OwnershipError,
        ),
        list_step(r, caller, price) == Err::<RecordView, ErrorCode>(ErrorCode::OwnershipError),
        burn_step(r, caller) == Err::<RecordView, ErrorCode>(ErrorCode::OwnershipError),
{
}

/// Burning by the owner clears the URI and hands the record to the sentinel
/// owner; burning it again is refused for every caller other than the
/// sentinel identity itself.
pub proof fn law_burn_is_final(r: RecordView, owner: Seq<u8>, caller: Seq<u8>)
    requires
        owner == r.owner,
        caller != sentinel_key(),
    ensures
        burn_step(r, owner) is Ok,
        burn_step(r, owner)->Ok_0.uri.len() == 0,
        burn_step(r, owner)->Ok_0.owner == sentinel_key(),
        burn_step(burn_step(r, owner)->Ok_0, caller) == Err::<RecordView, ErrorCode>(
            ErrorCode::OwnershipError,
        ),
{
}

/// A batch of no items, or of more than ten, is refused for its size whatever
/// the URIs; a batch of one to ten valid URIs creates exactly one record per
/// URI, each the record that minting that URI alone would create.
pub proof fn law_batch_mint(authority: Seq<u8>, uris: Seq<Seq<char>>)
    ensures
        uris.len() == 0 || uris.len() > MAX_BATCH_SIZE ==> batch_mint_step(authority, uris)
            == Err::<Seq<RecordView>, ErrorCode>(ErrorCode::InvalidBatchSize),
        valid_batch_size(uris.len() as int) && (forall|i: int|
            0 <= i < uris.len() ==> valid_uri(#[trigger] uris[i])) ==> {
            &&& batch_mint_step(authority, uris) is Ok
            &&& batch_mint_step(authority, uris)->Ok_0.len() == uris.len()
            &&& forall|i: int|
                0 <= i < uris.len() ==> mint_step(authority, uris[i]) == Ok::<RecordView, ErrorCode>(
                    #[trigger] batch_mint_step(authority, uris)->Ok_0[i],
                )
        },
{
}

} // verus!
