use vstd::prelude::*;
use crate::error::ErrorCode;
use crate::fees::{
    calculate_bark_fee, calculate_creator_fee, calculate_seller_proceeds, creator_fee,
    platform_fee, seller_proceeds,
};
use crate::pubkey::Pubkey;
use crate::state::{
    CustodyOp, Effects, Event, Leg, MarketConfig, NftMetadata, PaymentMethod, RecordView,
};
use crate::utils::{check_ownership, valid_price, valid_uri, validate_metadata_uri, validate_price};

verus! {

// ---------------------------------------------------------------------------
// The lifecycle as a state machine over record models
// ---------------------------------------------------------------------------

/// Largest number of assets one batch may mint.
pub const MAX_BATCH_SIZE: usize = 10;

/// Where minting an asset with `uri` by `authority` leads: a fresh record
/// owned by the authority and not listed.
pub open spec fn mint_step(authority: Seq<u8>, uri: Seq<char>) -> Result<RecordView, ErrorCode> {
    if !valid_uri(uri) {
        Err(ErrorCode::InvalidMetadataUri)
    } else {
        Ok(RecordView { uri, owner: authority, sale_price: None })
    }
}

/// Where replacing the URI of `r` by `caller` leads.
pub open spec fn update_metadata_step(r: RecordView, caller: Seq<u8>, new_uri: Seq<char>) -> Result<
    RecordView,
    ErrorCode,
> {
    if caller != r.owner {
        Err(ErrorCode::OwnershipError)
    } else if !valid_uri(new_uri) {
        Err(ErrorCode::InvalidMetadataUri)
    } else {
        Ok(RecordView { uri: new_uri, ..r })
    }
}

/// Where handing `r` to `new_owner` by `caller` leads.
pub open spec fn transfer_step(r: RecordView, caller: Seq<u8>, new_owner: Seq<u8>) -> Result<
    RecordView,
    ErrorCode,
> {
    if caller != r.owner {
        Err(ErrorCode::OwnershipError)
    } else {
        Ok(RecordView { owner: new_owner, ..r })
    }
}

/// Where listing `r` at `price` by `caller` leads.
pub open spec fn list_step(r: RecordView, caller: Seq<u8>, price: u64) -> Result<RecordView, ErrorCode> {
    if caller != r.owner {
        Err(ErrorCode::OwnershipError)
    } else if !valid_price(price as int) {
        Err(ErrorCode::InvalidPrice)
    } else {
        Ok(RecordView { sale_price: Some(price), ..r })
    }
}

/// Where burning `r` by `caller` leads: the cleared record.
pub open spec fn burn_step(r: RecordView, caller: Seq<u8>) -> Result<RecordView, ErrorCode> {
    if caller != r.owner {
        Err(ErrorCode::OwnershipError)
    } else {
        Ok(RecordView::cleared())
    }
}

/// Whether a batch holds an acceptable number of items: 1 to 10.
pub open spec fn valid_batch_size(n: int) -> bool {
    1 <= n <= MAX_BATCH_SIZE
}

/// Where minting a batch of assets with `uris` by `authority` leads: either
/// one fresh record per URI, in order, or nothing at all.
pub open spec fn batch_mint_step(authority: Seq<u8>, uris: Seq<Seq<char>>) -> Result<
    Seq<RecordView>,
    ErrorCode,
> {
    if !valid_batch_size(uris.len() as int) {
        Err(ErrorCode::InvalidBatchSize)
    } else if exists|i: int| 0 <= i < uris.len() && !valid_uri(#[trigger] uris[i]) {
        Err(ErrorCode::InvalidMetadataUri)
    } else {
        Ok(uris.map_values(|uri: Seq<char>| RecordView { uri, owner: authority, sale_price: None }))
    }
}

/// The texts of some URIs.
pub open spec fn uri_views(uris: Seq<String>) -> Seq<Seq<char>> {
    uris.map_values(|uri: String| uri@)
}

/// The models of some records.
pub open spec fn record_views(records: Seq<NftMetadata>) -> Seq<RecordView> {
    records.map_values(|m: NftMetadata| m@)
}

/// Where a purchase of `r` by `buyer` leads.
pub open spec fn purchase_step(r: RecordView, buyer: Seq<u8>) -> Result<RecordView, ErrorCode> {
    match r.sale_price {
        None => Err(ErrorCode::NotForSale),
        Some(p) => if !valid_price(p as int) {
            Err(ErrorCode::InvalidPrice)
        } else {
            Ok(RecordView { uri: r.uri, owner: buyer, sale_price: None })
        },
    }
}

/// The three legs of a sale at `price`: the seller's proceeds, the creator's
/// fee and the platform's fee, each paid by the buyer.
pub open spec fn settlement_legs(
    config: MarketConfig,
    seller: Pubkey,
    buyer: Pubkey,
    price: u64,
) -> Seq<Leg> {
    seq![
        Leg { from: buyer, to: seller, amount: seller_proceeds(price as int) as u64 },
        Leg { from: buyer, to: config.creator, amount: creator_fee(price as int) as u64 },
        Leg { from: buyer, to: config.platform, amount: platform_fee(price as int) as u64 },
    ]
}

/// The custody instruction that moves one leg over the chosen payment rail.
pub open spec fn transfer_op(payment: PaymentMethod, leg: Leg) -> CustodyOp {
    match payment {
        PaymentMethod::SOL => CustodyOp::NativeTransfer { leg },
        PaymentMethod::SPLToken { token_mint, amount } => CustodyOp::TokenTransfer {
            token_mint,
            authorized: amount,
            leg,
        },
    }
}

/// The custody instructions of a settlement, one per leg and in leg order.
pub open spec fn settlement_ops(payment: PaymentMethod, legs: Seq<Leg>) -> Seq<CustodyOp> {
    legs.map_values(|leg: Leg| transfer_op(payment, leg))
}

// ---------------------------------------------------------------------------
// Operations
// ---------------------------------------------------------------------------

fn single<T>(x: T) -> (r: Vec<T>)
    ensures
        r@ == seq![x],
{
    let mut v: Vec<T> = Vec::new();
    v.push(x);
    assert(v@ =~= seq![x]);
    v
}

/// Mints one asset: issues one custody unit to `authority` and returns the
/// new record, owned by the authority and not listed.
pub fn mint_nft(authority: &Pubkey, uri: String) -> (r: Result<(NftMetadata, Effects), ErrorCode>)
    ensures
        r is Ok <==> mint_step(authority.key(), uri@) is Ok,
        r is Err ==> r->Err_0 == mint_step(authority.key(), uri@)->Err_0,
        r is Ok ==> r->Ok_0.0@ == mint_step(authority.key(), uri@)->Ok_0
            && r->Ok_0.1.custody@ == seq![CustodyOp::MintTo { owner: *authority, amount: 1 }]
            && r->Ok_0.1.events@ == seq![Event::NftMinted { authority: *authority }],
{
    validate_metadata_uri(uri.as_str())?;
    let custody = single(CustodyOp::MintTo { owner: *authority, amount: 1 });
    let events = single(Event::NftMinted { authority: *authority });
    let record = NftMetadata { uri, owner: *authority, sale_price: None };
    Ok((record, Effects { custody, events }))
}

/// Replaces the metadata URI of an asset; only its owner may.
pub fn update_metadata(nft_metadata: &mut NftMetadata, authority: &Pubkey, new_uri: String) -> (r:
    Result<Effects, ErrorCode>)
    ensures
        r is Ok <==> update_metadata_step(old(nft_metadata)@, authority.key(), new_uri@) is Ok,
        r is Err ==> r->Err_0 == update_metadata_step(old(nft_metadata)@, authority.key(), new_uri@)->Err_0
            && *final(nft_metadata) == *old(nft_metadata),
        r is Ok ==> final(nft_metadata)@ == update_metadata_step(old(nft_metadata)@, authority.key(), new_uri@)->Ok_0
            && r->Ok_0.custody@ == Seq::<CustodyOp>::empty()
            && r->Ok_0.events@ == seq![Event::MetadataUpdated { authority: *authority }],
{
    check_ownership(authority, &nft_metadata.owner)?;
    validate_metadata_uri(new_uri.as_str())?;
    nft_metadata.uri = new_uri;
    let events = single(Event::MetadataUpdated { authority: *authority });
    Ok(Effects { custody: Vec::new(), events })
}

/// Hands an asset to `new_owner`; only its owner may.
pub fn transfer_nft(nft_metadata: &mut NftMetadata, authority: &Pubkey, new_owner: Pubkey) -> (r:
    Result<Effects, ErrorCode>)
    ensures
        r is Ok <==> transfer_step(old(nft_metadata)@, authority.key(), new_owner.key()) is Ok,
        r is Err ==> r->Err_0 == transfer_step(old(nft_metadata)@, authority.key(), new_owner.key())->Err_0
            && *final(nft_metadata) == *old(nft_metadata),
        r is Ok ==> final(nft_metadata)@ == transfer_step(old(nft_metadata)@, authority.key(), new_owner.key())->Ok_0
            && final(nft_metadata).owner == new_owner
            && r->Ok_0.custody@ == Seq::<CustodyOp>::empty()
            && r->Ok_0.events@ == seq![Event::NftTransferred { old_owner: *authority, new_owner }],
{
    check_ownership(authority, &nft_metadata.owner)?;
    nft_metadata.owner = new_owner;
    let events = single(Event::NftTransferred { old_owner: *authority, new_owner });
    Ok(Effects { custody: Vec::new(), events })
}

/// Destroys an asset: burns its custody unit, clears its URI, gives it the
/// sentinel owner and withdraws any listing; only its owner may.
pub fn burn_nft(nft_metadata: &mut NftMetadata, authority: &Pubkey) -> (r: Result<Effects, ErrorCode>)
    ensures
        r is Ok <==> burn_step(old(nft_metadata)@, authority.key()) is Ok,
        r is Err ==> r->Err_0 == burn_step(old(nft_metadata)@, authority.key())->Err_0
            && *final(nft_metadata) == *old(nft_metadata),
        r is Ok ==> final(nft_metadata)@ == burn_step(old(nft_metadata)@, authority.key())->Ok_0
            && r->Ok_0.custody@ == seq![CustodyOp::Burn { owner: *authority, amount: 1 }]
            && r->Ok_0.events@ == seq![Event::NftBurned { authority: *authority }],
{
    check_ownership(authority, &nft_metadata.owner)?;
    let custody = single(CustodyOp::Burn { owner: *authority, amount: 1 });
    nft_metadata.uri = String::new();
    nft_metadata.owner = Pubkey::sentinel();
    nft_metadata.sale_price = None;
    assert(nft_metadata.uri@ =~= Seq::<char>::empty());
    let events = single(Event::NftBurned { authority: *authority });
    Ok(Effects { custody, events })
}

/// Lists an asset for sale at `price`; only its owner may.
pub fn list_nft_for_sale(nft_metadata: &mut NftMetadata, authority: &Pubkey, price: u64) -> (r:
    Result<Effects, ErrorCode>)
    ensures
        r is Ok <==> list_step(old(nft_metadata)@, authority.key(), price) is Ok,
        r is Err ==> r->Err_0 == list_step(old(nft_metadata)@, authority.key(), price)->Err_0
            && *final(nft_metadata) == *old(nft_metadata),
        r is Ok ==> final(nft_metadata)@ == list_step(old(nft_metadata)@, authority.key(), price)->Ok_0
            && r->Ok_0.custody@ == Seq::<CustodyOp>::empty()
            && r->Ok_0.events@ == seq![Event::NftListedForSale { authority: *authority, price }],
{
    check_ownership(authority, &nft_metadata.owner)?;
    validate_price(price)?;
    nft_metadata.sale_price = Some(price);
    let events = single(Event::NftListedForSale { authority: *authority, price });
    Ok(Effects { custody: Vec::new(), events })
}

/// Mints one asset per URI, in order, all owned by `authority`.
///
/// The batch size and every URI are checked before anything is minted, so a
/// refused batch mints nothing. On success the host must issue one custody
/// unit to the authority per record.
pub fn batch_mint_nfts(authority: &Pubkey, uris: Vec<String>) -> (r: Result<
    (Vec<NftMetadata>, Effects),
    ErrorCode,
>)
    ensures
        r is Ok <==> batch_mint_step(authority.key(), uri_views(uris@)) is Ok,
        r is Err ==> r->Err_0 == batch_mint_step(authority.key(), uri_views(uris@))->Err_0,
        r is Ok ==> record_views(r->Ok_0.0@) == batch_mint_step(authority.key(), uri_views(uris@))->Ok_0
            && r->Ok_0.1.custody@ == Seq::new(
                uris@.len(),
                |i: int| CustodyOp::MintTo { owner: *authority, amount: 1 },
            )
            && r->Ok_0.1.events@ == Seq::new(
                uris@.len(),
                |i: int| Event::NftMinted { authority: *authority },
            ),
{
    let n = uris.len();
    if n == 0 || n > MAX_BATCH_SIZE {
        return Err(ErrorCode::InvalidBatchSize);
    }
    let ghost views = uri_views(uris@);
    let mut i: usize = 0;
    while i < n
        invariant
            0 <= i <= n,
            n == uris@.len(),
            1 <= n <= MAX_BATCH_SIZE,
            views == uri_views(uris@),
            forall|j: int| 0 <= j < i ==> valid_uri(#[trigger] views[j]),
        decreases n - i,
    {
        match validate_metadata_uri(uris[i].as_str()) {
            Ok(()) => {},
            Err(_) => {
                assert(views[i as int] == uris@[i as int]@);
                assert(!valid_uri(views[i as int]));
                return Err(ErrorCode::InvalidMetadataUri);
            },
        }
        i = i + 1;
    }

    let mut records: Vec<NftMetadata> = Vec::new();
    let mut custody: Vec<CustodyOp> = Vec::new();
    let mut events: Vec<Event> = Vec::new();
    let ghost out = batch_mint_step(authority.key(), views)->Ok_0;
    let mut k: usize = 0;
    while k < n
        invariant
            0 <= k <= n,
            n == uris@.len(),
            views == uri_views(uris@),
            out == views.map_values(
                |uri: Seq<char>| RecordView { uri, owner: authority.key(), sale_price: None },
            ),
            record_views(records@) == out.take(k as int),
            custody@ == Seq::new(k as nat, |j: int| CustodyOp::MintTo { owner: *authority, amount: 1 }),
            events@ == Seq::new(k as nat, |j: int| Event::NftMinted { authority: *authority }),
        decreases n - k,
    {
        let uri = uris[k].clone();
        let record = NftMetadata { uri, owner: *authority, sale_price: None };
        assert(record@ == out[k as int]);
        let ghost before = records@;
        records.push(record);
        assert(records@ == before.push(record));
        assert(record_views(records@) =~= record_views(before).push(record@));
        assert(out.take(k + 1) =~= out.take(k as int).push(out[k as int]));
        custody.push(CustodyOp::MintTo { owner: *authority, amount: 1 });
        events.push(Event::NftMinted { authority: *authority });
        assert(record_views(records@) =~= out.take(k + 1));
        assert(custody@ =~= Seq::new((k + 1) as nat, |j: int| CustodyOp::MintTo { owner: *authority, amount: 1 }));
        assert(events@ =~= Seq::new((k + 1) as nat, |j: int| Event::NftMinted { authority: *authority }));
        k = k + 1;
    }
    assert(out.take(n as int) =~= out);
    Ok((records, Effects { custody, events }))
}

fn transfer_op_for(payment: &PaymentMethod, leg: Leg) -> (r: CustodyOp)
    ensures
        r == transfer_op(*payment, leg),
{
    match payment {
        PaymentMethod::SOL => CustodyOp::NativeTransfer { leg },
        PaymentMethod::SPLToken { token_mint, amount } => CustodyOp::TokenTransfer {
            token_mint: *token_mint,
            authorized: *amount,
            leg,
        },
    }
}

/// Settles a purchase of a listed asset by `buyer`.
///
/// The recorded sale price is authoritative: the seller (the recorded owner)
/// receives the price less both fees, the configured creator and platform
/// beneficiaries receive their fees, all paid by the buyer over the chosen
/// rail. On success the buyer owns the asset and it is no longer listed. The
/// host must carry out the three transfers and the record change as one atomic
/// unit; on any error the record is left as it was.
pub fn purchase_nft(
    config: &MarketConfig,
    nft_metadata: &mut NftMetadata,
    buyer: &Pubkey,
    payment_method: PaymentMethod,
) -> (r: Result<Effects, ErrorCode>)
    ensures
        r is Ok <==> purchase_step(old(nft_metadata)@, buyer.key()) is Ok,
        r is Err ==> r->Err_0 == purchase_step(old(nft_metadata)@, buyer.key())->Err_0
            && *final(nft_metadata) == *old(nft_metadata),
        r is Ok ==> final(nft_metadata)@ == purchase_step(old(nft_metadata)@, buyer.key())->Ok_0
            && r->Ok_0.custody@ == settlement_ops(
                payment_method,
                settlement_legs(*config, old(nft_metadata).owner, *buyer, old(nft_metadata).sale_price->0),
            )
            && r->Ok_0.events@ == seq![Event::NftPurchased {
                seller: old(nft_metadata).owner,
                buyer: *buyer,
                sale_price: old(nft_metadata).sale_price->0,
            }],
{
    let sale_price = match nft_metadata.sale_price {
        Some(p) => p,
        None => return Err(ErrorCode::NotForSale),
    };
    validate_price(sale_price)?;

    let creator_fee = calculate_creator_fee(sale_price);
    let bark_fee = calculate_bark_fee(sale_price);
    let proceeds = calculate_seller_proceeds(sale_price);
    let seller = nft_metadata.owner;

    let legs = [
        Leg { from: *buyer, to: seller, amount: proceeds },
        Leg { from: *buyer, to: config.creator, amount: creator_fee },
        Leg { from: *buyer, to: config.platform, amount: bark_fee },
    ];
    let mut custody: Vec<CustodyOp> = Vec::new();
    let mut i: usize = 0;
    while i < 3
        invariant
            0 <= i <= 3,
            legs@ == settlement_legs(*config, seller, *buyer, sale_price),
            custody@ == settlement_ops(payment_method, legs@.take(i as int)),
        decreases 3 - i,
    {
        let op = transfer_op_for(&payment_method, legs[i]);
        custody.push(op);
        assert(legs@.take(i + 1) =~= legs@.take(i as int).push(legs@[i as int]));
        assert(custody@ =~= settlement_ops(payment_method, legs@.take(i + 1)));
        i = i + 1;
    }
    assert(legs@.take(3) =~= legs@);

    nft_metadata.owner = *buyer;
    nft_metadata.sale_price = None;

    let mut events: Vec<Event> = Vec::new();
    events.push(Event::NftPurchased { seller, buyer: *buyer, sale_price });
    assert(events@ =~= seq![Event::NftPurchased { seller, buyer: *buyer, sale_price }]);
    Ok(Effects { custody, events })
}

} // verus!
