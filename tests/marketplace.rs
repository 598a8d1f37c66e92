use nft_marketplace::engine::{
    batch_mint_nfts, burn_nft, list_nft_for_sale, mint_nft, purchase_nft, transfer_nft,
    update_metadata,
};
use nft_marketplace::error::ErrorCode;
use nft_marketplace::fees::{calculate_bark_fee, calculate_creator_fee, calculate_seller_proceeds};
use nft_marketplace::pubkey::Pubkey;
use nft_marketplace::state::{CustodyOp, Event, MarketConfig, NftMetadata, PaymentMethod};
use nft_marketplace::utils::{check_ownership, validate_metadata_uri, validate_price};

fn key(b: u8) -> Pubkey {
    Pubkey::new_from_array([b; 32])
}

fn config() -> MarketConfig {
    MarketConfig { creator: key(200), platform: key(201) }
}

fn minted(owner: u8, uri: &str) -> NftMetadata {
    let (record, _) = mint_nft(&key(owner), uri.to_string()).unwrap();
    record
}

fn snapshot(r: &NftMetadata) -> (String, [u8; 32], Option<u64>) {
    (r.uri.clone(), r.owner.to_bytes(), r.sale_price)
}

#[test]
fn uri_bounds() {
    assert_eq!(validate_metadata_uri(""), Err(ErrorCode::InvalidMetadataUri));
    assert_eq!(validate_metadata_uri("a"), Ok(()));
    assert_eq!(validate_metadata_uri(&"x".repeat(200)), Ok(()));
    assert_eq!(validate_metadata_uri(&"x".repeat(201)), Err(ErrorCode::InvalidMetadataUri));
    assert_eq!(validate_metadata_uri("ipfs://bafy/meta.json"), Ok(()));
}

#[test]
fn uri_length_counts_bytes() {
    // 100 two-byte characters are 200 bytes; one more is too many.
    assert_eq!(validate_metadata_uri(&"é".repeat(100)), Ok(()));
    assert_eq!(validate_metadata_uri(&"é".repeat(101)), Err(ErrorCode::InvalidMetadataUri));
}

#[test]
fn price_positivity() {
    assert_eq!(validate_price(0), Err(ErrorCode::InvalidPrice));
    assert_eq!(validate_price(1), Ok(()));
    assert_eq!(validate_price(u64::MAX), Ok(()));
}

#[test]
fn ownership_match() {
    assert_eq!(check_ownership(&key(1), &key(1)), Ok(()));
    assert_eq!(check_ownership(&key(1), &key(2)), Err(ErrorCode::OwnershipError));
    let mut bytes = [1u8; 32];
    bytes[31] = 2;
    assert_eq!(check_ownership(&key(1), &Pubkey::new_from_array(bytes)), Err(ErrorCode::OwnershipError));
}

#[test]
fn fee_split_exact_values() {
    assert_eq!(calculate_creator_fee(100), 5);
    assert_eq!(calculate_bark_fee(100), 2);
    assert_eq!(calculate_seller_proceeds(100), 93);
    assert_eq!(calculate_creator_fee(101), 5);
    assert_eq!(calculate_bark_fee(101), 2);
    assert_eq!(calculate_seller_proceeds(101), 94);
    assert_eq!(calculate_creator_fee(19), 0);
    assert_eq!(calculate_bark_fee(49), 0);
    assert_eq!(calculate_seller_proceeds(1), 1);
    assert_eq!(calculate_creator_fee(0), 0);
    assert_eq!(calculate_seller_proceeds(0), 0);
}

#[test]
fn fee_split_never_exceeds_price() {
    for p in [0u64, 1, 7, 99, 100, 101, 12345, 1_000_000_007, u64::MAX / 3, u64::MAX] {
        let c = calculate_creator_fee(p);
        let f = calculate_bark_fee(p);
        assert!(c + f <= p);
        assert_eq!(calculate_seller_proceeds(p), p - c - f);
    }
    assert_eq!(calculate_creator_fee(u64::MAX), 922337203685477580);
    assert_eq!(calculate_bark_fee(u64::MAX), 368934881474191032);
}

#[test]
fn initialized_slot_is_empty() {
    let r = NftMetadata::initialize();
    assert_eq!(r.uri, "");
    assert!(r.owner.is_default());
    assert!(!r.is_for_sale());
}

#[test]
fn mint_sets_owner_and_uri() {
    let (r, fx) = mint_nft(&key(1), "ipfs://a".to_string()).unwrap();
    assert_eq!(r.uri, "ipfs://a");
    assert!(r.owner == key(1));
    assert_eq!(r.sale_price, None);
    assert_eq!(fx.custody.len(), 1);
    assert!(matches!(fx.custody[0], CustodyOp::MintTo { owner, amount: 1 } if owner == key(1)));
    assert!(matches!(fx.events[0], Event::NftMinted { authority } if authority == key(1)));
}

#[test]
fn mint_rejects_bad_uri() {
    assert!(matches!(mint_nft(&key(1), String::new()), Err(ErrorCode::InvalidMetadataUri)));
    assert!(matches!(mint_nft(&key(1), "u".repeat(201)), Err(ErrorCode::InvalidMetadataUri)));
}

#[test]
fn purchase_without_listing_is_not_for_sale() {
    let mut r = minted(1, "ipfs://a");
    let before = snapshot(&r);
    let res = purchase_nft(&config(), &mut r, &key(2), PaymentMethod::SOL);
    assert!(matches!(res, Err(ErrorCode::NotForSale)));
    assert_eq!(snapshot(&r), before);
}

#[test]
fn purchase_of_zero_priced_record_is_refused() {
    let mut r = minted(1, "ipfs://a");
    r.sale_price = Some(0);
    let before = snapshot(&r);
    let res = purchase_nft(&config(), &mut r, &key(2), PaymentMethod::SOL);
    assert!(matches!(res, Err(ErrorCode::InvalidPrice)));
    assert_eq!(snapshot(&r), before);
}

fn leg_amounts(ops: &[CustodyOp]) -> Vec<(Pubkey, Pubkey, u64)> {
    ops.iter()
        .map(|op| match op {
            CustodyOp::NativeTransfer { leg } => (leg.from, leg.to, leg.amount),
            CustodyOp::TokenTransfer { leg, .. } => (leg.from, leg.to, leg.amount),
            _ => panic!("not a transfer"),
        })
        .collect()
}

#[test]
fn list_then_purchase_native() {
    let mut r = minted(1, "ipfs://a");
    list_nft_for_sale(&mut r, &key(1), 100).unwrap();
    assert_eq!(r.sale_price, Some(100));
    let fx = purchase_nft(&config(), &mut r, &key(2), PaymentMethod::SOL).unwrap();
    assert!(r.owner == key(2));
    assert_eq!(r.sale_price, None);
    assert_eq!(r.uri, "ipfs://a");
    let legs = leg_amounts(&fx.custody);
    assert_eq!(legs.len(), 3);
    assert!(legs[0].0 == key(2) && legs[0].1 == key(1) && legs[0].2 == 93);
    assert!(legs[1].0 == key(2) && legs[1].1 == key(200) && legs[1].2 == 5);
    assert!(legs[2].0 == key(2) && legs[2].1 == key(201) && legs[2].2 == 2);
    assert_eq!(legs.iter().map(|l| l.2).sum::<u64>(), 100);
    assert!(fx.custody.iter().all(|op| matches!(op, CustodyOp::NativeTransfer { .. })));
    assert!(matches!(fx.events[0], Event::NftPurchased { seller, buyer, sale_price: 100 }
        if seller == key(1) && buyer == key(2)));
}

#[test]
fn list_then_purchase_token_uses_recorded_price() {
    let mut r = minted(1, "ipfs://a");
    list_nft_for_sale(&mut r, &key(1), 101).unwrap();
    let pay = PaymentMethod::SPLToken { token_mint: key(50), amount: 500 };
    let fx = purchase_nft(&config(), &mut r, &key(3), pay).unwrap();
    assert!(r.owner == key(3));
    assert_eq!(r.sale_price, None);
    let legs = leg_amounts(&fx.custody);
    assert_eq!(legs.iter().map(|l| l.2).collect::<Vec<_>>(), vec![94, 5, 2]);
    for op in &fx.custody {
        match op {
            CustodyOp::TokenTransfer { token_mint, authorized, .. } => {
                assert!(*token_mint == key(50));
                assert_eq!(*authorized, 500);
            }
            _ => panic!("expected a token transfer"),
        }
    }
}

#[test]
fn purchase_clears_listing_so_second_purchase_fails() {
    let mut r = minted(1, "ipfs://a");
    list_nft_for_sale(&mut r, &key(1), 10).unwrap();
    purchase_nft(&config(), &mut r, &key(2), PaymentMethod::SOL).unwrap();
    let res = purchase_nft(&config(), &mut r, &key(3), PaymentMethod::SOL);
    assert!(matches!(res, Err(ErrorCode::NotForSale)));
    assert!(r.owner == key(2));
}

#[test]
fn list_rejects_zero_price() {
    let mut r = minted(1, "ipfs://a");
    let before = snapshot(&r);
    assert!(matches!(list_nft_for_sale(&mut r, &key(1), 0), Err(ErrorCode::InvalidPrice)));
    assert_eq!(snapshot(&r), before);
}

#[test]
fn update_metadata_by_owner() {
    let mut r = minted(1, "ipfs://a");
    let fx = update_metadata(&mut r, &key(1), "ipfs://b".to_string()).unwrap();
    assert_eq!(r.uri, "ipfs://b");
    assert!(fx.custody.is_empty());
    assert!(matches!(fx.events[0], Event::MetadataUpdated { authority } if authority == key(1)));
    let res = update_metadata(&mut r, &key(1), String::new());
    assert!(matches!(res, Err(ErrorCode::InvalidMetadataUri)));
    assert_eq!(r.uri, "ipfs://b");
}

#[test]
fn transfer_by_owner() {
    let mut r = minted(1, "ipfs://a");
    let fx = transfer_nft(&mut r, &key(1), key(9)).unwrap();
    assert!(r.owner == key(9));
    assert!(matches!(fx.events[0], Event::NftTransferred { old_owner, new_owner }
        if old_owner == key(1) && new_owner == key(9)));
    assert!(matches!(transfer_nft(&mut r, &key(1), key(1)), Err(ErrorCode::OwnershipError)));
}

#[test]
fn non_owner_is_refused_everywhere() {
    let mut r = minted(1, "ipfs://a");
    list_nft_for_sale(&mut r, &key(1), 40).unwrap();
    let before = snapshot(&r);
    let other = key(7);
    assert!(matches!(update_metadata(&mut r, &other, "ipfs://z".to_string()), Err(ErrorCode::OwnershipError)));
    assert!(matches!(update_metadata(&mut r, &other, String::new()), Err(ErrorCode::OwnershipError)));
    assert!(matches!(transfer_nft(&mut r, &other, other), Err(ErrorCode::OwnershipError)));
    assert!(matches!(list_nft_for_sale(&mut r, &other, 5), Err(ErrorCode::OwnershipError)));
    assert!(matches!(list_nft_for_sale(&mut r, &other, 0), Err(ErrorCode::OwnershipError)));
    assert!(matches!(burn_nft(&mut r, &other), Err(ErrorCode::OwnershipError)));
    assert_eq!(snapshot(&r), before);
}

#[test]
fn burn_clears_and_cannot_repeat() {
    let mut r = minted(1, "ipfs://a");
    list_nft_for_sale(&mut r, &key(1), 40).unwrap();
    let fx = burn_nft(&mut r, &key(1)).unwrap();
    assert_eq!(r.uri, "");
    assert!(r.owner.is_default());
    assert!(r.owner == Pubkey::sentinel());
    assert_eq!(r.sale_price, None);
    assert!(matches!(fx.custody[0], CustodyOp::Burn { owner, amount: 1 } if owner == key(1)));
    assert!(matches!(fx.events[0], Event::NftBurned { authority } if authority == key(1)));
    let before = snapshot(&r);
    assert!(matches!(burn_nft(&mut r, &key(1)), Err(ErrorCode::OwnershipError)));
    assert_eq!(snapshot(&r), before);
    assert!(matches!(purchase_nft(&config(), &mut r, &key(2), PaymentMethod::SOL), Err(ErrorCode::NotForSale)));
}

#[test]
fn batch_size_bounds() {
    let none: Vec<String> = Vec::new();
    assert!(matches!(batch_mint_nfts(&key(1), none), Err(ErrorCode::InvalidBatchSize)));
    let eleven: Vec<String> = (0..11).map(|i| format!("ipfs://{}", i)).collect();
    assert!(matches!(batch_mint_nfts(&key(1), eleven), Err(ErrorCode::InvalidBatchSize)));
    // the size is checked before the URIs
    let eleven_bad: Vec<String> = (0..11).map(|_| String::new()).collect();
    assert!(matches!(batch_mint_nfts(&key(1), eleven_bad), Err(ErrorCode::InvalidBatchSize)));
}

#[test]
fn batch_mint_creates_one_record_per_uri() {
    for n in [1usize, 2, 10] {
        let uris: Vec<String> = (0..n).map(|i| format!("ipfs://{}", i)).collect();
        let (records, fx) = batch_mint_nfts(&key(4), uris.clone()).unwrap();
        assert_eq!(records.len(), n);
        assert_eq!(fx.custody.len(), n);
        assert_eq!(fx.events.len(), n);
        for (rec, uri) in records.iter().zip(uris.iter()) {
            assert_eq!(&rec.uri, uri);
            assert!(rec.owner == key(4));
            assert_eq!(rec.sale_price, None);
        }
    }
}

#[test]
fn batch_mint_with_one_bad_uri_mints_nothing() {
    let uris = vec!["ipfs://a".to_string(), String::new(), "ipfs://c".to_string()];
    assert!(matches!(batch_mint_nfts(&key(1), uris), Err(ErrorCode::InvalidMetadataUri)));
    let uris = vec!["ipfs://a".to_string(), "y".repeat(201)];
    assert!(matches!(batch_mint_nfts(&key(1), uris), Err(ErrorCode::InvalidMetadataUri)));
}

#[test]
fn error_messages() {
    assert_eq!(ErrorCode::InvalidBatchSize.message(), "Batch size must be between 1 and 10.");
    assert_eq!(ErrorCode::NotForSale.message(), "This NFT is not for sale.");
}
