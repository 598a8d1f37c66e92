use vstd::prelude::*;

verus! {

/// Share of a sale price paid to the creator beneficiary, in percent.
pub const CREATOR_FEE_PERCENT: u64 = 5;

/// Share of a sale price paid to the platform beneficiary, in percent.
pub const PLATFORM_FEE_PERCENT: u64 = 2;

/// The creator's fee on a sale at `price`: 5% of it, truncated.
pub open spec fn creator_fee(price: int) -> int {
    price * CREATOR_FEE_PERCENT / 100
}

/// The platform's fee on a sale at `price`: 2% of it, truncated.
pub open spec fn platform_fee(price: int) -> int {
    price * PLATFORM_FEE_PERCENT / 100
}

/// Both fees together.
pub open spec fn total_fee(price: int) -> int {
    creator_fee(price) + platform_fee(price)
}

/// What the seller receives: the price less both fees. The remainder left by
/// truncating the fees stays with the seller.
pub open spec fn seller_proceeds(price: int) -> int {
    price - total_fee(price)
}

/// For a non-negative price, both fees are non-negative and together never
/// exceed the price, so the seller's proceeds are non-negative.
pub proof fn lemma_fees_within_price(price: int)
    requires
        0 <= price,
    ensures
        0 <= creator_fee(price) <= price,
        0 <= platform_fee(price) <= price,
        total_fee(price) <= price,
        0 <= seller_proceeds(price) <= price,
{
    assert(0 <= price * 5 / 100 <= price) by (nonlinear_arith)
        requires
            0 <= price,
    ;
    assert(0 <= price * 2 / 100 <= price) by (nonlinear_arith)
        requires
            0 <= price,
    ;
    assert(price * 5 / 100 + price * 2 / 100 <= price) by (nonlinear_arith)
        requires
            0 <= price,
    ;
}

/// The creator's fee on a sale at `price`.
pub fn calculate_creator_fee(price: u64) -> (r: u64)
    ensures
        r == creator_fee(price as int),
{
    proof {
        lemma_fees_within_price(price as int);
    }
    ((price as u128) * (CREATOR_FEE_PERCENT as u128) / 100) as u64
}

/// The platform's fee on a sale at `price`.
pub fn calculate_bark_fee(price: u64) -> (r: u64)
    ensures
        r == platform_fee(price as int),
{
    proof {
        lemma_fees_within_price(price as int);
    }
    ((price as u128) * (PLATFORM_FEE_PERCENT as u128) / 100) as u64
}

/// What the seller receives from a sale at `price`.
pub fn calculate_seller_proceeds(price: u64) -> (r: u64)
    ensures
        r == seller_proceeds(price as int),
        r as int + creator_fee(price as int) + platform_fee(price as int) == price as int,
{
    proof {
        lemma_fees_within_price(price as int);
    }
    let creator = calculate_creator_fee(price);
    let platform = calculate_bark_fee(price);
    price - (creator + platform)
}

} // verus!
