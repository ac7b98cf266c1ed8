use vstd::prelude::*;
use vstd::arithmetic::div_mod::{lemma_fundamental_div_mod, lemma_hoist_over_denominator};

verus! {

/// Parts-per-ten-thousand denominator shared by every rate.
pub const RATE_DENOMINATOR: u128 = 10000;

/// The share `rate / 10000` of `amount`, truncated toward zero.
pub open spec fn portion(amount: int, rate: int) -> int {
    rate * amount / 10000
}

/// The next acceptable bid after a highest bid of `highest`, before it is
/// capped at the largest balance.
pub open spec fn raised_bid(highest: int, increment_rate: int) -> int {
    highest + portion(highest, increment_rate)
}

/// `x`, or the largest balance where `x` is beyond it.
pub open spec fn capped(x: int) -> int {
    if x > u128::MAX {
        u128::MAX as int
    } else {
        x
    }
}

proof fn lemma_portion_split(amount: int, rate: int)
    requires
        amount >= 0,
        rate >= 0,
    ensures
        portion(amount, rate) == (amount / 10000) * rate + (amount % 10000) * rate / 10000,
{
    let q = amount / 10000;
    let m = amount % 10000;
    lemma_fundamental_div_mod(amount, 10000);
    assert(rate * amount == m * rate + (q * rate) * 10000) by (nonlinear_arith)
        requires
            amount == 10000 * q + m,
    ;
    lemma_hoist_over_denominator(m * rate, q * rate, 10000);
}

/// The share `rate / 10000` of `amount`, or `None` where it exceeds the
/// largest balance.
pub fn portion_of(amount: u128, rate: u16) -> (r: Option<u128>)
    ensures
        match r {
            Some(v) => v == portion(amount as int, rate as int),
            None => portion(amount as int, rate as int) > u128::MAX,
        },
{
    proof {
        lemma_portion_split(amount as int, rate as int);
    }
    let q: u128 = amount / RATE_DENOMINATOR;
    let m: u128 = amount % RATE_DENOMINATOR;
    assert(m * (rate as u128) <= 10000 * 65535) by (nonlinear_arith)
        requires
            m < 10000,
            rate <= 65535,
    ;
    let low: u128 = m * (rate as u128) / RATE_DENOMINATOR;
    match q.checked_mul(rate as u128) {
        Some(high) => match high.checked_add(low) {
            Some(v) => Some(v),
            None => None,
        },
        None => None,
    }
}

/// Next minimum bid after a highest bid of `highest`: the highest bid raised
/// by `increment_rate` parts per ten thousand of itself, truncated, and capped
/// at the largest balance.
pub fn next_minimum_bid(highest: u128, increment_rate: u16) -> (r: u128)
    ensures
        r == capped(raised_bid(highest as int, increment_rate as int)),
        r >= highest,
{
    match portion_of(highest, increment_rate) {
        Some(p) => match highest.checked_add(p) {
            Some(v) => v,
            None => u128::MAX,
        },
        None => {
            assert(portion(highest as int, increment_rate as int) >= 0) by (nonlinear_arith)
                requires
                    highest >= 0,
                    increment_rate >= 0,
            ;
            u128::MAX
        },
    }
}

/// How the proceeds of one sale are divided.
#[derive(Clone, Copy, Debug, PartialEq, Eq)]
pub struct SalesBreakdown {
    pub seller_share: u128,
    pub royalties: u128,
    pub market_fees: u128,
}

/// Whether the marketplace fee and the royalty, each truncated, fit within
/// the sale price.
pub open spec fn fees_fit(price: int, fee_rate: int, royalty_rate: int) -> bool {
    portion(price, fee_rate) + portion(price, royalty_rate) <= price
}

/// The exact division of `price` at the given fee and royalty rates.
pub open spec fn breakdown_of(price: int, fee_rate: int, royalty_rate: int) -> SalesBreakdown {
    SalesBreakdown {
        seller_share: (price - portion(price, fee_rate) - portion(price, royalty_rate)) as u128,
        royalties: portion(price, royalty_rate) as u128,
        market_fees: portion(price, fee_rate) as u128,
    }
}

/// Divides `price` into the marketplace fee (`fee_rate` parts per ten
/// thousand), the royalty (`royalty_rate` parts per ten thousand) and the rest,
/// which goes to the seller. `None` where the fee and royalty together exceed
/// the price.
pub fn sales_breakdown(price: u128, fee_rate: u16, royalty_rate: u16) -> (r: Option<SalesBreakdown>)
    ensures
        r is Some <==> fees_fit(price as int, fee_rate as int, royalty_rate as int),
        r is Some ==> r->Some_0 == breakdown_of(price as int, fee_rate as int, royalty_rate as int),
{
    let fees = portion_of(price, fee_rate);
    let royalties = portion_of(price, royalty_rate);
    match (fees, royalties) {
        (Some(f), Some(roy)) => {
            if f > price || roy > price - f {
                None
            } else {
                Some(SalesBreakdown { seller_share: price - f - roy, royalties: roy, market_fees: f })
            }
        },
        _ => {
            assert(portion(price as int, fee_rate as int) >= 0 && portion(price as int, royalty_rate as int) >= 0) by (nonlinear_arith)
                requires
                    price >= 0,
                    fee_rate >= 0,
                    royalty_rate >= 0,
            ;
            None
        },
    }
}

/// Every sale's proceeds are divided without loss or excess: the seller's
/// share, the royalty and the marketplace fee add up to the sale price, and
/// the rounding remainder stays with the seller.
pub proof fn lemma_proceeds_conserved(price: u128, fee_rate: u16, royalty_rate: u16)
    requires
        fees_fit(price as int, fee_rate as int, royalty_rate as int),
    ensures
        ({
            let b = breakdown_of(price as int, fee_rate as int, royalty_rate as int);
            &&& b.seller_share + b.royalties + b.market_fees == price
            &&& b.market_fees == portion(price as int, fee_rate as int)
            &&& b.royalties == portion(price as int, royalty_rate as int)
        }),
{
    assert(portion(price as int, fee_rate as int) >= 0 && portion(price as int, royalty_rate as int) >= 0) by (nonlinear_arith)
        requires
            price >= 0,
            fee_rate >= 0,
            royalty_rate >= 0,
    ;
}

} // verus!
