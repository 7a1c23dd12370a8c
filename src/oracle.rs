use vstd::prelude::*;

use crate::constant::STALENESS_THRESHOLD;
use crate::error::PresaleError;
use crate::state::Address;

verus! {

/// Identity of the trusted SOL/USD price feed
/// (H6ARHf6YXhGYeQfUzQNGk6rDNnLBQKrenN712K4AQJEG).
pub const SOL_USD_FEED: [u8; 32] = [
    239, 13, 139, 111, 218, 44, 235, 164, 29, 161, 93, 64, 149, 209, 218, 57,
    42, 13, 47, 142, 208, 198, 199, 188, 15, 76, 250, 200, 194, 128, 181, 109,
];

/// A price feed account as read for a purchase: its identity and its
/// current price (mantissa with two implied decimals, confidence, exponent,
/// publish time in Unix seconds).
#[derive(Debug, Clone, Copy)]
pub struct PriceSnapshot {
    pub feed: Address,
    pub price: i64,
    pub conf: u64,
    pub expo: i32,
    pub publish_time: i64,
}

/// Whether a price published at `publish_time` may be used at `now`.
pub open spec fn is_fresh(publish_time: int, now: int, age: int) -> bool {
    let d = publish_time - now;
    (if d < 0 { -d } else { d }) <= age
}

/// Why the snapshot yields no usable price at `now`, if it does not.
pub open spec fn price_refusal(snap: PriceSnapshot, now: int) -> Option<PresaleError> {
    if snap.feed.bytes@ != SOL_USD_FEED@ {
        Some(PresaleError::InvalidPriceFeed)
    } else if !is_fresh(snap.publish_time as int, now, STALENESS_THRESHOLD as int) {
        Some(PresaleError::StalePriceFeed)
    } else if snap.price <= 0 {
        Some(PresaleError::InvalidPriceFeed)
    } else {
        None
    }
}

/// Relies on `PriceFeed::get_price_no_older_than` (pyth_sdk, re-exported by
/// pyth_sdk_solana), which returns
/// the stored price exactly when the absolute difference between its publish
/// time and `now` is at most `age`. The subtraction there must not overflow.
#[verifier::external_body]
fn price_no_older_than(snap: &PriceSnapshot, now: i64, age: u64) -> (r: Option<i64>)
    requires
        i64::MIN < snap.publish_time - now <= i64::MAX,
    ensures
        is_fresh(snap.publish_time as int, now as int, age as int) ==> r == Some(snap.price),
        !is_fresh(snap.publish_time as int, now as int, age as int) ==> r.is_none(),
{
    let price = pyth_sdk_solana::Price {
        price: snap.price,
        conf: snap.conf,
        expo: snap.expo,
        publish_time: snap.publish_time,
    };
    let feed = pyth_sdk_solana::PriceFeed::new(pyth_sdk_solana::PriceIdentifier::new(snap.feed.bytes), price, price);
    feed.get_price_no_older_than(now, age).map(|p| p.price)
}

/// The price to settle a purchase at `now`: the snapshot must come from the
/// trusted feed, be at most a minute old (or ahead), and be positive.
pub fn current_price(snap: &PriceSnapshot, now: i64) -> (r: Result<i64, PresaleError>)
    ensures
        match price_refusal(*snap, now as int) {
            Some(e) => r == Err::<i64, PresaleError>(e),
            None => r == Ok::<i64, PresaleError>(snap.price),
        },
{
    let trusted = Address::new(SOL_USD_FEED);
    if !snap.feed.same_as(&trusted) {
        return Err(PresaleError::InvalidPriceFeed);
    }
    let diff: i128 = snap.publish_time as i128 - now as i128;
    if diff <= i64::MIN as i128 || diff > i64::MAX as i128 {
        return Err(PresaleError::StalePriceFeed);
    }
    match price_no_older_than(snap, now, STALENESS_THRESHOLD) {
        None => Err(PresaleError::StalePriceFeed),
        Some(price) => {
            if price <= 0 {
                Err(PresaleError::InvalidPriceFeed)
            } else {
                Ok(price)
            }
        },
    }
}

} // verus!
