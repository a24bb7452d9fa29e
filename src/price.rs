use crate::feed::{
    account_feed_id, account_quantized_value, account_timestamp_ns, canonical_value,
    is_feed_account, read_feed,
};
use crate::fraction::{abs, magnitude, pow10, price_fraction, price_to_fraction, ten_pow, Fraction,
    Price};
use stork_solana_sdk::temporal_numeric_value::TemporalNumericValue;
use vstd::prelude::*;

verus! {

/// Number of decimal places in a Stork quantized value.
pub const STORK_EXPONENT: u32 = 18;

/// The two ways in which reading a price can fail.
#[derive(Debug, Clone, Copy, PartialEq, Eq, Structural)]
pub enum PriceError {
    /// The feed could not be decoded, or holds no value for its identifier.
    PriceNotValid,
    /// The value is zero once scaled down to whole units.
    PriceIsZero,
}

/// Whole units of a quantized value with Stork's exponent, saturated to zero
/// when they do not fit in a `u64`.
pub open spec fn stork_whole_units(v: int) -> int {
    let units = abs(v) / pow10(STORK_EXPONENT as nat);
    if units > u64::MAX {
        0
    } else {
        units
    }
}

/// A quantized value is accepted when its whole units are not zero.
pub open spec fn stork_price_is_valid(v: int) -> bool {
    stork_whole_units(v) != 0
}

/// The value of Stork's scale.
pub proof fn lemma_pow10_18()
    ensures
        pow10(18) == 1_000_000_000_000_000_000,
{
    reveal_with_fuel(pow10, 19);
}

/// Accepts a Stork quantized value whose whole units, saturated to `u64`,
/// are not zero.
pub fn validate_stork_price(price_value: i128) -> (r: Result<(), PriceError>)
    ensures
        r is Ok <==> stork_price_is_valid(price_value as int),
        r is Err ==> r == Err::<(), PriceError>(PriceError::PriceIsZero),
{
    let units: u128 = magnitude(price_value) / ten_pow(STORK_EXPONENT);
    let price: u64 = if units > u64::MAX as u128 {
        0
    } else {
        units as u64
    };
    if price == 0 {
        return Err(PriceError::PriceIsZero);
    }
    Ok(())
}

/// Nanoseconds in a second.
pub const NANOS_PER_SECOND: u64 = 1_000_000_000;

/// A price whose fixed-point value is computed only when asked for, with the
/// unix time, in whole seconds, at which it was published.
#[derive(Debug, Clone, Copy, PartialEq, Eq, Structural)]
pub struct TimestampedPrice {
    /// The quantized value and exponent that [`TimestampedPrice::load_price`] converts.
    pub price_load: Price,
    pub timestamp: u64,
}

impl TimestampedPrice {
    /// Converts the pending price into a [`Fraction`].
    pub fn load_price(&self) -> (r: Option<Fraction>)
        ensures
            r == price_fraction(self.price_load),
            self.price_load.exp == STORK_EXPONENT ==> r is Some,
    {
        price_to_fraction(self.price_load)
    }
}

/// The price read from a Stork value: its quantized value with Stork's
/// exponent, and its timestamp truncated to whole seconds.
pub open spec fn stork_timestamped_price(v: TemporalNumericValue) -> TimestampedPrice {
    TimestampedPrice {
        price_load: Price { value: v.quantized_value, exp: STORK_EXPONENT },
        timestamp: (v.timestamp_ns / NANOS_PER_SECOND) as u64,
    }
}

impl From<TemporalNumericValue> for TimestampedPrice {
    fn from(stork_price: TemporalNumericValue) -> (r: Self) {
        let timestamp: u64 = stork_price.timestamp_ns / NANOS_PER_SECOND;
        TimestampedPrice {
            price_load: Price { value: stork_price.quantized_value, exp: STORK_EXPONENT },
            timestamp,
        }
    }
}

impl vstd::std_specs::convert::FromSpecImpl<TemporalNumericValue> for TimestampedPrice {
    open spec fn obeys_from_spec() -> bool {
        true
    }

    open spec fn from_spec(v: TemporalNumericValue) -> Self {
        stork_timestamped_price(v)
    }
}

/// The main price and, when it could be read, the time-weighted average.
#[derive(Debug, Clone, Copy, PartialEq, Eq, Structural)]
pub struct TimestampedPriceWithTwap {
    pub price: TimestampedPrice,
    pub twap: Option<TimestampedPrice>,
}

/// The price that a feed account's bytes hold.
pub open spec fn account_price(data: Seq<u8>) -> TimestampedPrice {
    TimestampedPrice {
        price_load: Price { value: account_quantized_value(data) as i128, exp: STORK_EXPONENT },
        timestamp: (account_timestamp_ns(data) / (NANOS_PER_SECOND as nat)) as u64,
    }
}

/// The average price that a buffer yields for an identifier: present only
/// when the buffer decodes, is published under that identifier, and holds a
/// valid value.
pub open spec fn twap_price(data: Seq<u8>, feed_id: Seq<u8>) -> Option<TimestampedPrice> {
    if is_feed_account(data) && account_feed_id(data) == feed_id && stork_price_is_valid(
        account_quantized_value(data),
    ) {
        Some(account_price(data))
    } else {
        None
    }
}

pub open spec fn optional_twap(twap: Option<Seq<u8>>, feed_id: Seq<u8>) -> Option<TimestampedPrice> {
    match twap {
        Some(data) => twap_price(data, feed_id),
        None => None,
    }
}

pub open spec fn bytes_view(o: Option<&[u8]>) -> Option<Seq<u8>> {
    match o {
        Some(data) => Some(data@),
        None => None,
    }
}

/// What reading a main feed and an optional average feed yields: errors
/// come from the main feed alone.
pub open spec fn stork_price_and_twap(price: Seq<u8>, twap: Option<Seq<u8>>) -> Result<
    TimestampedPriceWithTwap,
    PriceError,
> {
    if !is_feed_account(price) {
        Err(PriceError::PriceNotValid)
    } else if !stork_price_is_valid(account_quantized_value(price)) {
        Err(PriceError::PriceIsZero)
    } else {
        Ok(
            TimestampedPriceWithTwap {
                price: account_price(price),
                twap: optional_twap(twap, account_feed_id(price)),
            },
        )
    }
}

/// Reads the average price for an identifier from a buffer; any failure
/// gives `None`.
pub fn get_stork_twap(twap_data: &[u8], feed_id: &[u8; 32]) -> (r: Option<TimestampedPrice>)
    ensures
        r == twap_price(twap_data@, feed_id@),
{
    let feed = match read_feed(twap_data) {
        Ok(feed) => feed,
        Err(_) => return None,
    };
    let value = match canonical_value(&feed, feed_id) {
        Ok(value) => value,
        Err(_) => return None,
    };
    match validate_stork_price(value.quantized_value) {
        Ok(()) => Some(TimestampedPrice::from(value)),
        Err(_) => None,
    }
}

/// Reads the main price from one feed account and, at best effort, the
/// average price for the same identifier from another.
pub fn get_stork_price_and_twap(price_data: &[u8], twap_data: Option<&[u8]>) -> (r: Result<
    TimestampedPriceWithTwap,
    PriceError,
>)
    ensures
        r == stork_price_and_twap(price_data@, bytes_view(twap_data)),
{
    let price_feed = match read_feed(price_data) {
        Ok(feed) => feed,
        Err(_) => return Err(PriceError::PriceNotValid),
    };
    let feed_id: [u8; 32] = price_feed.id;
    let price = match canonical_value(&price_feed, &feed_id) {
        Ok(value) => value,
        Err(_) => return Err(PriceError::PriceNotValid),
    };
    match validate_stork_price(price.quantized_value) {
        Ok(()) => {},
        Err(e) => return Err(e),
    }
    let twap: Option<TimestampedPrice> = match twap_data {
        Some(data) => get_stork_twap(data, &feed_id),
        None => None,
    };
    Ok(TimestampedPriceWithTwap { price: TimestampedPrice::from(price), twap })
}

} // verus!
