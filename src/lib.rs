//! Turns a Stork price-feed account into the timestamped price, and the
//! optional time-weighted average price, that a lending market values
//! collateral and debt with.

mod feed;
mod fraction;
mod laws;
mod price;

pub use feed::{
    canonical_value, lemma_account_fields_in_range, read_feed, FeedError, DISCRIMINATOR_LEN,
    FEED_ACCOUNT_MIN_LEN,
};
pub use fraction::{
    price_to_fraction, ten_pow, Fraction, Price, FRACTION_BITS, MAX_DECIMAL_EXP,
};
pub use price::{
    get_stork_price_and_twap, get_stork_twap, validate_stork_price, PriceError, TimestampedPrice,
    TimestampedPriceWithTwap, NANOS_PER_SECOND, STORK_EXPONENT,
};
pub use laws::{
    lemma_account_price_exact, lemma_malformed_price_account_rejected, lemma_price_without_twap,
    lemma_same_inputs_same_result, lemma_small_price_rejected, lemma_success_from_price_alone, lemma_valid_price_resolves,
    lemma_zero_twap_dropped,
};
