use crate::feed::{
    account_feed_id, account_quantized_value, account_timestamp_ns, is_feed_account,
    lemma_account_fields_in_range, lemma_le_i128_bounds,
};
use crate::fraction::{
    abs, fraction_bits, lemma_split_quotient, pow10, price_converts, price_fraction, Fraction,
    Price, FRACTION_BITS,
};
use crate::price::{
    account_price, lemma_pow10_18, stork_price_and_twap, stork_price_is_valid, PriceError,
    TimestampedPriceWithTwap, NANOS_PER_SECOND, STORK_EXPONENT,
};
use vstd::arithmetic::div_mod::{
    lemma_div_pos_is_pos, lemma_fundamental_div_mod_converse, lemma_mod_pos_bound,
};
use vstd::arithmetic::power2::{lemma2_to64, lemma2_to64_rest, pow2};
use vstd::prelude::*;

verus! {

/// A Stork value of at least one whole unit that fits in a `u64` once scaled
/// passes validation, and its price converts to the fixed-point fraction of
/// `value / 10^18`, with the value's sign and with `|value| / 10^18` as its
/// whole part.
pub proof fn lemma_valid_price_resolves(value: i128)
    requires
        abs(value as int) >= pow10(STORK_EXPONENT as nat),
        abs(value as int) / pow10(STORK_EXPONENT as nat) <= u64::MAX,
    ensures
        stork_price_is_valid(value as int),
        price_fraction(Price { value, exp: STORK_EXPONENT }) == Some(
            Fraction {
                negative: value < 0,
                bits: fraction_bits(value as int, STORK_EXPONENT as nat) as u128,
            },
        ),
        fraction_bits(value as int, STORK_EXPONENT as nat) / (pow2(FRACTION_BITS as nat) as int) == abs(
            value as int,
        ) / pow10(STORK_EXPONENT as nat),
{
    lemma_pow10_18();
    lemma2_to64();
    lemma2_to64_rest();
    let m = abs(value as int);
    let d = pow10(STORK_EXPONENT as nat);
    let p = pow2(FRACTION_BITS as nat) as int;
    let whole = m / d;
    let rem = m % d;
    lemma_div_pos_is_pos(m, d);
    lemma_mod_pos_bound(m, d);
    vstd::arithmetic::div_mod::lemma_div_is_ordered(d, m, d);
    vstd::arithmetic::div_mod::lemma_div_by_self(d);
    lemma_split_quotient(m, d, whole, rem);
    let f = rem * p / d;
    assert(0 <= f < p) by {
        assert(rem * p < d * p) by (nonlinear_arith)
            requires
                rem < d,
                p > 0,
        {
        }
        vstd::arithmetic::div_mod::lemma_div_pos_is_pos(rem * p, d);
        vstd::arithmetic::div_mod::lemma_multiply_divide_lt(rem * p, d, p);
        vstd::arithmetic::mul::lemma_mul_is_commutative(d, p);
    }
    assert(p <= whole * p + f <= u128::MAX) by (nonlinear_arith)
        requires
            1 <= whole <= u64::MAX,
            0 <= f < p,
            p == 0x1000000000000000,
    {
    }
    lemma_fundamental_div_mod_converse(whole * p + f, p, whole, f);
    assert(price_converts(Price { value, exp: STORK_EXPONENT }));
}

/// A Stork value below one whole unit fails validation.
pub proof fn lemma_small_price_rejected(value: i128)
    requires
        abs(value as int) < pow10(STORK_EXPONENT as nat),
    ensures
        !stork_price_is_valid(value as int),
{
    lemma_pow10_18();
    vstd::arithmetic::div_mod::lemma_basic_div(abs(value as int), pow10(STORK_EXPONENT as nat));
}

/// A main buffer that is not a feed account makes the read fail with
/// `PriceNotValid`, whatever the average buffer holds.
pub proof fn lemma_malformed_price_account_rejected(
    price: Seq<u8>,
    twap: Option<Seq<u8>>,
    other_twap: Option<Seq<u8>>,
)
    requires
        !is_feed_account(price),
    ensures
        stork_price_and_twap(price, twap) == Err::<TimestampedPriceWithTwap, PriceError>(
            PriceError::PriceNotValid,
        ),
        stork_price_and_twap(price, twap) == stork_price_and_twap(price, other_twap),
{
}

/// With a valid main buffer and no average buffer, the read succeeds with no
/// average, and its price converts to a fraction.
pub proof fn lemma_price_without_twap(price: Seq<u8>)
    requires
        is_feed_account(price),
        stork_price_is_valid(account_quantized_value(price)),
    ensures
        stork_price_and_twap(price, None) == Ok::<TimestampedPriceWithTwap, PriceError>(
            TimestampedPriceWithTwap { price: account_price(price), twap: None },
        ),
        price_fraction(account_price(price).price_load) is Some,
{
    lemma_valid_account_resolves(price);
}

/// With a valid main buffer, an average buffer whose value is zero in whole
/// units leaves the read successful, with no average.
pub proof fn lemma_zero_twap_dropped(price: Seq<u8>, twap: Seq<u8>)
    requires
        is_feed_account(price),
        stork_price_is_valid(account_quantized_value(price)),
        is_feed_account(twap),
        !stork_price_is_valid(account_quantized_value(twap)),
    ensures
        stork_price_and_twap(price, Some(twap)) == Ok::<TimestampedPriceWithTwap, PriceError>(
            TimestampedPriceWithTwap { price: account_price(price), twap: None },
        ),
        price_fraction(account_price(price).price_load) is Some,
{
    lemma_valid_account_resolves(price);
}

/// Whether the read succeeds depends on the main buffer alone, and every
/// price it returns, the average included, is valid and converts; the average
/// was published under the main feed's identifier.
pub proof fn lemma_success_from_price_alone(
    price: Seq<u8>,
    twap: Option<Seq<u8>>,
    other_twap: Option<Seq<u8>>,
)
    ensures
        stork_price_and_twap(price, twap) is Ok <==> stork_price_and_twap(price, other_twap) is Ok,
        stork_price_and_twap(price, twap) is Err ==> stork_price_and_twap(price, twap)
            == stork_price_and_twap(price, other_twap),
        stork_price_and_twap(price, twap) is Ok ==> {
            let r = stork_price_and_twap(price, twap)->Ok_0;
            &&& stork_price_is_valid(r.price.price_load.value as int)
            &&& price_fraction(r.price.price_load) is Some
            &&& r.twap is Some ==> {
                &&& twap is Some
                &&& account_feed_id(twap->Some_0) == account_feed_id(price)
                &&& stork_price_is_valid(r.twap->Some_0.price_load.value as int)
                &&& price_fraction(r.twap->Some_0.price_load) is Some
            }
        },
{
    if is_feed_account(price) && stork_price_is_valid(account_quantized_value(price)) {
        lemma_valid_account_resolves(price);
        if let Some(t) = twap {
            if is_feed_account(t) && stork_price_is_valid(account_quantized_value(t)) {
                lemma_valid_account_resolves(t);
            }
        }
    }
}

/// The price read from a feed account carries the account's quantized value
/// unchanged, Stork's exponent, and the account's timestamp in whole seconds.
pub proof fn lemma_account_price_exact(data: Seq<u8>)
    requires
        is_feed_account(data),
    ensures
        account_price(data).price_load.value == account_quantized_value(data),
        account_price(data).price_load.exp == STORK_EXPONENT,
        account_price(data).timestamp == account_timestamp_ns(data) / (NANOS_PER_SECOND as nat),
{
    lemma_account_fields_in_range(data);
}

/// Two reads of the same bytes give the same result.
pub proof fn lemma_same_inputs_same_result(
    price: Seq<u8>,
    twap: Option<Seq<u8>>,
    price2: Seq<u8>,
    twap2: Option<Seq<u8>>,
)
    requires
        price == price2,
        twap == twap2,
    ensures
        stork_price_and_twap(price, twap) == stork_price_and_twap(price2, twap2),
{
}

/// The validated value of a feed account converts to a fraction.
proof fn lemma_valid_account_resolves(data: Seq<u8>)
    requires
        is_feed_account(data),
        stork_price_is_valid(account_quantized_value(data)),
    ensures
        price_fraction(account_price(data).price_load) is Some,
        account_price(data).price_load.value == account_quantized_value(data),
{
    lemma_le_i128_bounds(data.subrange(48, 64));
    let value = account_quantized_value(data) as i128;
    lemma_pow10_18();
    let m = abs(value as int);
    let d = pow10(STORK_EXPONENT as nat);
    if m < d {
        vstd::arithmetic::div_mod::lemma_basic_div(m, d);
    }
    lemma_valid_price_resolves(value);
}

} // verus!
