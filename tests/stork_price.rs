use anchor_lang::{AccountSerialize, Discriminator};
use stork_price::{
    canonical_value, get_stork_price_and_twap, get_stork_twap, price_to_fraction, read_feed,
    ten_pow, validate_stork_price, FeedError, Fraction, Price, PriceError, TimestampedPrice,
    FEED_ACCOUNT_MIN_LEN, NANOS_PER_SECOND, STORK_EXPONENT,
};
use stork_solana_sdk::temporal_numeric_value::{TemporalNumericValue, TemporalNumericValueFeed};

const ONE: i128 = 1_000_000_000_000_000_000;
const TWO_POW_60: u128 = 1 << 60;

fn pos(bits: u128) -> Option<Fraction> {
    Some(Fraction { negative: false, bits })
}

fn neg(bits: u128) -> Option<Fraction> {
    Some(Fraction { negative: true, bits })
}

fn feed_bytes(id: [u8; 32], timestamp_ns: u64, quantized_value: i128) -> Vec<u8> {
    let feed = TemporalNumericValueFeed {
        id,
        latest_value: TemporalNumericValue { timestamp_ns, quantized_value },
    };
    let mut buf: Vec<u8> = Vec::new();
    feed.try_serialize(&mut buf).unwrap();
    buf
}

fn hand_written_feed(id: [u8; 32], timestamp_ns: u64, quantized_value: i128) -> Vec<u8> {
    let mut buf: Vec<u8> = vec![37, 166, 65, 196, 29, 105, 97, 161];
    buf.extend_from_slice(&id);
    buf.extend_from_slice(&timestamp_ns.to_le_bytes());
    buf.extend_from_slice(&quantized_value.to_le_bytes());
    buf
}

#[test]
fn feed_tag_is_anchor_discriminator() {
    assert_eq!(
        TemporalNumericValueFeed::DISCRIMINATOR,
        &[37u8, 166, 65, 196, 29, 105, 97, 161][..]
    );
    let a = feed_bytes([7u8; 32], 5, -9);
    let b = hand_written_feed([7u8; 32], 5, -9);
    assert_eq!(a, b);
    assert_eq!(a.len(), FEED_ACCOUNT_MIN_LEN);
}

#[test]
fn read_feed_decodes_fields() {
    let mut id = [0u8; 32];
    id[0] = 1;
    id[31] = 200;
    let data = hand_written_feed(id, 1_234_567_890, -42 * ONE);
    let feed = read_feed(&data).unwrap();
    assert_eq!(feed.id, id);
    assert_eq!(feed.latest_value.timestamp_ns, 1_234_567_890);
    assert_eq!(feed.latest_value.quantized_value, -42 * ONE);
}

#[test]
fn read_feed_ignores_trailing_bytes() {
    let mut data = feed_bytes([3u8; 32], 10, ONE);
    data.extend_from_slice(&[0u8; 56]);
    let feed = read_feed(&data).unwrap();
    assert_eq!(feed.latest_value.quantized_value, ONE);
}

#[test]
fn read_feed_rejects_short_buffer() {
    let data = feed_bytes([3u8; 32], 10, ONE);
    assert!(matches!(
        read_feed(&data[..63]),
        Err(FeedError::FeedDeserializationError)
    ));
    assert!(matches!(read_feed(&data[..4]), Err(FeedError::FeedDeserializationError)));
    assert!(matches!(read_feed(&[]), Err(FeedError::FeedDeserializationError)));
}

#[test]
fn read_feed_rejects_wrong_tag() {
    let mut data = feed_bytes([3u8; 32], 10, ONE);
    data[0] ^= 1;
    assert!(matches!(read_feed(&data), Err(FeedError::FeedDeserializationError)));
}

#[test]
fn canonical_value_needs_matching_id() {
    let data = feed_bytes([9u8; 32], 77, 5 * ONE);
    let feed = read_feed(&data).unwrap();
    let v = canonical_value(&feed, &[9u8; 32]).unwrap();
    assert_eq!(v.timestamp_ns, 77);
    assert_eq!(v.quantized_value, 5 * ONE);
    assert!(matches!(canonical_value(&feed, &[8u8; 32]), Err(FeedError::ValueNotFound)));
}

#[test]
fn validate_accepts_one_whole_unit() {
    assert_eq!(validate_stork_price(ONE), Ok(()));
    assert_eq!(validate_stork_price(-ONE), Ok(()));
    assert_eq!(validate_stork_price(1_500_000_000_000_000_000), Ok(()));
    assert_eq!(validate_stork_price(u64::MAX as i128 * ONE), Ok(()));
}

#[test]
fn validate_rejects_below_one_unit() {
    assert_eq!(validate_stork_price(0), Err(PriceError::PriceIsZero));
    assert_eq!(validate_stork_price(ONE - 1), Err(PriceError::PriceIsZero));
    assert_eq!(validate_stork_price(-(ONE - 1)), Err(PriceError::PriceIsZero));
    assert_eq!(validate_stork_price(1), Err(PriceError::PriceIsZero));
}

#[test]
fn validate_saturates_huge_values_to_zero() {
    assert_eq!(validate_stork_price((u64::MAX as i128 + 1) * ONE), Err(PriceError::PriceIsZero));
    assert_eq!(validate_stork_price(i128::MAX), Err(PriceError::PriceIsZero));
    assert_eq!(validate_stork_price(i128::MIN), Err(PriceError::PriceIsZero));
}

#[test]
fn ten_pow_values() {
    assert_eq!(ten_pow(0), 1);
    assert_eq!(ten_pow(1), 10);
    assert_eq!(ten_pow(18), ONE as u128);
    assert_eq!(ten_pow(38), 100_000_000_000_000_000_000_000_000_000_000_000_000u128);
}

#[test]
fn fraction_of_valid_price() {
    let p = Price { value: 1_500_000_000_000_000_000, exp: STORK_EXPONENT };
    assert_eq!(price_to_fraction(p), pos(TWO_POW_60 + TWO_POW_60 / 2));
    let n = Price { value: -2_500_000_000_000_000_000, exp: STORK_EXPONENT };
    assert_eq!(price_to_fraction(n), neg(2 * TWO_POW_60 + TWO_POW_60 / 2));
    let whole = Price { value: 42 * ONE, exp: STORK_EXPONENT };
    assert_eq!(price_to_fraction(whole), pos(42 * TWO_POW_60));
}

#[test]
fn fraction_truncates_toward_zero() {
    assert_eq!(
        price_to_fraction(Price { value: 1, exp: 1 }),
        pos(115_292_150_460_684_697)
    );
    assert_eq!(
        price_to_fraction(Price { value: -1, exp: 1 }),
        neg(115_292_150_460_684_697)
    );
    assert_eq!(price_to_fraction(Price { value: 0, exp: 18 }), pos(0));
    assert_eq!(price_to_fraction(Price { value: -1, exp: 38 }), pos(0));
}

#[test]
fn fraction_out_of_range() {
    assert_eq!(price_to_fraction(Price { value: 1, exp: 39 }), None);
    assert_eq!(price_to_fraction(Price { value: i128::MAX, exp: 0 }), None);
    assert_eq!(price_to_fraction(Price { value: 1 << 68, exp: 0 }), None);
    assert_eq!(price_to_fraction(Price { value: -(1 << 68), exp: 0 }), None);
    assert_eq!(
        price_to_fraction(Price { value: (1 << 68) - 1, exp: 0 }),
        pos(((1u128 << 68) - 1) << 60)
    );
    assert_eq!(
        price_to_fraction(Price { value: i128::MAX, exp: 38 }),
        pos(1_961_594_292_308_337_738)
    );
}

#[test]
fn extreme_stork_values_resolve() {
    assert_eq!(
        price_to_fraction(Price { value: i128::MAX, exp: STORK_EXPONENT }),
        pos(196_159_429_230_833_773_869_868_419_475_239_575_502)
    );
    assert_eq!(
        price_to_fraction(Price { value: i128::MIN, exp: STORK_EXPONENT }),
        neg(196_159_429_230_833_773_869_868_419_475_239_575_503)
    );
    let v = TemporalNumericValue { timestamp_ns: 0, quantized_value: i128::MAX };
    assert!(TimestampedPrice::from(v).load_price().is_some());
    let w = TemporalNumericValue { timestamp_ns: 0, quantized_value: i128::MIN };
    assert!(TimestampedPrice::from(w).load_price().is_some());
}

#[test]
fn nanosecond_timestamp_truncates_to_seconds() {
    let v = TemporalNumericValue { timestamp_ns: 1_700_000_000_123_456_789, quantized_value: ONE };
    let tp = TimestampedPrice::from(v);
    assert_eq!(tp.timestamp, 1_700_000_000);
    assert_eq!(tp.price_load, Price { value: ONE, exp: 18 });
    let late = TemporalNumericValue { timestamp_ns: 1_999_999_999, quantized_value: ONE };
    assert_eq!(TimestampedPrice::from(late).timestamp, 1);
    assert_eq!(NANOS_PER_SECOND, 1_000_000_000);
}

#[test]
fn malformed_primary_fails_price_not_valid() {
    let good_twap = feed_bytes([1u8; 32], 1, 3 * ONE);
    let short = vec![37u8, 166, 65, 196];
    assert_eq!(get_stork_price_and_twap(&short, None), Err(PriceError::PriceNotValid));
    assert_eq!(
        get_stork_price_and_twap(&short, Some(&good_twap)),
        Err(PriceError::PriceNotValid)
    );
    let mut bad_tag = feed_bytes([1u8; 32], 1, 3 * ONE);
    bad_tag[7] = 0;
    assert_eq!(
        get_stork_price_and_twap(&bad_tag, Some(&good_twap)),
        Err(PriceError::PriceNotValid)
    );
}

#[test]
fn zero_primary_fails_price_is_zero() {
    let good_twap = feed_bytes([1u8; 32], 1, 3 * ONE);
    let zero = feed_bytes([1u8; 32], 1, ONE - 1);
    assert_eq!(get_stork_price_and_twap(&zero, None), Err(PriceError::PriceIsZero));
    assert_eq!(get_stork_price_and_twap(&zero, Some(&good_twap)), Err(PriceError::PriceIsZero));
}

#[test]
fn valid_primary_without_twap() {
    let data = feed_bytes([4u8; 32], 1_700_000_000_123_456_789, 2 * ONE);
    let r = get_stork_price_and_twap(&data, None).unwrap();
    assert_eq!(r.twap, None);
    assert_eq!(r.price.timestamp, 1_700_000_000);
    assert_eq!(r.price.price_load, Price { value: 2 * ONE, exp: 18 });
    assert_eq!(r.price.load_price(), pos(2 * TWO_POW_60));
}

#[test]
fn zero_twap_is_dropped() {
    let data = feed_bytes([4u8; 32], 5_000_000_000, 2 * ONE);
    let twap = feed_bytes([4u8; 32], 6_000_000_000, 0);
    let r = get_stork_price_and_twap(&data, Some(&twap)).unwrap();
    assert_eq!(r.twap, None);
    assert_eq!(r.price.timestamp, 5);
    assert_eq!(r.price.load_price(), pos(2 * TWO_POW_60));
}

#[test]
fn valid_twap_is_kept() {
    let data = feed_bytes([4u8; 32], 5_000_000_000, 2 * ONE);
    let twap = feed_bytes([4u8; 32], 6_500_000_000, 3 * ONE);
    let r = get_stork_price_and_twap(&data, Some(&twap)).unwrap();
    let t = r.twap.unwrap();
    assert_eq!(t.timestamp, 6);
    assert_eq!(t.price_load, Price { value: 3 * ONE, exp: 18 });
    assert_eq!(t.load_price(), pos(3 * TWO_POW_60));
}

#[test]
fn twap_with_other_id_or_bad_bytes_is_dropped() {
    let data = feed_bytes([4u8; 32], 5_000_000_000, 2 * ONE);
    let other_id = feed_bytes([5u8; 32], 6_000_000_000, 3 * ONE);
    assert_eq!(get_stork_price_and_twap(&data, Some(&other_id)).unwrap().twap, None);
    let short = vec![0u8; 10];
    assert_eq!(get_stork_price_and_twap(&data, Some(&short)).unwrap().twap, None);
    assert_eq!(get_stork_twap(&other_id, &[4u8; 32]), None);
    assert_eq!(
        get_stork_twap(&other_id, &[5u8; 32]),
        Some(TimestampedPrice { price_load: Price { value: 3 * ONE, exp: 18 }, timestamp: 6 })
    );
}

#[test]
fn same_inputs_give_same_output() {
    let data = feed_bytes([4u8; 32], 5_000_000_000, 2 * ONE);
    let twap = feed_bytes([4u8; 32], 6_500_000_000, 3 * ONE);
    let a = get_stork_price_and_twap(&data, Some(&twap));
    let b = get_stork_price_and_twap(&data.clone(), Some(&twap.clone()));
    assert_eq!(a, b);
    assert_eq!(get_stork_price_and_twap(&data, None), get_stork_price_and_twap(&data, None));
}
