use anchor_lang::AccountDeserialize;
use stork_solana_sdk::temporal_numeric_value::{TemporalNumericValue, TemporalNumericValueFeed};
use vstd::arithmetic::power2::{lemma2_to64, lemma_pow2_adds, pow2};
use vstd::prelude::*;

verus! {

#[verifier::external_type_specification]
pub struct ExTemporalNumericValue(TemporalNumericValue);

#[verifier::external_type_specification]
pub struct ExTemporalNumericValueFeed(TemporalNumericValueFeed);

#[verifier::external_type_specification]
#[verifier::external_body]
pub struct ExAnchorError(anchor_lang::error::Error);

/// Length of the account tag that Anchor writes before an account's fields.
pub const DISCRIMINATOR_LEN: usize = 8;

/// Bytes that a feed account needs: the tag, a 32-byte identifier, a `u64`
/// timestamp and an `i128` value.
pub const FEED_ACCOUNT_MIN_LEN: usize = 64;

/// The Anchor tag of a `TemporalNumericValueFeed` account: the first eight
/// bytes of SHA-256 of `"account:TemporalNumericValueFeed"`.
pub open spec fn feed_discriminator() -> Seq<u8> {
    seq![37u8, 166u8, 65u8, 196u8, 29u8, 105u8, 97u8, 161u8]
}

/// Unsigned little-endian value of a byte sequence.
pub open spec fn le_value(s: Seq<u8>) -> nat
    decreases s.len(),
{
    if s.len() == 0 {
        0
    } else {
        s[0] as nat + 256 * le_value(s.drop_first())
    }
}

/// Two's-complement value of sixteen little-endian bytes.
pub open spec fn le_i128(s: Seq<u8>) -> int {
    if le_value(s) > i128::MAX {
        le_value(s) - 0x1_0000_0000_0000_0000_0000_0000_0000_0000
    } else {
        le_value(s) as int
    }
}

/// A buffer holds a feed account when it is long enough and starts with the
/// feed's tag; bytes after the fields are not read.
pub open spec fn is_feed_account(data: Seq<u8>) -> bool {
    &&& data.len() >= FEED_ACCOUNT_MIN_LEN
    &&& data.subrange(0, DISCRIMINATOR_LEN as int) == feed_discriminator()
}

/// The asset identifier stored in a feed account.
pub open spec fn account_feed_id(data: Seq<u8>) -> Seq<u8> {
    data.subrange(8, 40)
}

/// The timestamp, in nanoseconds, of the value stored in a feed account.
pub open spec fn account_timestamp_ns(data: Seq<u8>) -> nat {
    le_value(data.subrange(40, 48))
}

/// The quantized value stored in a feed account.
pub open spec fn account_quantized_value(data: Seq<u8>) -> int {
    le_i128(data.subrange(48, 64))
}

proof fn lemma_le_value_bound(s: Seq<u8>)
    ensures
        le_value(s) < pow2(8 * s.len()),
    decreases s.len(),
{
    lemma2_to64();
    if s.len() > 0 {
        let rest = s.drop_first();
        lemma_le_value_bound(rest);
        lemma_pow2_adds(8, 8 * rest.len());
        assert(8 * s.len() == 8 + 8 * rest.len());
    }
}

/// The value of sixteen bytes lies in the range of an `i128`.
pub(crate) proof fn lemma_le_i128_bounds(s: Seq<u8>)
    requires
        s.len() == 16,
    ensures
        i128::MIN <= le_i128(s) <= i128::MAX,
{
    lemma_le_value_bound(s);
    lemma2_to64();
    lemma_pow2_adds(64, 64);
}

/// The fields of a feed account lie in the ranges of their types: the
/// timestamp in a `u64`, the quantized value in an `i128`.
pub proof fn lemma_account_fields_in_range(data: Seq<u8>)
    requires
        data.len() >= FEED_ACCOUNT_MIN_LEN,
    ensures
        account_timestamp_ns(data) <= u64::MAX,
        i128::MIN <= account_quantized_value(data) <= i128::MAX,
{
    lemma_le_value_bound(data.subrange(40, 48));
    lemma2_to64();
    assert(data.subrange(40, 48).len() == 8);
    lemma_le_i128_bounds(data.subrange(48, 64));
}

/// Relies on the `AccountDeserialize::try_deserialize` that anchor-lang's
/// `#[account]` writes for `TemporalNumericValueFeed`: it refuses a buffer
/// shorter than the tag or with another tag, then borsh-decodes the
/// identifier, the little-endian `u64` timestamp and the little-endian
/// `i128` value, and fails when the bytes run out.
#[verifier::external_body]
fn try_deserialize_feed(data: &[u8]) -> (r: Result<
    TemporalNumericValueFeed,
    anchor_lang::error::Error,
>)
    ensures
        r is Ok <==> is_feed_account(data@),
        r is Ok ==> r->Ok_0.id@ == account_feed_id(data@),
        r is Ok ==> r->Ok_0.latest_value.timestamp_ns == account_timestamp_ns(data@),
        r is Ok ==> r->Ok_0.latest_value.quantized_value == account_quantized_value(data@),
{
    let mut buf: &[u8] = data;
    TemporalNumericValueFeed::try_deserialize(&mut buf)
}

/// Relies on stork's lookup: it fails unless the identifier asked for is
/// the feed's own, and otherwise hands back a copy of the latest value.
pub assume_specification[ TemporalNumericValueFeed::get_latest_canonical_temporal_numeric_value_unchecked ](
    feed: &TemporalNumericValueFeed,
    feed_id: &[u8; 32],
) -> (r: Result<TemporalNumericValue, anchor_lang::error::Error>)
    ensures
        r is Ok <==> feed.id@ == feed_id@,
        r is Ok ==> r->Ok_0 == feed.latest_value,
;

/// Why a feed could not be read.
#[derive(Debug, Clone, Copy, PartialEq, Eq, Structural)]
pub enum FeedError {
    /// The buffer is too short, carries another tag, or is otherwise malformed.
    FeedDeserializationError,
    /// The feed holds no value for the identifier asked for.
    ValueNotFound,
}

/// Decodes a feed account from its bytes.
pub fn read_feed(data: &[u8]) -> (r: Result<TemporalNumericValueFeed, FeedError>)
    ensures
        r is Ok <==> is_feed_account(data@),
        r is Err ==> r == Err::<TemporalNumericValueFeed, FeedError>(
            FeedError::FeedDeserializationError,
        ),
        r is Ok ==> r->Ok_0.id@ == account_feed_id(data@),
        r is Ok ==> r->Ok_0.latest_value.timestamp_ns == account_timestamp_ns(data@),
        r is Ok ==> r->Ok_0.latest_value.quantized_value == account_quantized_value(data@),
{
    match try_deserialize_feed(data) {
        Ok(feed) => Ok(feed),
        Err(_) => Err(FeedError::FeedDeserializationError),
    }
}

/// The latest canonical value that a feed holds for an identifier.
pub fn canonical_value(feed: &TemporalNumericValueFeed, feed_id: &[u8; 32]) -> (r: Result<
    TemporalNumericValue,
    FeedError,
>)
    ensures
        r is Ok <==> feed.id@ == feed_id@,
        r is Ok ==> r->Ok_0 == feed.latest_value,
        r is Err ==> r == Err::<TemporalNumericValue, FeedError>(FeedError::ValueNotFound),
{
    match feed.get_latest_canonical_temporal_numeric_value_unchecked(feed_id) {
        Ok(value) => Ok(value),
        Err(_) => Err(FeedError::ValueNotFound),
    }
}

} // verus!
