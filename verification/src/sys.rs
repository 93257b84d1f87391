//! Values that come from the clock and from random sources, through the
//! crates that produce them.

use vstd::prelude::*;

verus! {

/// `chrono::NaiveDateTime`, carried opaquely.
#[verifier::external_type_specification]
#[verifier::external_body]
pub struct ExNaiveDateTime(chrono::NaiveDateTime);

/// The 32 symbols of Crockford's base 32, in the order of their values.
pub open spec fn crockford_alphabet() -> Seq<char> {
    "0123456789ABCDEFGHJKMNPQRSTVWXYZ"@
}

/// `s` is the text form of a ULID: 26 symbols of Crockford's base 32.
pub open spec fn is_ulid_text(s: Seq<char>) -> bool {
    &&& s.len() == 26
    &&& forall|i: int| 0 <= i < 26 ==> crockford_alphabet().contains(#[trigger] s[i])
}

/// A new ULID in its text form.
///
/// Calls `ulid::Ulid::new` and renders it with `Ulid::to_string`, the
/// inherent method that encodes it in base 32. Its value depends on the clock
/// and on a random source, so only its form is stated: that method writes
/// `ULID_LEN` (26) symbols taken from `ulid`'s `ALPHABET`
/// (`0123456789ABCDEFGHJKMNPQRSTVWXYZ`).
#[verifier::external_body]
pub(crate) fn new_ulid_text() -> (r: String)
    ensures
        is_ulid_text(r@),
{
    ulid::Ulid::new().to_string()
}

/// The current time in milliseconds since the UNIX epoch.
///
/// Calls `chrono::Utc::now().timestamp_millis()`. It reads the clock, so its
/// value is not stated, only its range: `Utc::now` panics on a clock before
/// the epoch (`duration_since(UNIX_EPOCH).expect(..)`) and on one past the
/// last date that `chrono` holds (`DateTime::from_timestamp(..).unwrap()`),
/// so what it returns is at least 0 and at most `MAX_STORABLE_MILLIS`.
#[verifier::external_body]
pub(crate) fn now_millis() -> (r: i64)
    ensures
        0 <= r <= MAX_STORABLE_MILLIS,
{
    chrono::Utc::now().timestamp_millis()
}

/// The first millisecond that `chrono` can hold: -262143-01-01T00:00:00.000.
pub const MIN_STORABLE_MILLIS: i64 = -8_334_601_228_800_000;

/// The last millisecond that `chrono` can hold: 262142-12-31T23:59:59.999.
pub const MAX_STORABLE_MILLIS: i64 = 8_210_266_876_799_999;

/// `millis` milliseconds from the UNIX epoch is a date that `chrono` can hold.
pub open spec fn millis_representable(millis: int) -> bool {
    MIN_STORABLE_MILLIS <= millis <= MAX_STORABLE_MILLIS
}

/// Calls `chrono::NaiveDateTime::from_timestamp_millis`. It returns `None`
/// exactly for the millisecond counts out of `chrono`'s range of dates. In its
/// source that range runs from year `MIN_YEAR` = -262143, January 1, to year
/// `MAX_YEAR` = 262142, December 31 (`from_ordinal_and_flags`), day 0 being
/// day 719163 of the common era (`UNIX_EPOCH_DAY`); in milliseconds that is
/// `MIN_STORABLE_MILLIS` to `MAX_STORABLE_MILLIS`.
#[verifier::external_body]
#[allow(deprecated)]
pub(crate) fn naive_from_millis(millis: i64) -> (r: Option<chrono::NaiveDateTime>)
    ensures
        r is Some <==> millis_representable(millis as int),
{
    chrono::NaiveDateTime::from_timestamp_millis(millis)
}

/// `u` is a version 7 UUID: version nibble 7, variant `0b10`.
pub open spec fn is_uuid_v7(u: u128) -> bool {
    &&& (u >> 76u128) & 0xfu128 == 7
    &&& (u >> 62u128) & 0x3u128 == 2
}

/// Each value of `s` is greater than the ones before it.
pub open spec fn strictly_increasing(s: Seq<u128>) -> bool {
    forall|i: int, j: int| 0 <= i < j < s.len() ==> s[i] < s[j]
}

/// `n` new version 7 UUIDs, as their 128-bit big-endian values, in the order
/// in which they were made.
///
/// Calls `uuid::Uuid::now_v7` `n` times and takes `as_u128` of each. The
/// values depend on the clock and on a random source; what `uuid` fixes of
/// every outcome is stated. Its source sets the version nibble (bits 76..80)
/// to 7 and the variant (bits 62..64) to `0b10`, and its documentation
/// guarantees that the UUIDs that `now_v7` makes in one process are ordered by
/// their creation: the shared `ContextV7` puts the millisecond timestamp in the
/// top 48 bits and a counter that increases within a millisecond below it, so
/// each value is greater than the one made before it.
#[verifier::external_body]
pub(crate) fn new_uuids_v7(n: usize) -> (r: Vec<u128>)
    ensures
        r@.len() == n,
        forall|i: int| 0 <= i < n ==> is_uuid_v7(#[trigger] r@[i]),
        strictly_increasing(r@),
{
    (0..n).map(|_| uuid::Uuid::now_v7().as_u128()).collect()
}

} // verus!
