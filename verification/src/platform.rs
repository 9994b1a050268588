//! Calls into the outside crates for UUIDs (`uuid`) and for the clock and
//! time formatting (`chrono`, as re-exported by `async_session`). Each
//! function here is trusted: its contract restates what the crate's
//! documentation and source promise, nothing more.
use vstd::prelude::*;

verus! {

/// The lower-case hexadecimal digit of a value below 16.
pub open spec fn hex_digit(d: nat) -> char {
    if d < 10 {
        (48 + d) as char
    } else {
        (87 + d) as char
    }
}

/// The `n` lowest hexadecimal digits of `v`, the most significant first.
pub open spec fn hex_digits(v: nat, n: nat) -> Seq<char>
    decreases n,
{
    if n == 0 {
        Seq::empty()
    } else {
        hex_digits(v / 16, (n - 1) as nat).push(hex_digit(v % 16))
    }
}

/// The hyphenated lower-case text form of a UUID: the 32 hexadecimal digits
/// of the 128-bit value, the most significant first, in groups of 8, 4, 4,
/// 4 and 12 joined by hyphens (e.g. "67e55044-10b1-426f-9247-bb680e5fe0c8").
pub open spec fn spec_uuid_text(id: u128) -> Seq<char> {
    let d = hex_digits(id as nat, 32);
    d.subrange(0, 8) + seq!['-'] + d.subrange(8, 12) + seq!['-'] + d.subrange(12, 16) + seq!['-']
        + d.subrange(16, 20) + seq!['-'] + d.subrange(20, 32)
}

/// Calls `uuid::Uuid::from_u128(id).to_string()`: `Display` of a `Uuid`
/// writes its 16 bytes, taken from the value most significant first, as
/// lower-case hexadecimal in the hyphenated form of `spec_uuid_text`.
#[verifier::external_body]
pub(crate) fn uuid_to_text(id: u128) -> (r: String)
    ensures
        r@ == spec_uuid_text(id),
{
    uuid::Uuid::from_u128(id).to_string()
}

/// Calls `uuid::Uuid::new_v4()`: a random UUID. Nothing is promised of the
/// value, so two calls may return anything, equal or not.
#[verifier::external_body]
pub(crate) fn new_uuid() -> u128 {
    uuid::Uuid::new_v4().as_u128()
}

/// A parsed 128-bit id, or the text of the parse error.
pub type UuidParseResult = Result<u128, String>;

/// What `uuid::Uuid::parse_str` makes of a text: the 128-bit value, or the
/// text of the parse error.
pub uninterp spec fn spec_uuid_parse(text: Seq<char>) -> Result<u128, Seq<char>>;

/// Calls `uuid::Uuid::parse_str(text)`: the result is a function of the
/// text, named `spec_uuid_parse`. The parser accepts the hyphenated form
/// that `to_string` writes, so that form reads back as the same value.
#[verifier::external_body]
pub(crate) fn parse_uuid_text(text: &str) -> (r: UuidParseResult)
    ensures
        r matches Ok(id) ==> (spec_uuid_parse(text@) matches Ok(v) && v == id),
        r matches Err(e) ==> (spec_uuid_parse(text@) matches Err(m) && m == e@),
        r is Ok || !(exists|id: u128| text@ == spec_uuid_text(id)),
        r matches Ok(v) ==> (forall|id: u128| text@ == spec_uuid_text(id) ==> v == id),
{
    match uuid::Uuid::parse_str(text) {
        Ok(id) => Ok(id.as_u128()),
        Err(e) => Err(e.to_string()),
    }
}

/// The earliest time chrono's `DateTime<Utc>` can hold (`MIN_UTC`, January 1
/// of year -262143 at midnight), in milliseconds since the Unix epoch.
pub const EARLIEST_TIME_MILLIS: i64 = -8_334_601_228_800_000;

/// The latest time chrono's `DateTime<Utc>` can hold (`MAX_UTC`, December 31
/// of year 262142 at 23:59:59.999), in milliseconds since the Unix epoch.
pub const LATEST_TIME_MILLIS: i64 = 8_210_266_876_799_999;

/// Calls `chrono::Utc::now()` (as `async_session` re-exports it): the
/// current time in milliseconds since the Unix epoch. Nothing is promised
/// of the value but that it is not before the epoch (`Utc::now` stops the
/// program on such a clock) and not after chrono's latest time.
#[verifier::external_body]
pub(crate) fn now_millis() -> (r: i64)
    ensures
        0 <= r <= LATEST_TIME_MILLIS,
{
    async_session::chrono::Utc::now().timestamp_millis()
}

/// The `%Y-%m-%d %H:%M:%S` rendering chrono gives of a UTC time in
/// milliseconds (a time outside chrono's range renders as its earliest
/// time).
pub uninterp spec fn spec_utc_datetime_text(millis: i64) -> Seq<char>;

/// Calls chrono's `DateTime::<Utc>::from_timestamp_millis(millis)` (the
/// earliest time, `MIN_UTC`, where it is out of range) and formats it with
/// `naive_local().format("%Y-%m-%d %H:%M:%S")`: a function of the time,
/// named `spec_utc_datetime_text`.
#[verifier::external_body]
pub(crate) fn utc_datetime_text(millis: i64) -> (r: String)
    ensures
        r@ == spec_utc_datetime_text(millis),
{
    let t = async_session::chrono::DateTime::<async_session::chrono::Utc>::from_timestamp_millis(millis)
        .unwrap_or(async_session::chrono::DateTime::<async_session::chrono::Utc>::MIN_UTC);
    t.naive_local().format("%Y-%m-%d %H:%M:%S").to_string()
}

/// The text chrono's `Display` gives of a UTC time in milliseconds (a
/// time outside chrono's range shows as its earliest time).
pub uninterp spec fn spec_utc_display_text(millis: i64) -> Seq<char>;

/// Calls chrono's `DateTime::<Utc>::from_timestamp_millis(millis)` (the
/// earliest time, `MIN_UTC`, where it is out of range) and `to_string()`:
/// a function of the time, named `spec_utc_display_text`.
#[verifier::external_body]
pub(crate) fn utc_display_text(millis: i64) -> (r: String)
    ensures
        r@ == spec_utc_display_text(millis),
{
    let t = async_session::chrono::DateTime::<async_session::chrono::Utc>::from_timestamp_millis(millis)
        .unwrap_or(async_session::chrono::DateTime::<async_session::chrono::Utc>::MIN_UTC);
    t.to_string()
}

} // verus!
