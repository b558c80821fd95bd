use vstd::prelude::*;
use crate::item::{opt_text, Item};

verus! {

#[verifier::external_type_specification]
#[verifier::external_body]
pub struct ExOffsetDateTime(time::OffsetDateTime);

/// The smallest unix timestamp of any `time::OffsetDateTime` (year -999999,
/// the widest range that the `time` crate documents, less the largest UTC
/// offset).
pub open spec fn min_unix_timestamp() -> int {
    -31_619_087_776_800
}

/// The largest unix timestamp of any `time::OffsetDateTime` (end of year
/// 999999, plus the largest UTC offset).
pub open spec fn max_unix_timestamp() -> int {
    31_494_784_874_399
}

/// A unix timestamp that some `time::OffsetDateTime` has.
pub open spec fn representable_unix_time(ts: int) -> bool {
    min_unix_timestamp() <= ts <= max_unix_timestamp()
}

/// Calls `time::OffsetDateTime::now_utc`. Nothing is claimed of the result:
/// it is the time of the call.
#[verifier::external_body]
fn clock_now_utc() -> time::OffsetDateTime {
    time::OffsetDateTime::now_utc()
}

/// The RFC 3339 text of the UTC instant that lies `unix_nanos` nanoseconds
/// after the unix epoch, as the `time` crate writes it; `None` where the
/// instant has no RFC 3339 text (a year outside 0..=9999) or lies outside the
/// dates that the crate represents.
pub uninterp spec fn rfc3339_text(unix_nanos: i128) -> Option<Seq<char>>;

/// The text that `Display` gives for the UTC instant that lies `unix_nanos`
/// nanoseconds after the unix epoch, as the `time` crate writes it; `None`
/// where the instant lies outside the dates that the crate represents.
pub uninterp spec fn default_text(unix_nanos: i128) -> Option<Seq<char>>;

/// Calls `time::OffsetDateTime::unix_timestamp_nanos`. Nothing is claimed of
/// the number beyond its type.
#[verifier::external_body]
fn unix_timestamp_nanos(t: &time::OffsetDateTime) -> i128 {
    t.unix_timestamp_nanos()
}

/// Builds the UTC instant with `time::OffsetDateTime::from_unix_timestamp_nanos`
/// and calls `time::OffsetDateTime::format` on it with the RFC 3339
/// description. Claims that the text is the one named by `rfc3339_text`.
#[verifier::external_body]
fn rfc3339_at(unix_nanos: i128) -> (text: Option<String>)
    ensures
        opt_text(text) == rfc3339_text(unix_nanos),
{
    match time::OffsetDateTime::from_unix_timestamp_nanos(unix_nanos) {
        Ok(t) => t.format(&time::format_description::well_known::Rfc3339).ok(),
        Err(_) => None,
    }
}

/// Builds the UTC instant with `time::OffsetDateTime::from_unix_timestamp_nanos`
/// and renders it with `ToString::to_string` through its `Display`. Claims
/// that the text is the one named by `default_text`.
#[verifier::external_body]
fn default_text_at(unix_nanos: i128) -> (text: Option<String>)
    ensures
        opt_text(text) == default_text(unix_nanos),
{
    match time::OffsetDateTime::from_unix_timestamp_nanos(unix_nanos) {
        Ok(t) => Some(t.to_string()),
        Err(_) => None,
    }
}

/// Calls `time::OffsetDateTime::unix_timestamp`. Claims only that the result
/// lies in the range of dates that the `time` crate can represent.
#[verifier::external_body]
fn unix_timestamp(t: &time::OffsetDateTime) -> (ts: i64)
    ensures
        representable_unix_time(ts as int),
{
    t.unix_timestamp()
}

/// A lower-case hexadecimal digit.
pub open spec fn is_lower_hex(c: char) -> bool {
    ('0' <= c <= '9') || ('a' <= c <= 'f')
}

/// Text in the hyphenated form of a version-4 UUID, such as
/// `67e55044-10b1-426f-9247-bb680e5fe0c8`.
pub open spec fn is_hyphenated_uuid_v4(s: Seq<char>) -> bool {
    &&& s.len() == 36
    &&& s[14] == '4'
    &&& forall|i: int|
        0 <= i < 36 ==> (if i == 8 || i == 13 || i == 18 || i == 23 {
            #[trigger] s[i] == '-'
        } else {
            is_lower_hex(s[i])
        })
}

/// Calls `uuid::Uuid::new_v4` and renders the UUID with `to_string`. The UUID
/// is random; what is claimed is the shape of its text: 36 characters, hyphens
/// at positions 8, 13, 18 and 23, lower-case hexadecimal digits elsewhere, and
/// the version digit `4` at position 14.
#[verifier::external_body]
pub(crate) fn new_uuid_v4_text() -> (id: String)
    ensures
        is_hyphenated_uuid_v4(id@),
{
    uuid::Uuid::new_v4().to_string()
}

/// The text for two readings of the clock, each in unix nanoseconds: the
/// RFC 3339 text of the first; where it has none, the default rendering of
/// the second; where neither exists, the empty text.
pub open spec fn clock_text(first: i128, second: i128) -> Seq<char> {
    match rfc3339_text(first) {
        Some(text) => text,
        None => match default_text(second) {
            Some(text) => text,
            None => Seq::empty(),
        },
    }
}

/// The current UTC time as RFC 3339 text; where the clock's time cannot be
/// written in RFC 3339, the clock is read again and its default rendering is
/// used. The readings depend on the clock; the result is the text of some
/// pair of them.
pub fn now_rfc3339() -> (text: String)
    ensures
        exists|first: i128, second: i128| text@ == clock_text(first, second),
{
    let now = clock_now_utc();
    let first = unix_timestamp_nanos(&now);
    match rfc3339_at(first) {
        Some(text) => {
            assert(text@ == clock_text(first, 0));
            text
        },
        None => {
            let again = clock_now_utc();
            let second = unix_timestamp_nanos(&again);
            match default_text_at(second) {
                Some(text) => {
                    assert(text@ == clock_text(first, second));
                    text
                },
                None => {
                    let text = String::new();
                    assert(text@ == clock_text(first, second));
                    text
                },
            }
        },
    }
}

/// The largest number of hours, either way, that a time-to-live may span.
pub open spec fn max_ttl_hours() -> int {
    2_000_000_000_000_000
}

/// The unix timestamp that lies `hours` hours after the current time: the
/// clock's timestamp plus 3600 seconds per hour.
pub fn ttl_hours(hours: i64) -> (ttl: i64)
    requires
        -max_ttl_hours() <= hours <= max_ttl_hours(),
    ensures
        exists|now: int| representable_unix_time(now) && ttl == now + 3600 * hours,
{
    let now = clock_now_utc();
    let ts = unix_timestamp(&now);
    let ttl = ts + 3600 * hours;
    assert(representable_unix_time(ts as int) && ttl == ts + 3600 * hours);
    ttl
}

/// The connection ids that the items hold, in order; items whose
/// `connection_id` is absent or not a string are left out.
pub open spec fn collection_ids(items: Seq<Item>) -> Seq<Seq<char>>
    decreases items.len(),
{
    if items.len() == 0 {
        Seq::empty()
    } else {
        let rest = collection_ids(items.drop_last());
        match items.last().text("connection_id"@) {
            Some(id) => rest.push(id),
            None => rest,
        }
    }
}

/// The connection ids held by the items that a query returned.
pub fn return_collection_ids(items: &Vec<Item>) -> (ids: Vec<String>)
    ensures
        ids@.map_values(|s: String| s@) == collection_ids(items@),
{
    let mut ids: Vec<String> = Vec::new();
    let n = items.len();
    let mut i: usize = 0;
    while i < n
        invariant
            n == items@.len(),
            i <= n,
            ids@.map_values(|s: String| s@) =~= collection_ids(items@.take(i as int)),
        decreases n - i,
    {
        assert(items@.take(i + 1).drop_last() =~= items@.take(i as int));
        assert(items@.take(i + 1).last() == items@[i as int]);
        match items[i].string_attr("connection_id") {
            Some(id) => ids.push(id),
            None => {},
        }
        i = i + 1;
    }
    assert(items@.take(n as int) =~= items@);
    ids
}

} // verus!
