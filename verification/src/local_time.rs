//! Modification times shown in the local time zone: the long form of the
//! file table and the short form of the phone's file list.

use vstd::prelude::*;

verus! {

/// Whether a character is an ASCII digit.
pub open spec fn is_ascii_digit(c: char) -> bool {
    0x30 <= (c as u32) <= 0x39
}

/// Whether a text is digits except for the given separators at the given
/// positions.
pub open spec fn digits_with(text: Seq<char>, len: nat, seps: Map<int, char>) -> bool {
    &&& text.len() == len
    &&& forall|i: int| 0 <= i < text.len() ==> if seps.dom().contains(i) {
        #[trigger] text[i] == seps[i]
    } else {
        is_ascii_digit(text[i])
    }
}

/// The shape of `YYYY/MM/DD hh:mm:ss`.
pub open spec fn is_long_time_text(text: Seq<char>) -> bool {
    digits_with(text, 19, map![4int => '/', 7int => '/', 10int => ' ', 13int => ':', 16int => ':'])
}

/// The shape of `MM-DD hh:mm`.
pub open spec fn is_short_time_text(text: Seq<char>) -> bool {
    digits_with(text, 11, map![2int => '-', 5int => ' ', 8int => ':'])
}

/// What chrono writes for the date-time `secs` seconds after the Unix
/// epoch, taken as a naive (zone-less) date-time, with the pattern
/// `%Y/%m/%d %H:%M:%S`.
pub uninterp spec fn naive_long_text(secs: int) -> Seq<char>;

/// What chrono writes for the date-time `secs` seconds after the Unix
/// epoch, taken as a naive (zone-less) date-time, with the pattern
/// `%m-%d %H:%M`.
pub uninterp spec fn naive_short_text(secs: int) -> Seq<char>;

/// The local time zone's offset from UTC, in seconds, at a Unix timestamp.
///
/// Converts the timestamp to `chrono::DateTime<chrono::Local>` and reads
/// `offset().local_minus_utc()`. The value depends on the machine's time
/// zone, so it has no name; every `FixedOffset` lies strictly within a day
/// of UTC (its constructors refuse anything else).
#[verifier::external_body]
fn local_offset_seconds(timestamp: u32) -> (r: i32)
    ensures
        -86400 < r < 86400,
{
    let time = std::time::UNIX_EPOCH + std::time::Duration::from_secs(timestamp as u64);
    let datetime: chrono::DateTime<chrono::Local> = time.into();
    datetime.offset().local_minus_utc()
}

/// Writes the naive date-time `secs` seconds after the epoch as
/// `YYYY/MM/DD hh:mm:ss`.
///
/// Calls `chrono::DateTime::<Utc>::from_timestamp(secs, 0)`, then
/// `naive_utc().format("%Y/%m/%d %H:%M:%S")`; the text is named
/// `naive_long_text`. `from_timestamp` fails only hundreds of thousands of
/// years away, outside what `requires` admits. Within that range the year
/// lies between 1969 and 2106, and `%Y` writes it as four digits, the other
/// fields as two zero-padded digits.
#[verifier::external_body]
fn naive_time_long(secs: i64) -> (r: String)
    requires
        -86400 < secs < 0x1_0000_0000 + 86400,
    ensures
        r@ == naive_long_text(secs as int),
        is_long_time_text(r@),
{
    match chrono::DateTime::<chrono::Utc>::from_timestamp(secs, 0) {
        Some(utc) => utc.naive_utc().format("%Y/%m/%d %H:%M:%S").to_string(),
        None => String::new(),
    }
}

/// Writes the naive date-time `secs` seconds after the epoch as
/// `MM-DD hh:mm`.
///
/// Calls `chrono::DateTime::<Utc>::from_timestamp(secs, 0)`, then
/// `naive_utc().format("%m-%d %H:%M")`: four fields of two zero-padded
/// digits. The text is named `naive_short_text`.
#[verifier::external_body]
fn naive_time_short(secs: i64) -> (r: String)
    requires
        -86400 < secs < 0x1_0000_0000 + 86400,
    ensures
        r@ == naive_short_text(secs as int),
        is_short_time_text(r@),
{
    match chrono::DateTime::<chrono::Utc>::from_timestamp(secs, 0) {
        Some(utc) => utc.naive_utc().format("%m-%d %H:%M").to_string(),
        None => String::new(),
    }
}

/// The modification time shown in the file table: the timestamp shifted by
/// the local zone's offset (under a day either way) and written as
/// `YYYY/MM/DD hh:mm:ss`; nothing when the time is unknown.
pub fn format_sftp_time(timestamp: Option<u32>) -> (r: String)
    ensures
        timestamp is None ==> r@.len() == 0,
        timestamp matches Some(t) ==> exists|local: int| -86400 < local - t < 86400 && r@ == #[trigger] naive_long_text(local),
        timestamp is Some ==> is_long_time_text(r@),
{
    match timestamp {
        Some(t) => {
            let offset = local_offset_seconds(t);
            let r = naive_time_long(t as i64 + offset as i64);
            assert(r@ == naive_long_text(t + offset));
            r
        },
        None => String::new(),
    }
}

/// The modification time shown in the phone's file list: the timestamp
/// shifted by the local zone's offset (under a day either way) and written
/// as `MM-DD hh:mm`.
pub fn format_time(timestamp: u32) -> (r: String)
    ensures
        exists|local: int| -86400 < local - timestamp < 86400 && r@ == #[trigger] naive_short_text(local),
        is_short_time_text(r@),
{
    let offset = local_offset_seconds(timestamp);
    let r = naive_time_short(timestamp as i64 + offset as i64);
    assert(r@ == naive_short_text(timestamp + offset));
    r
}

} // verus!
