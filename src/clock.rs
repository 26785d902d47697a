use vstd::prelude::*;

verus! {

/// The RFC 3339 text of an instant, given in microseconds since the Unix epoch.
pub uninterp spec fn rfc3339_of_micros(micros: int) -> Seq<char>;

/// Relies on chrono's `From<SystemTime>` for `DateTime<Utc>` and on
/// `DateTime::timestamp_micros`: the current wall-clock time in microseconds
/// since the Unix epoch, negative for a clock set before the epoch.
#[verifier::external_body]
pub(crate) fn current_micros() -> (r: i64) {
    chrono::DateTime::<chrono::Utc>::from(std::time::SystemTime::now()).timestamp_micros()
}

/// Last microsecond of the year 9999, the end of the span that RFC 3339 can write
/// with a four-digit year.
pub const MAX_RFC3339_MICROS: i64 = 253_402_300_799_999_999;

/// Relies on chrono's `DateTime::<Utc>::from_timestamp_micros`, which refuses an
/// instant out of chrono's range (every instant from the epoch to the end of the
/// year 9999 is inside it), and on `DateTime::to_rfc3339` for the text of the
/// instant it accepts.
#[verifier::external_body]
pub(crate) fn rfc3339_from_micros(micros: i64) -> (r: Option<String>)
    ensures
        r matches Some(s) ==> s@ == rfc3339_of_micros(micros as int),
        0 <= micros <= MAX_RFC3339_MICROS ==> (r is Some),
{
    match chrono::DateTime::<chrono::Utc>::from_timestamp_micros(micros) {
        Some(d) => Some(d.to_rfc3339()),
        None => None,
    }
}

} // verus!
