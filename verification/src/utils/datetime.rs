use vstd::prelude::*;

verus! {

/// `time::PrimitiveDateTime`, a date and a time of day, as a value that is
/// only carried along.
#[verifier::external_type_specification]
#[verifier::external_body]
pub struct ExPrimitiveDateTime(time::PrimitiveDateTime);

/// The current date and time in UTC, without its offset.
///
/// Calls `time::OffsetDateTime::now_utc` and keeps the date and the time of
/// day. The result is read off the clock, so nothing is claimed of it.
#[verifier::external_body]
pub fn now() -> time::PrimitiveDateTime {
    let utc_date_time = time::OffsetDateTime::now_utc();
    time::PrimitiveDateTime::new(utc_date_time.date(), utc_date_time.time())
}

/// The text of a date and time, as its `Display` gives it.
///
/// Calls `ToString::to_string` on a `time::PrimitiveDateTime`. Nothing is
/// claimed of the text.
#[verifier::external_body]
pub(crate) fn render(moment: &time::PrimitiveDateTime) -> String {
    moment.to_string()
}

} // verus!
