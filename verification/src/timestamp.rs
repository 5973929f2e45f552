//! Timestamps of task statuses (time's `OffsetDateTime`), normalised to UTC.

use vstd::prelude::*;

verus! {

/// A date and time with a UTC offset, from the time crate.
#[verifier::external_type_specification]
#[verifier::external_body]
pub struct ExOffsetDateTime(time::OffsetDateTime);

/// The same instant expressed with offset UTC, when that local date-time is
/// inside the range the time crate supports; `None` otherwise.
pub uninterp spec fn utc_form(t: time::OffsetDateTime) -> Option<time::OffsetDateTime>;

/// Converts an instant to offset UTC with `OffsetDateTime::checked_to_offset`.
/// Claimed: the outcome is `utc_form(t)`, a function of the instant and its offset.
#[verifier::external_body]
pub(crate) fn checked_to_utc(t: time::OffsetDateTime) -> (r: Option<time::OffsetDateTime>)
    ensures
        r == utc_form(t),
{
    t.checked_to_offset(time::UtcOffset::UTC)
}

/// `Clone` of a timestamp. Claimed: the copy equals the cloned value (the type is `Copy`).
pub assume_specification[ <time::OffsetDateTime as Clone>::clone ](t: &time::OffsetDateTime) -> (r: time::OffsetDateTime)
    ensures
        r == *t,
;

} // verus!
