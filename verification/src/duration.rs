//! Short texts for a span of time.

use vstd::prelude::*;
use vstd::string::StringExecFns;
use std::time::Duration;
use crate::text::{decimal, push_decimal, push_two_digits, two_digits};

verus! {

/// The whole seconds that a `Duration` holds: what `Duration::as_secs` returns
/// for it. A `Duration` is opaque here, so this is all that is known of one.
pub uninterp spec fn whole_seconds(duration: Duration) -> u64;

/// Taken on trust of `Duration::as_secs`: it returns the whole seconds of the
/// span, leaving out the fraction of a second, and the same number whenever it
/// is asked of the same span.
pub assume_specification[ Duration::as_secs ](duration: &Duration) -> (secs: u64)
    ensures
        secs == whole_seconds(*duration),
;

/// The text for a span of `secs` seconds: hours and two-digit minutes from one
/// hour on, whole minutes and their unit from one minute on, else the seconds
/// and their unit.
pub open spec fn duration_text(secs: nat, minutes_unit: Seq<char>, seconds_unit: Seq<char>) -> Seq<
    char,
> {
    let min = secs / 60;
    if min >= 60 {
        decimal(min / 60) + seq![':'] + two_digits(min % 60)
    } else if secs >= 60 {
        decimal(min) + minutes_unit
    } else {
        decimal(secs) + seconds_unit
    }
}

/// The text for a span of `secs` seconds, with the caller's words for the
/// units.
pub fn format_seconds(secs: u64, minutes_unit: &str, seconds_unit: &str) -> (text: String)
    ensures
        text@ == duration_text(secs as nat, minutes_unit@, seconds_unit@),
{
    let mut text = String::new();
    let min: u64 = secs / 60;
    if min >= 60 {
        push_decimal(&mut text, min / 60);
        text.append(":");
        proof {
            reveal_strlit(":");
            assert(":"@ =~= seq![':']);
        }
        push_two_digits(&mut text, min % 60);
    } else if secs >= 60 {
        push_decimal(&mut text, min);
        text.append(minutes_unit);
    } else {
        push_decimal(&mut text, secs);
        text.append(seconds_unit);
    }
    assert(text@ =~= duration_text(secs as nat, minutes_unit@, seconds_unit@));
    text
}

/// The text for `duration`, by its whole seconds.
pub fn format_duration(duration: Duration, minutes_unit: &str, seconds_unit: &str) -> (text:
    String)
    ensures
        text@ == duration_text(whole_seconds(duration) as nat, minutes_unit@, seconds_unit@),
{
    format_seconds(duration.as_secs(), minutes_unit, seconds_unit)
}

} // verus!
