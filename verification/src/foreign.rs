//! Types and calls of other crates that the library relies on.

use vstd::prelude::*;
use crate::routes::store_routes::Moment;

verus! {

/// A date and time without a time zone, carried through as an opaque value.
#[verifier::external_type_specification]
#[verifier::external_body]
pub struct ExNaiveDateTime(chrono::NaiveDateTime);

/// An arbitrary-precision decimal number, carried through as an opaque value.
#[verifier::external_type_specification]
#[verifier::external_body]
pub struct ExBigDecimal(bigdecimal::BigDecimal);

/// Whether the regular expression `pattern` matches somewhere in `haystack`;
/// `None` where `pattern` is not a regular expression that can be compiled.
pub uninterp spec fn regex_match(pattern: Seq<char>, haystack: Seq<char>) -> Option<bool>;

/// Compiles `pattern` and searches `haystack` for a match.
///
/// Trusted: calls `regex::Regex::new` and, where that succeeds,
/// `regex::Regex::is_match` on the compiled expression. Both depend on their
/// arguments alone; the contract only gives the outcome a name.
#[verifier::external_body]
pub(crate) fn regex_is_match(pattern: &str, haystack: &str) -> (found: Option<bool>)
    ensures
        found == regex_match(pattern@, haystack@),
{
    match regex::Regex::new(pattern) {
        Ok(expression) => Some(expression.is_match(haystack)),
        Err(_) => None,
    }
}

/// The current moment in UTC.
///
/// Trusted: calls `chrono::Utc::now` and reads the seconds and nanoseconds
/// of the result with `timestamp` and `timestamp_subsec_nanos`. The result
/// depends on the clock, so nothing is stated about it.
#[verifier::external_body]
pub(crate) fn utc_now() -> Moment {
    let now = chrono::Utc::now();
    Moment { seconds: now.timestamp(), nanos: now.timestamp_subsec_nanos() }
}

/// The moment that a default `DateTime<Local>` stands for, in UTC.
///
/// Trusted: calls `Default::default` of `chrono::DateTime<chrono::Local>`,
/// which places the start of 1970 in UTC into the local time zone, and reads
/// the seconds and nanoseconds of the result in UTC with `timestamp` and
/// `timestamp_subsec_nanos`. Whatever the time zone, these are 0 and 0.
#[verifier::external_body]
pub(crate) fn default_moment() -> (moment: Moment)
    ensures
        moment == Moment::epoch(),
{
    let start = chrono::DateTime::<chrono::Local>::default();
    Moment { seconds: start.timestamp(), nanos: start.timestamp_subsec_nanos() }
}

} // verus!
