//! Trusted declarations of the outside items that the library calls: the
//! monotonic clock, the local wall clock and the random index draw.

use rand::SeedableRng;
use vstd::prelude::*;


verus! {

#[verifier::external_type_specification]
#[verifier::external_body]
pub struct ExInstant(std::time::Instant);

#[verifier::external_type_specification]
#[verifier::external_body]
pub struct ExStdRng(rand::rngs::StdRng);

/// Trusted: `Instant::now` reads the monotonic clock; nothing is claimed of
/// the instant it returns.
pub assume_specification[ std::time::Instant::now ]() -> std::time::Instant;

/// Trusted: `Instant::elapsed` measures the time since the instant; nothing
/// is claimed of the duration, which depends on the clock.
pub assume_specification[ std::time::Instant::elapsed ](i: &std::time::Instant) -> core::time::Duration;

/// Trusted: `Duration::as_secs` gives the whole seconds of a duration; the
/// library keeps durations opaque, so nothing is claimed of the number.
pub assume_specification[ core::time::Duration::as_secs ](d: &core::time::Duration) -> u64;

/// Whether `c` is an ASCII digit.
pub open spec fn is_digit(c: char) -> bool {
    '0' <= c <= '9'
}

/// The number written by the two digits of `t` at `i`.
pub open spec fn two_digit_value(t: Seq<char>, i: int) -> int {
    (t[i] as int - '0' as int) * 10 + (t[i + 1] as int - '0' as int)
}

/// Two digits at `i` writing a number from `lo` to `hi`.
pub open spec fn two_digits_within(t: Seq<char>, i: int, lo: int, hi: int) -> bool {
    &&& is_digit(t[i])
    &&& is_digit(t[i + 1])
    &&& lo <= two_digit_value(t, i) <= hi
}

/// The shape of a time written with `%Y-%m-%d %H:%M:%S`: a year of at least
/// four digits (with a sign before year 0 and after 9999), then month 01-12,
/// day 01-31, hour 00-23, minute 00-59 and second 00-60 with their separators.
pub open spec fn is_local_timestamp(t: Seq<char>) -> bool {
    let n = t.len() as int;
    let y = n - 15;
    &&& n >= 19
    &&& forall|i: int| 0 < i < y ==> is_digit(#[trigger] t[i])
    &&& (is_digit(t[0]) || t[0] == '+' || t[0] == '-')
    &&& t[y] == '-'
    &&& two_digits_within(t, y + 1, 1, 12)
    &&& t[y + 3] == '-'
    &&& two_digits_within(t, y + 4, 1, 31)
    &&& t[y + 6] == ' '
    &&& two_digits_within(t, y + 7, 0, 23)
    &&& t[y + 9] == ':'
    &&& two_digits_within(t, y + 10, 0, 59)
    &&& t[y + 12] == ':'
    &&& two_digits_within(t, y + 13, 0, 60)
}

/// Trusted: `chrono::Local::now` followed by `DateTime::format` with the
/// pattern `%Y-%m-%d %H:%M:%S`, written out as a `String`. Both calls stand in
/// one item because `DateTime<Tz: TimeZone>` cannot be declared here: its
/// bound is a trait of chrono that the library does not model.
/// Which time it writes depends on the wall clock and the machine's time
/// zone, and chrono panics where the environment fails it (a system clock
/// before 1970, unreadable time-zone data), which no argument can exclude; what is claimed is the shape that chrono documents for the pattern
/// (year zero-padded to four digits, signed outside 0 to 9999; month 01-12,
/// day 01-31, hour 00-23, minute 00-59, second 00-60). The pattern is the
/// one valid pattern it is called with.
#[verifier::external_body]
pub fn local_timestamp(pattern: &str) -> (r: String)
    requires
        pattern@ == "%Y-%m-%d %H:%M:%S"@,
    ensures
        is_local_timestamp(r@),
{
    chrono::Local::now().format(pattern).to_string()
}

/// Trusted: `StdRng::from_entropy` seeds a generator from the operating
/// system; nothing is claimed of the generator (it panics only where the
/// system has no entropy source).
#[verifier::external_body]
pub fn new_rng() -> rand::rngs::StdRng {
    rand::rngs::StdRng::from_entropy()
}

/// Trusted: `rand::seq::index::sample`, converted to a vector with
/// `IndexVec::into_vec`. rand 0.8 draws exactly `amount` distinct indices of
/// `0..length` at random (it panics when `amount > length`, which `requires`
/// leaves out). Which indices, and in which order, is left to chance.
#[verifier::external_body]
pub fn sample_indices(rng: &mut rand::rngs::StdRng, length: usize, amount: usize) -> (r: Vec<usize>)
    requires
        amount <= length,
    ensures
        r@.len() == amount,
        r@.no_duplicates(),
        forall|i: int| 0 <= i < r@.len() ==> (#[trigger] r@[i]) < length,
{
    rand::seq::index::sample(rng, length, amount).into_vec()
}

/// Whole seconds from `start` to now, read from the monotonic clock.
pub fn seconds_since(start: std::time::Instant) -> u64 {
    start.elapsed().as_secs()
}

} // verus!
