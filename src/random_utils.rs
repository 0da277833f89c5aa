use vstd::prelude::*;
use vstd::set_lib::{lemma_int_range, set_int_range};

use rand::Rng;

verus! {

/// The widest distance, in either direction, between a jittered wait and the
/// average delay.
pub const JITTER_BOUND: i32 = 5;

/// The longest random string that is generated.
pub const MAX_RANDOM_STRING_LEN: i32 = 100;

/// The failure percentage used in place of one outside `[0, 100]`.
pub const DEFAULT_PERCENTAGE: i32 = 50;

pub open spec fn is_ascii_alphanumeric(c: char) -> bool {
    ('a' <= c && c <= 'z') || ('A' <= c && c <= 'Z') || ('0' <= c && c <= '9')
}

/// Relies on `rand::Rng::gen_range` over an inclusive range, on the thread's
/// generator: the value lies in the range. It panics on an empty range.
#[verifier::external_body]
fn draw_between(lo: i32, hi: i32) -> (r: i32)
    requires
        lo <= hi,
    ensures
        lo <= r <= hi,
{
    rand::thread_rng().gen_range(lo..=hi)
}

/// Relies on `rand::distributions::Alphanumeric` sampled `len` times from the
/// thread's generator: each sample is an ASCII letter or digit.
#[verifier::external_body]
fn sample_alphanumeric(len: usize) -> (r: String)
    ensures
        r@.len() == len,
        forall|i: int| 0 <= i < r@.len() ==> is_ascii_alphanumeric(#[trigger] r@[i]),
{
    rand::thread_rng().sample_iter(&rand::distributions::Alphanumeric).take(len).map(char::from).collect()
}

/// The percentage actually used for a requested one.
pub open spec fn effective_percentage(p: i32) -> i32 {
    if 0 <= p <= 100 { p } else { DEFAULT_PERCENTAGE }
}

/// The percentage actually used: `percentage` where it lies in `[0, 100]`,
/// else 50.
pub fn effective_failure_percentage(percentage: i32) -> (r: i32)
    ensures
        r == effective_percentage(percentage),
        0 <= r <= 100,
{
    if 0 <= percentage && percentage <= 100 {
        percentage
    } else {
        DEFAULT_PERCENTAGE
    }
}

/// A weighted coin comes up true when its roll falls under the effective
/// percentage.
pub open spec fn coin(percentage: i32, roll: int) -> bool {
    roll < effective_percentage(percentage)
}

/// The outcome of a weighted coin for a roll in `[0, 100)`.
pub fn chance_from_roll(percentage: i32, roll: i32) -> (r: bool)
    ensures
        r == coin(percentage, roll as int),
{
    roll < effective_failure_percentage(percentage)
}

/// Of the 100 equally likely rolls, exactly the effective percentage turn the
/// coin up true: a requested percentage in `[0, 100]` is the coin's rate, and
/// any other gives even odds.
pub proof fn lemma_coin_weight(percentage: i32)
    ensures
        Set::new(|roll: int| 0 <= roll < 100 && coin(percentage, roll)).len() == effective_percentage(
            percentage,
        ),
        !(0 <= percentage <= 100) ==> effective_percentage(percentage) == 50,
{
    let e = effective_percentage(percentage) as int;
    assert(Set::new(|roll: int| 0 <= roll < 100 && coin(percentage, roll)) =~= set_int_range(0, e));
    lemma_int_range(0, e);
}

/// A weighted coin that comes up true `percentage` times in a hundred. A
/// percentage outside `[0, 100]` is taken as 50.
pub fn random_chance(percentage: i32) -> (r: bool)
    ensures
        exists|roll: int| 0 <= roll < 100 && r == #[trigger] coin(percentage, roll),
        effective_percentage(percentage) == 0 ==> !r,
        effective_percentage(percentage) == 100 ==> r,
{
    let roll = draw_between(0, 99);
    chance_from_roll(percentage, roll)
}

/// The wait for an average delay, a direction in `{-1, 0, 1}` and a distance:
/// `average + sign * magnitude`, or `average` where that would be negative.
pub open spec fn jittered(average: int, sign: int, magnitude: int) -> int {
    let offset = if sign < 0 { -magnitude } else if sign > 0 { magnitude } else { 0 };
    if average + offset < 0 { average } else { average + offset }
}

/// The wait for a given average, direction and distance.
pub fn jittered_wait(average: i32, sign: i32, magnitude: i32) -> (r: u64)
    requires
        average >= 0,
        -1 <= sign <= 1,
        0 <= magnitude <= JITTER_BOUND,
    ensures
        r as int == jittered(average as int, sign as int, magnitude as int),
        average - JITTER_BOUND <= r <= average + JITTER_BOUND,
{
    let wait: i64 = if sign < 0 {
        average as i64 - magnitude as i64
    } else if sign > 0 {
        average as i64 + magnitude as i64
    } else {
        average as i64
    };
    if wait < 0 {
        average as u64
    } else {
        wait as u64
    }
}

/// A random wait within `JITTER_BOUND` of `average`, never negative.
pub fn get_random_wait_time(average: &i32) -> (r: u64)
    requires
        *average >= 0,
    ensures
        exists|sign: int, magnitude: int|
            -1 <= sign <= 1 && 0 <= magnitude <= JITTER_BOUND && r as int == #[trigger] jittered(
                *average as int,
                sign,
                magnitude,
            ),
        *average - JITTER_BOUND <= r <= *average + JITTER_BOUND,
{
    let magnitude = draw_between(0, JITTER_BOUND);
    let sign = draw_between(-1, 1);
    jittered_wait(*average, sign, magnitude)
}

/// A random string of ASCII letters and digits, 0 to 100 characters long.
pub fn generate_random_string() -> (r: String)
    ensures
        r@.len() <= MAX_RANDOM_STRING_LEN,
        forall|i: int| 0 <= i < r@.len() ==> is_ascii_alphanumeric(#[trigger] r@[i]),
{
    let len = draw_between(0, MAX_RANDOM_STRING_LEN);
    sample_alphanumeric(len as usize)
}

} // verus!
