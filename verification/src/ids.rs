//! Identifiers for tool calls made by the engine, derived from the clock.
use vstd::prelude::*;
use crate::text::push_char;

verus! {

/// The lowercase hexadecimal digits, in order of value.
pub open spec fn hex_alphabet() -> Seq<char> {
    seq!['0', '1', '2', '3', '4', '5', '6', '7', '8', '9', 'a', 'b', 'c', 'd', 'e', 'f']
}

/// The lowercase hexadecimal digit for `d`, which is below 16.
pub open spec fn hex_digit(d: u128) -> char {
    hex_alphabet()[d as int]
}

/// `n` in lowercase hexadecimal, without leading zeros (`"0"` for zero), as
/// `format!("{:x}", n)` writes it.
pub open spec fn hex_digits(n: u128) -> Seq<char>
    decreases n,
{
    if n < 16 {
        seq![hex_digit(n)]
    } else {
        hex_digits(n / 16).push(hex_digit(n % 16))
    }
}

/// The lowercase hexadecimal digit for `d`.
fn hex_char(d: u128) -> (c: char)
    requires
        d < 16,
    ensures
        c == hex_digit(d),
{
    let table: [char; 16] = ['0', '1', '2', '3', '4', '5', '6', '7', '8', '9', 'a', 'b', 'c', 'd', 'e', 'f'];
    let c = table[d as usize];
    assert(table@ =~= hex_alphabet());
    c
}

/// Appends the hexadecimal digits of `n` to `out`.
fn push_hex(out: &mut String, n: u128)
    ensures
        final(out)@ == old(out)@ + hex_digits(n),
    decreases n,
{
    if n >= 16 {
        push_hex(out, n / 16);
    }
    push_char(out, hex_char(n % 16));
    proof {
        if n < 16 {
            assert(n % 16 == n);
        }
    }
}

/// `n` in lowercase hexadecimal.
pub fn to_hex(n: u128) -> (r: String)
    ensures
        r@ == hex_digits(n),
{
    let mut out = String::new();
    push_hex(&mut out, n);
    assert(out@ =~= hex_digits(n));
    out
}

/// `std::time::SystemTime`, a reading of the system clock.
#[verifier::external_type_specification]
#[verifier::external_body]
pub struct ExSystemTime(std::time::SystemTime);

/// Calls `SystemTime::now`; nothing is claimed of the reading, which depends
/// on the clock.
#[verifier::external_body]
fn clock_now() -> (r: std::time::SystemTime) {
    std::time::SystemTime::now()
}

/// `time.duration_since(UNIX_EPOCH).ok()`: the time elapsed since the Unix
/// epoch, or `None` for a reading before it.
pub uninterp spec fn epoch_offset(time: std::time::SystemTime) -> Option<std::time::Duration>;

/// `duration.as_nanos()`: the whole duration in nanoseconds.
pub uninterp spec fn nanos_of(duration: std::time::Duration) -> u128;

/// The nanoseconds since the epoch at the clock reading `time`, or zero for
/// a reading before it.
pub open spec fn clock_nanos(time: std::time::SystemTime) -> u128 {
    match epoch_offset(time) {
        Some(d) => nanos_of(d),
        None => 0,
    }
}

/// Calls `SystemTime::duration_since` with `UNIX_EPOCH`: the time elapsed
/// since the epoch, or `None` for a reading before it. The contract claims
/// the result is `epoch_offset` of the reading, which depends on it alone.
#[verifier::external_body]
fn since_epoch(time: &std::time::SystemTime) -> (r: Option<std::time::Duration>)
    ensures
        r == epoch_offset(*time),
{
    match time.duration_since(std::time::UNIX_EPOCH) {
        Ok(d) => Some(d),
        Err(_) => None,
    }
}

/// Calls `Duration::as_nanos`: the whole duration in nanoseconds. The
/// contract claims the result is `nanos_of` the duration.
#[verifier::external_body]
fn duration_nanos(duration: &std::time::Duration) -> (r: u128)
    ensures
        r == nanos_of(*duration),
{
    duration.as_nanos()
}

/// An identifier made of the current time in nanoseconds since the Unix
/// epoch, in hexadecimal (zero if the clock reads a time before the epoch).
pub fn uuid_simple() -> (r: String)
    ensures
        exists|n: u128| r@ == hex_digits(n),
        exists|time: std::time::SystemTime| r@ == hex_digits(clock_nanos(time)),
{
    let now = clock_now();
    let nanos = match since_epoch(&now) {
        Some(d) => duration_nanos(&d),
        None => 0,
    };
    assert(nanos == clock_nanos(now));
    to_hex(nanos)
}

/// Hexadecimal numerals are never empty.
pub proof fn lemma_hex_digits_nonempty(n: u128)
    ensures
        hex_digits(n).len() > 0,
    decreases n,
{
    if n >= 16 {
        lemma_hex_digits_nonempty(n / 16);
    }
}

} // verus!
