//! Milliseconds as text, and the wall clock the timing widgets read.

use vstd::prelude::*;
use crate::text::{append_chars, chars_of, string_of};

verus! {

/// The decimal digit for `d`, `0 <= d < 10`.
pub open spec fn digit_char(d: int) -> char {
    if d == 0 {
        '0'
    } else if d == 1 {
        '1'
    } else if d == 2 {
        '2'
    } else if d == 3 {
        '3'
    } else if d == 4 {
        '4'
    } else if d == 5 {
        '5'
    } else if d == 6 {
        '6'
    } else if d == 7 {
        '7'
    } else if d == 8 {
        '8'
    } else {
        '9'
    }
}

/// The decimal digits of `n`, without leading zeros (`"0"` for zero).
pub open spec fn decimal(n: nat) -> Seq<char>
    decreases n,
{
    if n < 10 {
        seq![digit_char(n as int)]
    } else {
        decimal(n / 10).push(digit_char((n % 10) as int))
    }
}

/// `n` in decimal with zeros in front up to `width` characters.
pub open spec fn padded(n: nat, width: nat) -> Seq<char> {
    let d = decimal(n);
    if d.len() >= width {
        d
    } else {
        Seq::new((width - d.len()) as nat, |i: int| '0') + d
    }
}

/// A time of `ms` milliseconds after `prefix`: milliseconds alone under a
/// second; `s.mmm` under a minute; `m:ss.mmm` under an hour; `h:mm:ss.mmm`
/// beyond. With `wrap_units` the minutes and seconds shown are those past the
/// larger unit; without, they are the totals.
pub open spec fn clock_text(prefix: Seq<char>, ms: nat, wrap_units: bool) -> Seq<char> {
    let millis = ms % 1000;
    let secs = ms / 1000;
    let minutes = secs / 60;
    let hours = minutes / 60;
    let shown_secs = if wrap_units { secs % 60 } else { secs };
    let shown_minutes = if wrap_units { minutes % 60 } else { minutes };
    if secs == 0 {
        prefix + padded(millis, 3) + "ms"@
    } else if secs < 60 {
        prefix + decimal(secs) + "."@ + padded(millis, 3) + "s"@
    } else if secs < 3600 {
        prefix + decimal(minutes) + ":"@ + padded(shown_secs, 2) + "."@ + padded(millis, 3)
            + "m"@
    } else {
        prefix + decimal(hours) + ":"@ + padded(shown_minutes, 2) + ":"@ + padded(shown_secs, 2)
            + "."@ + padded(millis, 3) + "h"@
    }
}

/// Lengths of short decimals.
proof fn lemma_decimal_len(n: nat)
    ensures
        decimal(n).len() >= 1,
        n < 10 ==> decimal(n).len() == 1,
        10 <= n < 100 ==> decimal(n).len() == 2,
        n >= 10 ==> decimal(n).len() >= 2,
        n >= 100 ==> decimal(n).len() >= 3,
    decreases n,
{
    if n >= 10 {
        lemma_decimal_len(n / 10);
    }
}

fn digit(d: u64) -> (c: char)
    requires
        d < 10,
    ensures
        c == digit_char(d as int),
{
    if d == 0 {
        '0'
    } else if d == 1 {
        '1'
    } else if d == 2 {
        '2'
    } else if d == 3 {
        '3'
    } else if d == 4 {
        '4'
    } else if d == 5 {
        '5'
    } else if d == 6 {
        '6'
    } else if d == 7 {
        '7'
    } else if d == 8 {
        '8'
    } else {
        '9'
    }
}

/// Appends the decimal digits of `n`.
pub fn push_decimal(out: &mut Vec<char>, n: u64)
    ensures
        final(out)@ == old(out)@ + decimal(n as nat),
    decreases n,
{
    if n >= 10 {
        push_decimal(out, n / 10);
    }
    out.push(digit(n % 10));
    assert(out@ =~= old(out)@ + decimal(n as nat));
}

/// Appends `n` in decimal, with zeros in front up to `width` (2 or 3)
/// characters.
pub fn push_padded(out: &mut Vec<char>, n: u64, width: usize)
    requires
        width == 2 || width == 3,
    ensures
        final(out)@ == old(out)@ + padded(n as nat, width as nat),
{
    proof {
        lemma_decimal_len(n as nat);
    }
    let ghost d = decimal(n as nat);
    if width == 3 && n < 100 {
        out.push('0');
    }
    if n < 10 {
        out.push('0');
    }
    push_decimal(out, n);
    proof {
        if d.len() >= width {
            assert(out@ =~= old(out)@ + d);
        } else {
            assert(out@ =~= old(out)@ + (Seq::new((width - d.len()) as nat, |i: int| '0') + d));
        }
    }
}

/// Appends the characters of `s`.
fn push_str(out: &mut Vec<char>, s: &str)
    ensures
        final(out)@ == old(out)@ + s@,
{
    append_chars(out, &chars_of(s));
}

/// `ms` milliseconds as text after `prefix`; see [`clock_text`].
pub fn format_clock(prefix: &str, ms: u64, wrap_units: bool) -> (r: String)
    ensures
        r@ == clock_text(prefix@, ms as nat, wrap_units),
{
    let millis = ms % 1000;
    let secs = ms / 1000;
    let minutes = secs / 60;
    let hours = minutes / 60;
    let shown_secs = if wrap_units { secs % 60 } else { secs };
    let shown_minutes = if wrap_units { minutes % 60 } else { minutes };
    let mut out: Vec<char> = Vec::new();
    push_str(&mut out, prefix);
    if secs == 0 {
        push_padded(&mut out, millis, 3);
        push_str(&mut out, "ms");
    } else if secs < 60 {
        push_decimal(&mut out, secs);
        push_str(&mut out, ".");
        push_padded(&mut out, millis, 3);
        push_str(&mut out, "s");
    } else if secs < 3600 {
        push_decimal(&mut out, minutes);
        push_str(&mut out, ":");
        push_padded(&mut out, shown_secs, 2);
        push_str(&mut out, ".");
        push_padded(&mut out, millis, 3);
        push_str(&mut out, "m");
    } else {
        push_decimal(&mut out, hours);
        push_str(&mut out, ":");
        push_padded(&mut out, shown_minutes, 2);
        push_str(&mut out, ":");
        push_padded(&mut out, shown_secs, 2);
        push_str(&mut out, ".");
        push_padded(&mut out, millis, 3);
        push_str(&mut out, "h");
    }
    string_of(&out)
}

/// Relies on `std::time::SystemTime::now`: the wall clock in milliseconds
/// since the Unix epoch, 0 when the clock reads earlier. Nothing is promised
/// of the value.
#[verifier::external_body]
pub(crate) fn clock_millis() -> u64 {
    std::time::SystemTime::now().duration_since(std::time::UNIX_EPOCH).map(
        |d| d.as_millis() as u64,
    ).unwrap_or(0)
}

/// `now - start`, or 0 when the clock reads earlier than `start`.
pub open spec fn since(start: u64, now: u64) -> int {
    if now >= start { now - start } else { 0 }
}

} // verus!
