//! Hexadecimal rendering used by the diagnostic trace strings that the
//! `_with_log` entry points return.  The trace is an observer's view of the
//! computation and carries no contract of its own.

use vstd::prelude::*;
use vstd::string::StringExecFns;

verus! {

/// The hex digit for a nibble value; values 16 and above do not occur.
fn hex_digit_str(n: u8) -> &'static str {
    match n {
        0 => "0",
        1 => "1",
        2 => "2",
        3 => "3",
        4 => "4",
        5 => "5",
        6 => "6",
        7 => "7",
        8 => "8",
        9 => "9",
        10 => "a",
        11 => "b",
        12 => "c",
        13 => "d",
        14 => "e",
        _ => "f",
    }
}

/// Append the two hex digits of one byte.
pub(crate) fn push_hex_byte(out: &mut String, b: u8) {
    out.append(hex_digit_str(b >> 4));
    out.append(hex_digit_str(b & 0x0f));
}

/// Append the hex digits of a run of bytes.
pub(crate) fn push_hex_bytes(out: &mut String, bytes: &[u8]) {
    let mut i: usize = 0;
    while i < bytes.len()
        invariant
            i <= bytes@.len(),
        decreases bytes@.len() - i,
    {
        push_hex_byte(out, bytes[i]);
        i += 1;
    }
}

/// A decimal label for a round number; the cipher has rounds 0 through 10.
pub(crate) fn round_label(r: usize) -> &'static str {
    match r {
        0 => "0",
        1 => "1",
        2 => "2",
        3 => "3",
        4 => "4",
        5 => "5",
        6 => "6",
        7 => "7",
        8 => "8",
        9 => "9",
        _ => "10",
    }
}

} // verus!
