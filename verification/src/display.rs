//! Fixed-width text rendering of readings for the character display.
//!
//! The display hardware itself is an outside collaborator; this module holds
//! the rendering rules the core is responsible for: a temperature is shown
//! as a sign byte and three decimal digits (blank for out-of-range digits),
//! an absent reading as the literal `None`, and a state label fills a
//! 16-column row padded with spaces.

use vstd::prelude::*;

verus! {

/// The display byte of one decimal digit; anything outside 0..=9 renders as
/// a blank.
pub open spec fn num_char(input: int) -> u8 {
    if 0 <= input <= 9 {
        (0x30 + input) as u8
    } else {
        0x20
    }
}

/// The magnitude of a reading, as the digits to display.
pub open spec fn temp_magnitude(t: i16) -> int {
    if t < 0 {
        -(t as int)
    } else {
        t as int
    }
}

/// The four display bytes of a reading: the sign and the three decimal
/// digits of its magnitude (most significant first; a magnitude beyond three
/// digits blanks the overflowing position), or the literal `None` when the
/// reading is absent.
pub open spec fn temp_bytes(temp: Option<i16>) -> Seq<u8> {
    match temp {
        None => seq![0x4Eu8, 0x6Fu8, 0x6Eu8, 0x65u8],
        Some(t) => {
            let sign: u8 = if t < 0 {
                0x2D
            } else {
                0x2B
            };
            let mag = temp_magnitude(t);
            seq![sign, num_char(mag / 100), num_char((mag / 10) % 10), num_char(mag % 10)]
        },
    }
}

/// A 16-column display row: the first 16 bytes of `label`, padded out with
/// spaces.
pub open spec fn padded_line(label: Seq<u8>) -> Seq<u8> {
    Seq::new(16, |i: int| if i < label.len() {
        label[i]
    } else {
        0x20u8
    })
}

/// The display byte of one decimal digit.
pub fn num2char(input: i16) -> (r: u8)
    ensures
        r == num_char(input as int),
{
    match input {
        0 => 0x30,
        1 => 0x31,
        2 => 0x32,
        3 => 0x33,
        4 => 0x34,
        5 => 0x35,
        6 => 0x36,
        7 => 0x37,
        8 => 0x38,
        9 => 0x39,
        _ => 0x20,
    }
}

/// Render a reading as its four display bytes.
pub fn temp_to_bytes(temp: Option<i16>) -> (r: [u8; 4])
    ensures
        r@ == temp_bytes(temp),
{
    match temp {
        None => {
            let out: [u8; 4] = [0x4E, 0x6F, 0x6E, 0x65];
            proof {
                assert(out@ =~= temp_bytes(temp));
            }
            out
        },
        Some(t) => {
            let sign: u8 = if t < 0 {
                0x2D
            } else {
                0x2B
            };
            let mag: u16 = if t < 0 {
                (-(t as i32)) as u16
            } else {
                t as u16
            };
            let d1 = mag / 100;
            let d2 = (mag / 10) % 10;
            let d3 = mag % 10;
            proof {
                vstd::arithmetic::div_mod::lemma_fundamental_div_mod(mag as int, 100);
                vstd::arithmetic::div_mod::lemma_mod_bound(mag as int, 100);
            }
            let out: [u8; 4] = [sign, num2char(d1 as i16), num2char(d2 as i16), num2char(
                d3 as i16)];
            proof {
                assert(out@ =~= temp_bytes(temp));
            }
            out
        },
    }
}

/// Render a state label as a full 16-column display row.
pub fn state_line(label: &[u8]) -> (line: Vec<u8>)
    ensures
        line@ == padded_line(label@),
{
    let mut line: Vec<u8> = Vec::new();
    let mut i: usize = 0;
    while i < 16
        invariant
            i <= 16,
            line@.len() == i,
            forall|k: int| 0 <= k < i ==> line@[k] == padded_line(label@)[k],
        decreases 16 - i,
    {
        if i < label.len() {
            let b = label[i];
            line.push(b);
        } else {
            line.push(0x20);
        }
        i = i + 1;
    }
    proof {
        assert(line@ =~= padded_line(label@));
    }
    line
}

} // verus!
