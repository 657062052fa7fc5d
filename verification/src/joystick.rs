//! Decoding of the analog input device's line protocol.
//!
//! The device sends three newline-terminated integer lines per reading, in
//! the fixed order `switch, x, y`, with `x` and `y` roughly in `0..=1023`.
//! The continuous coordinates are scaled linearly onto the discrete board
//! range `0..=8` and clamped.  The serial port itself is read outside the
//! library; only decoded plain values enter it.

use vstd::prelude::*;
use crate::text::{parse_i32, parse_i32_spec, trim, trimmed};

verus! {

/// Linear scaling of one axis value onto `0..=8`: the nearest index to
/// `v * 8 / 1023`, clamped to the board range.
pub open spec fn axis_index(v: int) -> int {
    if v <= 0 {
        0
    } else if v >= 1023 {
        8
    } else {
        (16 * v + 1023) / 2046
    }
}

/// Maps one axis value onto a board coordinate.
pub fn map_axis(v: i32) -> (r: i32)
    ensures
        r as int == axis_index(v as int),
        0 <= r <= 8,
{
    if v <= 0 {
        0
    } else if v >= 1023 {
        8
    } else {
        (16 * v + 1023) / 2046
    }
}

/// The decoded triple of three device lines: each line, trimmed, must be
/// an integer; the triple is `(switch, x, y)`.
pub open spec fn reading_of(a: Seq<char>, b: Seq<char>, c: Seq<char>) -> Option<(int, int, int)> {
    match (parse_i32_spec(trimmed(a)), parse_i32_spec(trimmed(b)), parse_i32_spec(trimmed(c))) {
        (Some(s), Some(x), Some(y)) => Some((s, x, y)),
        _ => None,
    }
}

/// Reads the analog device's line protocol.  The background reading loop
/// itself lives outside the library and hands full three-line buffers in.
pub struct Joystick;

impl Joystick {
    /// Creates a new device decoder.
    pub fn new() -> (r: Joystick) {
        Joystick
    }

    /// Decodes a buffered group of exactly three lines into the raw
    /// `(switch, x, y)` triple, or `None` where the group has the wrong
    /// size or a line is not an integer.
    pub fn parse_joystick_data(&self, lines: &Vec<String>) -> (r: Option<(i32, i32, i32)>)
        ensures
            (match r {
                Some(t) => lines@.len() == 3 && reading_of(lines@[0]@, lines@[1]@, lines@[2]@)
                    == Some((t.0 as int, t.1 as int, t.2 as int)),
                None => lines@.len() != 3 || reading_of(lines@[0]@, lines@[1]@, lines@[2]@)
                    is None,
            }),
    {
        parse_joystick_data(lines)
    }

    /// Decodes a three-line group and maps the axes onto board
    /// coordinates: the result is `(switch, rank, file)` with the rank
    /// taken from `y` and the file from `x`.
    pub fn decode_reading(&self, lines: &Vec<String>) -> (r: Option<(i32, i32, i32)>)
        ensures
            (match r {
                Some(t) => {
                    &&& lines@.len() == 3
                    &&& match reading_of(lines@[0]@, lines@[1]@, lines@[2]@) {
                        Some(raw) => t.0 as int == raw.0 && t.1 as int == axis_index(raw.2)
                            && t.2 as int == axis_index(raw.1),
                        None => false,
                    }
                },
                None => lines@.len() != 3 || reading_of(lines@[0]@, lines@[1]@, lines@[2]@)
                    is None,
            }),
    {
        match parse_joystick_data(lines) {
            Some((switch, x, y)) => Some((switch, map_axis(y), map_axis(x))),
            None => None,
        }
    }
}

/// Decodes a group of exactly three integer lines into `(switch, x, y)`.
pub fn parse_joystick_data(lines: &Vec<String>) -> (r: Option<(i32, i32, i32)>)
    ensures
        (match r {
            Some(t) => lines@.len() == 3 && reading_of(lines@[0]@, lines@[1]@, lines@[2]@) == Some(
                (t.0 as int, t.1 as int, t.2 as int),
            ),
            None => lines@.len() != 3 || reading_of(lines@[0]@, lines@[1]@, lines@[2]@) is None,
        }),
{
    if lines.len() != 3 {
        return None;
    }
    let switch = parse_i32(trim(lines[0].as_str()));
    let x = parse_i32(trim(lines[1].as_str()));
    let y = parse_i32(trim(lines[2].as_str()));
    match (switch, x, y) {
        (Some(s), Some(a), Some(b)) => Some((s, a, b)),
        _ => None,
    }
}

} // verus!
