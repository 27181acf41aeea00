//! The tilt example: a lit pixel moves one step per reading toward the side
//! the board is tilted to, and stays inside the matrix.
use vstd::prelude::*;

verus! {

/// Tilt, in milli-g, beyond which the pixel moves.
pub const TILT_THRESHOLD: i32 = 100;

/// One coordinate after a move: one step up or down, kept within 0..=4.
pub open spec fn moved(pos: i8, up: bool, down: bool) -> i8 {
    if up {
        if pos < 4 { (pos + 1) as i8 } else { 4 }
    } else if down {
        if pos > 0 { (pos - 1) as i8 } else { 0 }
    } else {
        pos
    }
}

/// The pixel's row and column after a reading of `x` and `y` acceleration:
/// a tilt right (x above the threshold) moves it one column right, a tilt
/// left one column left; a tilt forward (y above the threshold) moves it one
/// row up, a tilt back one row down.
pub fn tilt_step(row: i8, col: i8, x: i32, y: i32) -> (r: (i8, i8))
    requires
        0 <= row <= 4,
        0 <= col <= 4,
    ensures
        r.0 == moved(row, y < -TILT_THRESHOLD, y > TILT_THRESHOLD),
        r.1 == moved(col, x > TILT_THRESHOLD, x < -TILT_THRESHOLD),
        0 <= r.0 <= 4,
        0 <= r.1 <= 4,
{
    let mut new_col = col;
    if x > TILT_THRESHOLD {
        if col < 4 {
            new_col = col + 1;
        }
    } else if x < -TILT_THRESHOLD {
        if col > 0 {
            new_col = col - 1;
        }
    }
    let mut new_row = row;
    if y > TILT_THRESHOLD {
        if row > 0 {
            new_row = row - 1;
        }
    } else if y < -TILT_THRESHOLD {
        if row < 4 {
            new_row = row + 1;
        }
    }
    (new_row, new_col)
}

} // verus!
