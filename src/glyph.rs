//! Fixed 5×5 images for the LED matrix: the countdown digits, the dice faces
//! and the sound-level pictures.
use vstd::prelude::*;

verus! {

/// One full image for the 5×5 matrix, row by row; a pixel is lit when non-zero.
pub type Frame = [[u8; 5]; 5];

/// The glyph value that the countdown draws as an empty matrix.
pub const BLANK: u32 = 11;

/// The rows of a frame as a sequence of sequences.
pub open spec fn frame_view(f: Frame) -> Seq<Seq<u8>> {
    Seq::new(5, |i: int| f[i]@)
}

/// Every pixel dark.
pub open spec fn blank_rows() -> Seq<Seq<u8>> {
    seq![
        seq![0u8, 0, 0, 0, 0],
        seq![0u8, 0, 0, 0, 0],
        seq![0u8, 0, 0, 0, 0],
        seq![0u8, 0, 0, 0, 0],
        seq![0u8, 0, 0, 0, 0],
    ]
}

/// Every pixel lit.
pub open spec fn full_rows() -> Seq<Seq<u8>> {
    seq![
        seq![1u8, 1, 1, 1, 1],
        seq![1u8, 1, 1, 1, 1],
        seq![1u8, 1, 1, 1, 1],
        seq![1u8, 1, 1, 1, 1],
        seq![1u8, 1, 1, 1, 1],
    ]
}

/// The countdown glyph for `value`: the digits 0 to 9, a two-digit "10", and an
/// empty matrix for every other value (`BLANK` among them).
pub open spec fn digit_rows(value: u32) -> Seq<Seq<u8>> {
    if value == 0 {
        seq![
            seq![0u8, 1, 1, 1, 0],
            seq![0u8, 1, 0, 1, 0],
            seq![0u8, 1, 0, 1, 0],
            seq![0u8, 1, 0, 1, 0],
            seq![0u8, 1, 1, 1, 0],
        ]
    } else if value == 1 {
        seq![
            seq![0u8, 0, 1, 0, 0],
            seq![0u8, 1, 1, 0, 0],
            seq![0u8, 0, 1, 0, 0],
            seq![0u8, 0, 1, 0, 0],
            seq![0u8, 1, 1, 1, 0],
        ]
    } else if value == 2 {
        seq![
            seq![0u8, 1, 1, 1, 0],
            seq![0u8, 0, 0, 1, 0],
            seq![0u8, 1, 1, 1, 0],
            seq![0u8, 1, 0, 0, 0],
            seq![0u8, 1, 1, 1, 0],
        ]
    } else if value == 3 {
        seq![
            seq![0u8, 1, 1, 1, 0],
            seq![0u8, 0, 0, 1, 0],
            seq![0u8, 1, 1, 1, 0],
            seq![0u8, 0, 0, 1, 0],
            seq![0u8, 1, 1, 1, 0],
        ]
    } else if value == 4 {
        seq![
            seq![0u8, 1, 0, 1, 0],
            seq![0u8, 1, 0, 1, 0],
            seq![0u8, 1, 1, 1, 0],
            seq![0u8, 0, 0, 1, 0],
            seq![0u8, 0, 0, 1, 0],
        ]
    } else if value == 5 {
        seq![
            seq![0u8, 1, 1, 1, 0],
            seq![0u8, 1, 0, 0, 0],
            seq![0u8, 1, 1, 1, 0],
            seq![0u8, 0, 0, 1, 0],
            seq![0u8, 1, 1, 1, 0],
        ]
    } else if value == 6 {
        seq![
            seq![0u8, 1, 1, 1, 0],
            seq![0u8, 1, 0, 0, 0],
            seq![0u8, 1, 1, 1, 0],
            seq![0u8, 1, 0, 1, 0],
            seq![0u8, 1, 1, 1, 0],
        ]
    } else if value == 7 {
        seq![
            seq![0u8, 1, 1, 1, 0],
            seq![0u8, 0, 0, 1, 0],
            seq![0u8, 0, 1, 0, 0],
            seq![0u8, 0, 1, 0, 0],
            seq![0u8, 0, 1, 0, 0],
        ]
    } else if value == 8 {
        seq![
            seq![0u8, 1, 1, 1, 0],
            seq![0u8, 1, 0, 1, 0],
            seq![0u8, 1, 1, 1, 0],
            seq![0u8, 1, 0, 1, 0],
            seq![0u8, 1, 1, 1, 0],
        ]
    } else if value == 9 {
        seq![
            seq![0u8, 1, 1, 1, 0],
            seq![0u8, 1, 0, 1, 0],
            seq![0u8, 1, 1, 1, 0],
            seq![0u8, 0, 0, 1, 0],
            seq![0u8, 1, 1, 1, 0],
        ]
    } else if value == 10 {
        seq![
            seq![1u8, 0, 1, 1, 1],
            seq![1u8, 0, 1, 0, 1],
            seq![1u8, 0, 1, 0, 1],
            seq![1u8, 0, 1, 0, 1],
            seq![1u8, 0, 1, 1, 1],
        ]
    } else {
        blank_rows()
    }
}

/// The dice face for `value`: the digits 1 to 6, an empty matrix otherwise.
pub open spec fn dice_rows(value: u8) -> Seq<Seq<u8>> {
    if 1 <= value <= 6 {
        digit_rows(value as u32)
    } else {
        blank_rows()
    }
}

/// The picture for a sound level: a dot, two crosses, a diamond, a ring, and
/// the whole matrix from level 5 up.
pub open spec fn level_rows(level: usize) -> Seq<Seq<u8>> {
    if level == 0 {
        seq![
            seq![0u8, 0, 0, 0, 0],
            seq![0u8, 0, 0, 0, 0],
            seq![0u8, 0, 1, 0, 0],
            seq![0u8, 0, 0, 0, 0],
            seq![0u8, 0, 0, 0, 0],
        ]
    } else if level == 1 {
        seq![
            seq![0u8, 0, 0, 0, 0],
            seq![0u8, 0, 1, 0, 0],
            seq![0u8, 1, 1, 1, 0],
            seq![0u8, 0, 1, 0, 0],
            seq![0u8, 0, 0, 0, 0],
        ]
    } else if level == 2 {
        seq![
            seq![0u8, 0, 1, 0, 0],
            seq![0u8, 1, 1, 1, 0],
            seq![1u8, 1, 1, 1, 1],
            seq![0u8, 1, 1, 1, 0],
            seq![0u8, 0, 1, 0, 0],
        ]
    } else if level == 3 {
        seq![
            seq![0u8, 0, 1, 0, 0],
            seq![0u8, 1, 0, 1, 0],
            seq![1u8, 0, 1, 0, 1],
            seq![0u8, 1, 0, 1, 0],
            seq![0u8, 0, 1, 0, 0],
        ]
    } else if level == 4 {
        seq![
            seq![1u8, 1, 1, 1, 1],
            seq![1u8, 0, 0, 0, 1],
            seq![1u8, 0, 1, 0, 1],
            seq![1u8, 0, 0, 0, 1],
            seq![1u8, 1, 1, 1, 1],
        ]
    } else {
        full_rows()
    }
}

/// The countdown glyph for `value`.
pub fn get_digit_pattern(value: u32) -> (r: Frame)
    ensures
        frame_view(r) == digit_rows(value),
{
    let r: Frame = match value {
        0 => [
            [0, 1, 1, 1, 0],
            [0, 1, 0, 1, 0],
            [0, 1, 0, 1, 0],
            [0, 1, 0, 1, 0],
            [0, 1, 1, 1, 0],
        ],
        1 => [
            [0, 0, 1, 0, 0],
            [0, 1, 1, 0, 0],
            [0, 0, 1, 0, 0],
            [0, 0, 1, 0, 0],
            [0, 1, 1, 1, 0],
        ],
        2 => [
            [0, 1, 1, 1, 0],
            [0, 0, 0, 1, 0],
            [0, 1, 1, 1, 0],
            [0, 1, 0, 0, 0],
            [0, 1, 1, 1, 0],
        ],
        3 => [
            [0, 1, 1, 1, 0],
            [0, 0, 0, 1, 0],
            [0, 1, 1, 1, 0],
            [0, 0, 0, 1, 0],
            [0, 1, 1, 1, 0],
        ],
        4 => [
            [0, 1, 0, 1, 0],
            [0, 1, 0, 1, 0],
            [0, 1, 1, 1, 0],
            [0, 0, 0, 1, 0],
            [0, 0, 0, 1, 0],
        ],
        5 => [
            [0, 1, 1, 1, 0],
            [0, 1, 0, 0, 0],
            [0, 1, 1, 1, 0],
            [0, 0, 0, 1, 0],
            [0, 1, 1, 1, 0],
        ],
        6 => [
            [0, 1, 1, 1, 0],
            [0, 1, 0, 0, 0],
            [0, 1, 1, 1, 0],
            [0, 1, 0, 1, 0],
            [0, 1, 1, 1, 0],
        ],
        7 => [
            [0, 1, 1, 1, 0],
            [0, 0, 0, 1, 0],
            [0, 0, 1, 0, 0],
            [0, 0, 1, 0, 0],
            [0, 0, 1, 0, 0],
        ],
        8 => [
            [0, 1, 1, 1, 0],
            [0, 1, 0, 1, 0],
            [0, 1, 1, 1, 0],
            [0, 1, 0, 1, 0],
            [0, 1, 1, 1, 0],
        ],
        9 => [
            [0, 1, 1, 1, 0],
            [0, 1, 0, 1, 0],
            [0, 1, 1, 1, 0],
            [0, 0, 0, 1, 0],
            [0, 1, 1, 1, 0],
        ],
        10 => [
            [1, 0, 1, 1, 1],
            [1, 0, 1, 0, 1],
            [1, 0, 1, 0, 1],
            [1, 0, 1, 0, 1],
            [1, 0, 1, 1, 1],
        ],
        _ => [
            [0, 0, 0, 0, 0],
            [0, 0, 0, 0, 0],
            [0, 0, 0, 0, 0],
            [0, 0, 0, 0, 0],
            [0, 0, 0, 0, 0],
        ],
    };
    assert(frame_view(r) =~~= digit_rows(value));
    r
}

/// The dice face showing `value`.
pub fn get_dice_pattern(value: u8) -> (r: Frame)
    ensures
        frame_view(r) == dice_rows(value),
{
    if 1 <= value && value <= 6 {
        get_digit_pattern(value as u32)
    } else {
        get_digit_pattern(BLANK)
    }
}

/// The picture for sound level `level`.
pub fn create_visualizer_pattern(level: usize) -> (r: Frame)
    ensures
        frame_view(r) == level_rows(level),
{
    let r: Frame = match level {
        0 => [
            [0, 0, 0, 0, 0],
            [0, 0, 0, 0, 0],
            [0, 0, 1, 0, 0],
            [0, 0, 0, 0, 0],
            [0, 0, 0, 0, 0],
        ],
        1 => [
            [0, 0, 0, 0, 0],
            [0, 0, 1, 0, 0],
            [0, 1, 1, 1, 0],
            [0, 0, 1, 0, 0],
            [0, 0, 0, 0, 0],
        ],
        2 => [
            [0, 0, 1, 0, 0],
            [0, 1, 1, 1, 0],
            [1, 1, 1, 1, 1],
            [0, 1, 1, 1, 0],
            [0, 0, 1, 0, 0],
        ],
        3 => [
            [0, 0, 1, 0, 0],
            [0, 1, 0, 1, 0],
            [1, 0, 1, 0, 1],
            [0, 1, 0, 1, 0],
            [0, 0, 1, 0, 0],
        ],
        4 => [
            [1, 1, 1, 1, 1],
            [1, 0, 0, 0, 1],
            [1, 0, 1, 0, 1],
            [1, 0, 0, 0, 1],
            [1, 1, 1, 1, 1],
        ],
        _ => [
            [1, 1, 1, 1, 1],
            [1, 1, 1, 1, 1],
            [1, 1, 1, 1, 1],
            [1, 1, 1, 1, 1],
            [1, 1, 1, 1, 1],
        ],
    };
    assert(frame_view(r) =~~= level_rows(level));
    r
}

} // verus!
