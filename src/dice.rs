//! The dice example: a random byte becomes a face from 1 to 6.
use vstd::prelude::*;

verus! {

/// The face for a random byte: its remainder by six, plus one.
pub fn dice_value(random_byte: u8) -> (r: u8)
    ensures
        r == random_byte % 6 + 1,
        1 <= r <= 6,
{
    random_byte % 6 + 1
}

} // verus!
