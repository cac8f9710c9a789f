//! Random selection among the visible color pairs. Registering the pairs
//! with the terminal is the display layer's business.

use vstd::prelude::*;
use crate::constants::{COLOR_PAIR_WHITE, COLOR_PAIR_MAGENTA};

verus! {

/// Picks one of the seven visible color pairs uniformly at random.
pub fn rand_color() -> (r: u32)
    ensures
        COLOR_PAIR_WHITE <= r <= COLOR_PAIR_MAGENTA,
{
    let c: i32 = crate::rng::rand_in(COLOR_PAIR_WHITE as i32, COLOR_PAIR_MAGENTA as i32);
    c as u32
}

} // verus!
