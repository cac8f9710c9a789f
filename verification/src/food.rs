//! The single food item: an in-bounds cell it occupies, its glyph and
//! color, and the field it may be relocated within.

use vstd::prelude::*;
use crate::constants::COLOR_RANDOM;
use crate::snake::{Bounds, in_bounds};

verus! {

/// The one food item of a session. It is relocated, not recreated, when
/// consumed, and it always sits on the field it was created for.
#[derive(Clone, Copy, Debug, PartialEq, Eq, Structural)]
pub struct Food {
    pub x: i32,
    pub y: i32,
    pub form: char,
    pub color: i16,
    pub bounds: Bounds,
}

impl Food {
    /// The food's cell lies on its field.
    pub open spec fn wf(self) -> bool {
        self.bounds.wf() && in_bounds(self.bounds, self.x as int, self.y as int)
    }

    /// Places a new food item at a uniformly random in-bounds cell. The
    /// body is not consulted: food may legally appear under the snake.
    pub fn new(bounds: Bounds, form: char, color: i16) -> (r: Self)
        requires
            bounds.wf(),
        ensures
            r.wf(),
            r.bounds == bounds,
            r.form == form,
            r.color == color,
    {
        let x = crate::rng::rand_in(bounds.min_x, bounds.max_x);
        let y = crate::rng::rand_in(bounds.min_y, bounds.max_y);
        Self { x, y, form, color, bounds }
    }

    /// Relocates the food to a fresh uniformly random in-bounds cell.
    pub fn rand_move(&mut self)
        requires
            old(self).wf(),
        ensures
            final(self).wf(),
            final(self).bounds == old(self).bounds,
            final(self).form == old(self).form,
            final(self).color == old(self).color,
    {
        self.x = crate::rng::rand_in(self.bounds.min_x, self.bounds.max_x);
        self.y = crate::rng::rand_in(self.bounds.min_y, self.bounds.max_y);
    }

    /// The glyph the display should draw for the food.
    pub fn form(&self) -> (r: char)
        ensures
            r == self.form,
    {
        self.form
    }

    /// The configured color of the food.
    pub fn color(&self) -> (r: i16)
        ensures
            r == self.color,
    {
        self.color
    }

    /// The field the food is confined to.
    pub fn bounds(&self) -> (r: Bounds)
        ensures
            r == self.bounds,
    {
        self.bounds
    }

    /// The color pair to draw the food with this frame: the configured one,
    /// or a fresh random visible pair when the random color is configured.
    pub fn spawn_color(&self) -> (r: u32)
        ensures
            self.color == COLOR_RANDOM ==> 1 <= r <= 7,
            self.color != COLOR_RANDOM ==> r == self.color as u32,
    {
        if self.color == COLOR_RANDOM {
            crate::color::rand_color()
        } else {
            #[verifier::truncate]
            (self.color as u32)
        }
    }
}

} // verus!
