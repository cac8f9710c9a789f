//! The body chain data model: directions, segments, screen bounds, and the
//! mathematical description of one movement step.

use vstd::prelude::*;
use crate::constants::DEFAULT_SNAKE_DIR;

verus! {

/// A heading of the snake; there are no diagonal states.
#[derive(Clone, Copy, Debug, PartialEq, Eq, Structural)]
pub enum SnakeDir {
    Up,
    Down,
    Left,
    Right,
}

/// One grid cell occupied by the snake. `dir` records the heading this
/// segment last moved with; the chain itself is shifted by position
/// inheritance, so the tag is informational.
#[derive(Clone, Copy, Debug, PartialEq, Eq, Structural)]
pub struct SnakePart {
    pub x: i32,
    pub y: i32,
    pub dir: SnakeDir,
}

/// Inclusive extents of the playing field: a cell (x, y) is on the field
/// exactly when `min_x <= x <= max_x` and `min_y <= y <= max_y`.
#[derive(Clone, Copy, Debug, PartialEq, Eq, Structural)]
pub struct Bounds {
    pub min_x: i32,
    pub min_y: i32,
    pub max_x: i32,
    pub max_y: i32,
}

/// A key the player may press, already freed of any terminal encoding.
#[derive(Clone, Copy, Debug, PartialEq, Eq, Structural)]
pub enum KeyEvent {
    Char(char),
    ArrowUp,
    ArrowDown,
    ArrowLeft,
    ArrowRight,
}

impl Bounds {
    /// A bounds value describes at least one cell.
    pub open spec fn wf(self) -> bool {
        self.min_x <= self.max_x && self.min_y <= self.max_y
    }
}

/// Horizontal displacement of one step in direction `d`.
pub open spec fn dir_dx(d: SnakeDir) -> int {
    match d {
        SnakeDir::Left => -1,
        SnakeDir::Right => 1,
        _ => 0,
    }
}

/// Vertical displacement of one step in direction `d`.
pub open spec fn dir_dy(d: SnakeDir) -> int {
    match d {
        SnakeDir::Up => -1,
        SnakeDir::Down => 1,
        _ => 0,
    }
}

/// Whether the cell (x, y) lies on the field.
pub open spec fn in_bounds(b: Bounds, x: int, y: int) -> bool {
    b.min_x <= x <= b.max_x && b.min_y <= y <= b.max_y
}

/// Whether the cell (x, y) coincides with a segment other than the head
/// (the head is about to move away, so it is excluded).
pub open spec fn hits_non_head(parts: Seq<SnakePart>, x: int, y: int) -> bool {
    exists|i: int| 0 <= i < parts.len() - 1 && parts[i].x == x && parts[i].y == y
}

/// Whether committing the head to (x, y) ends the session: the cell is off
/// the field, or it coincides with a non-head segment.
pub open spec fn is_terminal(parts: Seq<SnakePart>, b: Bounds, x: int, y: int) -> bool {
    !in_bounds(b, x, y) || hits_non_head(parts, x, y)
}

/// Prospective x coordinate of the head after one step in direction `d`.
pub open spec fn prospective_x(parts: Seq<SnakePart>, d: SnakeDir) -> int {
    parts.last().x + dir_dx(d)
}

/// Prospective y coordinate of the head after one step in direction `d`.
pub open spec fn prospective_y(parts: Seq<SnakePart>, d: SnakeDir) -> int {
    parts.last().y + dir_dy(d)
}

/// The head segment after one committed step in direction `d`.
pub open spec fn stepped_head(parts: Seq<SnakePart>, d: SnakeDir) -> SnakePart {
    SnakePart {
        x: prospective_x(parts, d) as i32,
        y: prospective_y(parts, d) as i32,
        dir: d,
    }
}

/// The body after one committed step in direction `d`: every segment takes
/// the place of the one ahead of it, and the new head goes one cell onward.
pub open spec fn advanced(parts: Seq<SnakePart>, d: SnakeDir) -> Seq<SnakePart> {
    parts.subrange(1, parts.len() as int).push(stepped_head(parts, d))
}

/// A fresh segment duplicating the tail's cell, carrying the default heading.
pub open spec fn tail_duplicate(parts: Seq<SnakePart>) -> SnakePart {
    SnakePart { x: parts[0].x, y: parts[0].y, dir: DEFAULT_SNAKE_DIR }
}

/// The body after growing by `n` segments: `n` duplicates of the tail are
/// spliced in at the tail end, leaving every original segment in place.
pub open spec fn grown(parts: Seq<SnakePart>, n: nat) -> Seq<SnakePart> {
    Seq::new(n, |j: int| tail_duplicate(parts)) + parts
}

/// Bounds exclusion: a prospective head cell outside the field in either
/// axis is terminal, whatever the body looks like.
pub proof fn lemma_bounds_exclusion(parts: Seq<SnakePart>, b: Bounds, px: int, py: int)
    requires
        !in_bounds(b, px, py),
    ensures
        is_terminal(parts, b, px, py),
{
}

/// Self-collision symmetry: for a body of at least three segments, a
/// prospective head cell on any non-head segment is terminal, while an
/// in-bounds cell matching no segment at all is not.
pub proof fn lemma_self_collision(parts: Seq<SnakePart>, b: Bounds, px: int, py: int)
    requires
        parts.len() >= 3,
    ensures
        (exists|i: int| 0 <= i < parts.len() - 1 && parts[i].x == px && parts[i].y == py)
            ==> is_terminal(parts, b, px, py),
        (in_bounds(b, px, py) && (forall|i: int|
            0 <= i < parts.len() ==> !(parts[i].x == px && parts[i].y == py)))
            ==> !is_terminal(parts, b, px, py),
{
}

impl SnakePart {
    /// Builds a segment with an explicit heading.
    pub fn dnew(y: i32, x: i32, dir: SnakeDir) -> (r: Self)
        ensures
            r == (SnakePart { x, y, dir }),
    {
        Self { x, y, dir }
    }

    /// Builds a segment with the default heading.
    pub fn new(y: i32, x: i32) -> (r: Self)
        ensures
            r == (SnakePart { x, y, dir: DEFAULT_SNAKE_DIR }),
    {
        Self { x, y, dir: DEFAULT_SNAKE_DIR }
    }

    /// Relocates the segment to (x, y), keeping its heading tag.
    pub fn mv(&mut self, y: i32, x: i32)
        ensures
            *final(self) == (SnakePart { x, y, dir: old(self).dir }),
    {
        self.y = y;
        self.x = x;
    }

    /// Whether the two segments occupy the same cell.
    pub fn cmp(&self, with: &Self) -> (r: bool)
        ensures
            r == (self.x == with.x && self.y == with.y),
    {
        if self.y == with.y && self.x == with.x {
            return true;
        }
        false
    }
}

} // verus!
