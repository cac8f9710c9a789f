//! The player-driven snake session: its body chain, heading, score and
//! growth bookkeeping, and the per-tick engine that moves, checks and grows
//! the chain. Reading keys and drawing glyphs happen outside; this module
//! only decides.

use vstd::prelude::*;
use crate::constants::{COORD_CENTER, DEFAULT_SNAKE_DIR, COLOR_RANDOM};
use crate::food::Food;
use crate::snake::{
    Bounds, KeyEvent, SnakeDir, SnakePart, advanced, dir_dx, dir_dy, grown, in_bounds,
    is_terminal, prospective_x, prospective_y,
};

verus! {

/// One game session: the body runs tail first, head last, and the head is
/// the segment the player steers.
pub struct SnakePlayer {
    pub form: char,
    pub color: u32,
    pub dir: SnakeDir,
    pub length: usize,
    pub score: usize,
    pub incval: usize,
    pub bounds: Bounds,
    pub running: bool,
    pub parts: Vec<SnakePart>,
}

/// The heading after one key: w/s/a/d and the arrow keys steer, anything
/// else keeps the previous heading.
pub open spec fn ctrl_dir(key: Option<KeyEvent>, cur: SnakeDir) -> SnakeDir {
    match key {
        Some(KeyEvent::Char(c)) => if c == 'w' {
            SnakeDir::Up
        } else if c == 's' {
            SnakeDir::Down
        } else if c == 'a' {
            SnakeDir::Left
        } else if c == 'd' {
            SnakeDir::Right
        } else {
            cur
        },
        Some(KeyEvent::ArrowUp) => SnakeDir::Up,
        Some(KeyEvent::ArrowDown) => SnakeDir::Down,
        Some(KeyEvent::ArrowLeft) => SnakeDir::Left,
        Some(KeyEvent::ArrowRight) => SnakeDir::Right,
        None => cur,
    }
}

/// The session's configuration is untouched between `pre` and `post`.
pub open spec fn cfg_unchanged(pre: SnakePlayer, post: SnakePlayer) -> bool {
    &&& post.form == pre.form
    &&& post.color == pre.color
    &&& post.incval == pre.incval
    &&& post.bounds == pre.bounds
}

impl SnakePlayer {
    /// A session is well formed when the body is non-empty, the recorded
    /// length agrees with the chain, and the field has at least one cell.
    pub open spec fn wf(self) -> bool {
        &&& self.parts@.len() == self.length
        &&& self.length >= 1
        &&& self.bounds.wf()
    }

    /// Row of the initial placement: the vertical screen center when asked
    /// for, else the requested row.
    pub open spec fn start_row(b: Bounds, pos: SnakePart) -> int {
        if pos.y == COORD_CENTER {
            b.max_y as int / 2
        } else {
            pos.y as int
        }
    }

    /// Column of the initial tail: left of the horizontal center by the
    /// body's length when asked for, else the requested column.
    pub open spec fn start_col(b: Bounds, pos: SnakePart, size: int) -> int {
        if pos.x == COORD_CENTER {
            b.max_x as int / 2 - size
        } else {
            pos.x as int
        }
    }

    /// Segment `i` of the initial body: one row of `size` cells, tail
    /// first; a leftward initial heading flips the row so the head is the
    /// leftmost cell.
    pub open spec fn initial_part(b: Bounds, pos: SnakePart, size: int, i: int) -> SnakePart {
        let off = if pos.dir == SnakeDir::Left {
            size - 1 - i
        } else {
            i
        };
        SnakePart {
            x: (Self::start_col(b, pos, size) + off) as i32,
            y: Self::start_row(b, pos) as i32,
            dir: DEFAULT_SNAKE_DIR,
        }
    }

    /// Builds a session: a straight initial body of `size` segments placed
    /// per `pos` (with the center sentinel resolved against the field),
    /// heading `pos.dir`, score zero, in the running state.
    pub fn new(
        bounds: Bounds,
        form: char,
        size: usize,
        incval: usize,
        pos: SnakePart,
        color: u32,
    ) -> (r: Self)
        requires
            bounds.wf(),
            1 <= size,
            pos.y == COORD_CENTER ==> bounds.max_y >= 0,
            pos.x == COORD_CENTER ==> bounds.max_x >= 0,
            i32::MIN <= Self::start_col(bounds, pos, size as int),
            Self::start_col(bounds, pos, size as int) + size - 1 <= i32::MAX,
        ensures
            r.wf(),
            r.form == form,
            r.color == color,
            r.dir == pos.dir,
            r.length == size,
            r.score == 0,
            r.incval == incval,
            r.bounds == bounds,
            r.running,
            r.parts@.len() == size,
            forall|i: int|
                0 <= i < size ==> r.parts@[i] == Self::initial_part(bounds, pos, size as int, i),
    {
        let row: i32 = if pos.y == COORD_CENTER {
            ((bounds.max_y as u32) / 2) as i32
        } else {
            pos.y
        };
        let col: i64 = if pos.x == COORD_CENTER {
            ((bounds.max_x as u32) / 2) as i64 - size as i64
        } else {
            pos.x as i64
        };
        let left = matches!(pos.dir, SnakeDir::Left);
        let mut parts: Vec<SnakePart> = Vec::new();
        let mut i: usize = 0;
        while i < size
            invariant
                i <= size,
                parts@.len() == i,
                1 <= size,
                col as int == Self::start_col(bounds, pos, size as int),
                row as int == Self::start_row(bounds, pos),
                left == (pos.dir == SnakeDir::Left),
                i32::MIN <= col,
                col + size - 1 <= i32::MAX,
                forall|j: int|
                    0 <= j < i ==> parts@[j] == Self::initial_part(bounds, pos, size as int, j),
            decreases size - i,
        {
            let off: i64 = if left {
                (size - 1 - i) as i64
            } else {
                i as i64
            };
            let x: i32 = (col + off) as i32;
            parts.push(SnakePart { x, y: row, dir: DEFAULT_SNAKE_DIR });
            i = i + 1;
        }
        Self {
            form,
            color,
            dir: pos.dir,
            length: size,
            score: 0,
            incval,
            bounds,
            running: true,
            parts,
        }
    }

    /// The number of segments in the body.
    pub fn len(&self) -> (r: usize)
        ensures
            r == self.length,
    {
        self.length
    }

    /// The configured body color.
    pub fn color(&self) -> (r: u32)
        ensures
            r == self.color,
    {
        self.color
    }

    /// The glyph the display should draw for each segment.
    pub fn form(&self) -> (r: char)
        ensures
            r == self.form,
    {
        self.form
    }

    /// Food items consumed so far.
    pub fn score(&self) -> (r: usize)
        ensures
            r == self.score,
    {
        self.score
    }

    /// How many segments one food item adds.
    pub fn incval(&self) -> (r: usize)
        ensures
            r == self.incval,
    {
        self.incval
    }

    /// The current heading.
    pub fn dir(&self) -> (r: SnakeDir)
        ensures
            r == self.dir,
    {
        self.dir
    }

    /// The field the session plays on.
    pub fn bounds(&self) -> (r: Bounds)
        ensures
            r == self.bounds,
    {
        self.bounds
    }

    /// The body, tail first, head last.
    pub fn parts(&self) -> (r: &Vec<SnakePart>)
        ensures
            r@ == self.parts@,
    {
        &self.parts
    }

    /// Whether the session is still in its running state.
    pub fn running(&self) -> (r: bool)
        ensures
            r == self.running,
    {
        self.running
    }

    /// The leader part: the head of the chain, the last segment.
    pub fn lp(&self) -> (r: SnakePart)
        requires
            self.parts@.len() >= 1,
        ensures
            r == self.parts@.last(),
    {
        self.parts[self.parts.len() - 1]
    }

    /// Offsets `lp` one cell along the session's current heading and stamps
    /// it with that heading.
    pub fn lpmv(&self, lp: &mut SnakePart)
        requires
            i32::MIN <= old(lp).x + dir_dx(self.dir) <= i32::MAX,
            i32::MIN <= old(lp).y + dir_dy(self.dir) <= i32::MAX,
        ensures
            final(lp).x == old(lp).x + dir_dx(self.dir),
            final(lp).y == old(lp).y + dir_dy(self.dir),
            final(lp).dir == self.dir,
    {
        match self.dir {
            SnakeDir::Up => {
                lp.y = lp.y - 1;
            },
            SnakeDir::Down => {
                lp.y = lp.y + 1;
            },
            SnakeDir::Left => {
                lp.x = lp.x - 1;
            },
            SnakeDir::Right => {
                lp.x = lp.x + 1;
            },
        }
        lp.dir = self.dir;
    }

    /// The parts without the leader: every segment but the head.
    pub fn pwl(&self) -> (r: Vec<SnakePart>)
        requires
            self.parts@.len() >= 1,
        ensures
            r@ == self.parts@.subrange(0, self.parts@.len() - 1),
    {
        let mut r: Vec<SnakePart> = Vec::new();
        let n: usize = self.parts.len() - 1;
        let mut i: usize = 0;
        while i < n
            invariant
                i <= n,
                n == self.parts@.len() - 1,
                r@.len() == i,
                forall|j: int| 0 <= j < i ==> r@[j] == self.parts@[j],
            decreases n - i,
        {
            r.push(self.parts[i]);
            i = i + 1;
        }
        r
    }

    /// Whether the session survives the next step: the prospective head
    /// cell, one step onward along the current heading, is on the field
    /// and does not coincide with any non-head segment.
    pub fn alive(&self) -> (r: bool)
        requires
            self.wf(),
        ensures
            r == !is_terminal(
                self.parts@,
                self.bounds,
                prospective_x(self.parts@, self.dir),
                prospective_y(self.parts@, self.dir),
            ),
    {
        let head = self.lp();
        let (dx, dy): (i64, i64) = match self.dir {
            SnakeDir::Up => (0, -1),
            SnakeDir::Down => (0, 1),
            SnakeDir::Left => (-1, 0),
            SnakeDir::Right => (1, 0),
        };
        let px: i64 = head.x as i64 + dx;
        let py: i64 = head.y as i64 + dy;
        if px < self.bounds.min_x as i64 || px > self.bounds.max_x as i64
            || py < self.bounds.min_y as i64 || py > self.bounds.max_y as i64 {
            return false;
        }
        let n: usize = self.parts.len() - 1;
        let mut i: usize = 0;
        while i < n
            invariant
                i <= n,
                n == self.parts@.len() - 1,
                px == prospective_x(self.parts@, self.dir),
                py == prospective_y(self.parts@, self.dir),
                in_bounds(self.bounds, px as int, py as int),
                forall|j: int|
                    0 <= j < i ==> !(self.parts@[j].x == px && self.parts@[j].y == py),
            decreases n - i,
        {
            let p = self.parts[i];
            if p.x as i64 == px && p.y as i64 == py {
                return false;
            }
            i = i + 1;
        }
        true
    }

    /// Commits one step: every segment takes the place of the one ahead of
    /// it, and the head advances one cell along the current heading, which
    /// becomes its heading tag. The prospective head cell must have been
    /// validated first; the body's length never changes here.
    pub fn mv(&mut self)
        requires
            old(self).wf(),
            !is_terminal(
                old(self).parts@,
                old(self).bounds,
                prospective_x(old(self).parts@, old(self).dir),
                prospective_y(old(self).parts@, old(self).dir),
            ),
        ensures
            final(self).wf(),
            final(self).parts@.len() == old(self).parts@.len(),
            final(self).parts@ == advanced(old(self).parts@, old(self).dir),
            forall|i: int|
                0 <= i < old(self).parts@.len() - 1
                    ==> final(self).parts@[i] == old(self).parts@[i + 1],
            cfg_unchanged(*old(self), *final(self)),
            final(self).dir == old(self).dir,
            final(self).length == old(self).length,
            final(self).score == old(self).score,
            final(self).running == old(self).running,
    {
        let mut lead = self.lp();
        self.lpmv(&mut lead);
        self.parts.remove(0);
        self.parts.push(lead);
    }

    /// Grows the chain by `size` segments: duplicates of the current tail
    /// cell, carrying the default heading, spliced in at the tail end. No
    /// original segment moves or is lost, so growth is monotonic.
    pub fn inc_size(&mut self, size: usize)
        requires
            old(self).wf(),
            old(self).length + size <= usize::MAX,
        ensures
            final(self).wf(),
            final(self).length == old(self).length + size,
            final(self).parts@.len() == old(self).parts@.len() + size,
            final(self).parts@ == grown(old(self).parts@, size as nat),
            forall|i: int|
                0 <= i < old(self).parts@.len()
                    ==> final(self).parts@[size + i] == old(self).parts@[i],
            forall|j: int|
                0 <= j < size ==> (final(self).parts@[j].x == old(self).parts@[0].x
                    && final(self).parts@[j].y == old(self).parts@[0].y
                    && final(self).parts@[j].dir == DEFAULT_SNAKE_DIR),
            cfg_unchanged(*old(self), *final(self)),
            final(self).dir == old(self).dir,
            final(self).score == old(self).score,
            final(self).running == old(self).running,
    {
        let tail = self.parts[0];
        let dup = SnakePart { x: tail.x, y: tail.y, dir: DEFAULT_SNAKE_DIR };
        let mut k: usize = 0;
        while k < size
            invariant
                k <= size,
                old(self).wf(),
                old(self).length + size <= usize::MAX,
                dup == (SnakePart {
                    x: old(self).parts@[0].x,
                    y: old(self).parts@[0].y,
                    dir: DEFAULT_SNAKE_DIR,
                }),
                self.parts@.len() == old(self).parts@.len() + k,
                forall|j: int| 0 <= j < k ==> self.parts@[j] == dup,
                forall|i: int|
                    0 <= i < old(self).parts@.len()
                        ==> self.parts@[k + i] == old(self).parts@[i],
                self.form == old(self).form,
                self.color == old(self).color,
                self.dir == old(self).dir,
                self.length == old(self).length,
                self.score == old(self).score,
                self.incval == old(self).incval,
                self.bounds == old(self).bounds,
                self.running == old(self).running,
            decreases size - k,
        {
            self.parts.insert(0, dup);
            k = k + 1;
        }
        self.length = self.length + size;
    }

    /// Applies one tick's input: a steering key sets the heading, anything
    /// else keeps it. Nothing but the heading changes.
    pub fn ctrls(&mut self, key: Option<KeyEvent>)
        ensures
            final(self).dir == ctrl_dir(key, old(self).dir),
            cfg_unchanged(*old(self), *final(self)),
            final(self).parts@ == old(self).parts@,
            final(self).length == old(self).length,
            final(self).score == old(self).score,
            final(self).running == old(self).running,
    {
        let d = match key {
            Some(KeyEvent::Char('w')) => SnakeDir::Up,
            Some(KeyEvent::Char('s')) => SnakeDir::Down,
            Some(KeyEvent::Char('a')) => SnakeDir::Left,
            Some(KeyEvent::Char('d')) => SnakeDir::Right,
            Some(KeyEvent::ArrowUp) => SnakeDir::Up,
            Some(KeyEvent::ArrowDown) => SnakeDir::Down,
            Some(KeyEvent::ArrowLeft) => SnakeDir::Left,
            Some(KeyEvent::ArrowRight) => SnakeDir::Right,
            _ => self.dir,
        };
        self.dir = d;
    }

    /// Settles food consumption for this tick: exactly when the head sits
    /// on the food's cell, the food is relocated to a random in-bounds
    /// cell, the body grows by the growth increment, and the score rises
    /// by one; otherwise nothing changes.
    pub fn eaten(&mut self, food: &mut Food)
        requires
            old(self).wf(),
            old(food).wf(),
            old(self).score < usize::MAX,
            old(self).length + old(self).incval <= usize::MAX,
        ensures
            final(self).wf(),
            final(food).wf(),
            cfg_unchanged(*old(self), *final(self)),
            final(self).dir == old(self).dir,
            final(self).running == old(self).running,
            (old(self).parts@.last().x == old(food).x && old(self).parts@.last().y
                == old(food).y) ==> {
                &&& final(self).score == old(self).score + 1
                &&& final(self).length == old(self).length + old(self).incval
                &&& final(self).parts@ == grown(old(self).parts@, old(self).incval as nat)
                &&& final(food).bounds == old(food).bounds
                &&& final(food).form == old(food).form
                &&& final(food).color == old(food).color
            },
            !(old(self).parts@.last().x == old(food).x && old(self).parts@.last().y
                == old(food).y) ==> {
                &&& final(self).score == old(self).score
                &&& final(self).length == old(self).length
                &&& final(self).parts@ == old(self).parts@
                &&& *final(food) == *old(food)
            },
    {
        let head = self.lp();
        if head.y == food.y && head.x == food.x {
            food.rand_move();
            let n: usize = self.incval;
            self.inc_size(n);
            self.score = self.score + 1;
        }
    }

    /// Runs one tick of the session state machine. A terminated session
    /// stays terminated and untouched. A running one reads the key, then
    /// validates the prospective head cell under the new heading: a
    /// terminal cell ends the session with the body unchanged; otherwise
    /// the step is committed and consumption settled. Returns whether the
    /// session is still running.
    pub fn start(&mut self, food: &mut Food, key: Option<KeyEvent>) -> (running: bool)
        requires
            old(self).wf(),
            old(food).wf(),
            old(self).score < usize::MAX,
            old(self).length + old(self).incval <= usize::MAX,
        ensures
            final(self).wf(),
            final(food).wf(),
            running == final(self).running,
            cfg_unchanged(*old(self), *final(self)),
            !old(self).running ==> {
                &&& final(self).dir == old(self).dir
                &&& final(self).parts@ == old(self).parts@
                &&& final(self).score == old(self).score
                &&& final(self).length == old(self).length
                &&& !final(self).running
                &&& *final(food) == *old(food)
            },
            old(self).running ==> final(self).dir == ctrl_dir(key, old(self).dir),
            old(self).running ==> ({
                let d = ctrl_dir(key, old(self).dir);
                let px = prospective_x(old(self).parts@, d);
                let py = prospective_y(old(self).parts@, d);
                if is_terminal(old(self).parts@, old(self).bounds, px, py) {
                    &&& !final(self).running
                    &&& final(self).parts@ == old(self).parts@
                    &&& final(self).score == old(self).score
                    &&& final(self).length == old(self).length
                    &&& *final(food) == *old(food)
                } else {
                    &&& final(self).running
                    &&& ({
                        let moved = advanced(old(self).parts@, d);
                        if px == old(food).x && py == old(food).y {
                            &&& final(self).parts@ == grown(moved, old(self).incval as nat)
                            &&& final(self).score == old(self).score + 1
                            &&& final(self).length == old(self).length + old(self).incval
                            &&& final(food).bounds == old(food).bounds
                            &&& final(food).form == old(food).form
                            &&& final(food).color == old(food).color
                        } else {
                            &&& final(self).parts@ == moved
                            &&& final(self).score == old(self).score
                            &&& final(self).length == old(self).length
                            &&& *final(food) == *old(food)
                        }
                    })
                }
            }),
    {
        if !self.running {
            return false;
        }
        self.ctrls(key);
        if !self.alive() {
            self.running = false;
            return false;
        }
        self.mv();
        self.eaten(food);
        true
    }

    /// The color pair to draw the body with this frame: the configured
    /// one, or a fresh random visible pair when the random color is
    /// configured.
    pub fn draw_color(&self) -> (r: u32)
        ensures
            self.color == COLOR_RANDOM as u32 ==> 1 <= r <= 7,
            self.color != COLOR_RANDOM as u32 ==> r == self.color,
    {
        if self.color == COLOR_RANDOM as u32 {
            crate::color::rand_color()
        } else {
            self.color
        }
    }
}

} // verus!
