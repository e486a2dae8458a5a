//! Positions on the toroidal grid and the four cardinal directions.

use vstd::prelude::*;

verus! {

/// Number of columns of the grid.
pub const WIDTH: usize = 80;

/// Number of rows of the grid.
pub const HEIGHT: usize = 25;

/// One unit step along an axis of length `n`, wrapped round: a negative
/// intermediate value is corrected by adding `n` once, a value past the end
/// is brought back by the modulus.
pub open spec fn wrap(v: int, n: int) -> int {
    if v < 0 {
        v + n
    } else {
        v % n
    }
}

/// A direction of travel: a unit step along one axis. Rows count downward,
/// so `up` lowers `y`.
#[derive(Clone, Copy, Debug, PartialEq, Eq, Structural)]
pub struct Direction {
    pub x: i32,
    pub y: i32,
}

impl Direction {
    /// The direction is one of the four cardinal unit vectors.
    pub open spec fn wf(self) -> bool {
        (self.x == 0 && (self.y == 1 || self.y == -1)) || (self.y == 0 && (self.x == 1
            || self.x == -1))
    }

    /// The direction that undoes this one.
    pub open spec fn reversed(self) -> Direction {
        Direction { x: -self.x as i32, y: -self.y as i32 }
    }

    pub fn left() -> (r: Direction)
        ensures
            r == (Direction { x: -1i32, y: 0 }),
    {
        Direction { x: -1, y: 0 }
    }

    pub fn right() -> (r: Direction)
        ensures
            r == (Direction { x: 1, y: 0 }),
    {
        Direction { x: 1, y: 0 }
    }

    pub fn up() -> (r: Direction)
        ensures
            r == (Direction { x: 0, y: -1i32 }),
    {
        Direction { x: 0, y: -1 }
    }

    pub fn down() -> (r: Direction)
        ensures
            r == (Direction { x: 0, y: 1 }),
    {
        Direction { x: 0, y: 1 }
    }

    /// The direction pointing the other way.
    pub fn opposite(&self) -> (r: Direction)
        requires
            self.wf(),
        ensures
            r == self.reversed(),
            r.wf(),
    {
        Direction { x: -self.x, y: -self.y }
    }
}

impl Default for Direction {
    /// Rightward, the direction a program starts in.
    fn default() -> (r: Direction)
        ensures
            r == (Direction { x: 1, y: 0 }),
    {
        Direction { x: 1, y: 0 }
    }
}

/// A cell of the grid: column `x`, row `y`.
#[derive(Clone, Copy, Debug, PartialEq, Eq, Structural)]
pub struct Point {
    pub x: usize,
    pub y: usize,
}

impl Point {
    /// The point lies on the grid.
    pub open spec fn wf(self) -> bool {
        self.x < WIDTH && self.y < HEIGHT
    }

    /// The point one step away in direction `dir`, wrapping round the edges.
    pub open spec fn moved(self, dir: Direction) -> Point {
        Point {
            x: wrap(self.x + dir.x, WIDTH as int) as usize,
            y: wrap(self.y + dir.y, HEIGHT as int) as usize,
        }
    }

    /// Moves the point one step in direction `dir`, wrapping round the edges.
    pub fn move_point(&mut self, dir: &Direction)
        requires
            old(self).wf(),
            dir.wf(),
        ensures
            *final(self) == old(self).moved(*dir),
            final(self).wf(),
    {
        let mut new_x: i32 = (self.x as i32) + dir.x;
        let mut new_y: i32 = (self.y as i32) + dir.y;
        if new_x < 0 {
            new_x = new_x + WIDTH as i32;
        }
        if new_y < 0 {
            new_y = new_y + HEIGHT as i32;
        }
        self.x = (new_x % WIDTH as i32) as usize;
        self.y = (new_y % HEIGHT as i32) as usize;
    }
}

impl Default for Point {
    /// The top left corner, where a program starts.
    fn default() -> (r: Point)
        ensures
            r == (Point { x: 0, y: 0 }),
    {
        Point { x: 0, y: 0 }
    }
}

/// Stepping in a direction and then in the opposite one comes back to the
/// starting point: the grid is a true torus.
pub proof fn lemma_move_round_trip(p: Point, d: Direction)
    requires
        p.wf(),
        d.wf(),
    ensures
        p.moved(d).wf(),
        p.moved(d).moved(d.reversed()) == p,
{
}

} // verus!
