//! Grid coordinates and the four headings.

use vstd::prelude::*;

verus! {

/// One of the four headings a snake can take on the grid.
///
/// The headings fall into two axes, horizontal (`Right`, `Left`) and vertical
/// (`Up`, `Down`); the two headings of one axis are each other's reverse.
#[derive(Clone, Copy, Debug, PartialEq, Eq, Structural)]
pub enum Direction {
    Right,
    Up,
    Left,
    Down,
}

impl Direction {
    /// The heading that points the other way along the same axis.
    pub open spec fn spec_opposite(self) -> Direction {
        match self {
            Direction::Right => Direction::Left,
            Direction::Left => Direction::Right,
            Direction::Up => Direction::Down,
            Direction::Down => Direction::Up,
        }
    }

    /// The heading that points the other way along the same axis.
    #[verifier::when_used_as_spec(spec_opposite)]
    pub fn opposite(self) -> (r: Direction)
        ensures
            r == self.spec_opposite(),
    {
        match self {
            Direction::Right => Direction::Left,
            Direction::Left => Direction::Right,
            Direction::Up => Direction::Down,
            Direction::Down => Direction::Up,
        }
    }

    /// The heading that results when a snake heading `self` is asked to head
    /// `requested`: a request for the direct reverse is ignored, every other
    /// request is granted.
    pub open spec fn turned(self, requested: Direction) -> Direction {
        if requested == self.spec_opposite() {
            self
        } else {
            requested
        }
    }
}

/// A cell of the grid: column `x` and row `y`, counted from the top-left corner.
#[derive(Clone, Copy, Debug, PartialEq, Eq, Structural)]
pub struct Point {
    pub x: u16,
    pub y: u16,
}

impl Point {
    /// The cell in column `x` and row `y`.
    pub fn new(x: u16, y: u16) -> (p: Self)
        ensures
            p == (Point { x, y }),
    {
        Self { x, y }
    }

    /// Whether this point, read as the width `x` and the height `y` of a
    /// rectangular field, leaves room for at least one cell inside the walls.
    pub open spec fn spec_is_field(self) -> bool {
        self.x >= 3 && self.y >= 3
    }

    /// Whether this point, read as the width and the height of a field,
    /// leaves room for at least one cell inside the walls.
    #[verifier::when_used_as_spec(spec_is_field)]
    pub fn is_field(self) -> (b: bool)
        ensures
            b == self.spec_is_field(),
    {
        self.x >= 3 && self.y >= 3
    }

    /// Whether this cell lies on the wall around a field of width `field.x`
    /// and height `field.y`: in the first or last column, or in the first or
    /// last row.
    pub open spec fn spec_on_wall(self, field: Point) -> bool {
        self.x == 0 || self.x == field.x - 1 || self.y == 0 || self.y == field.y - 1
    }

    /// Whether this cell lies on the wall around `field`.
    #[verifier::when_used_as_spec(spec_on_wall)]
    pub fn on_wall(self, field: Point) -> (b: bool)
        requires
            field.x >= 1,
            field.y >= 1,
        ensures
            b == self.spec_on_wall(field),
    {
        self.x == 0 || self.x == field.x - 1 || self.y == 0 || self.y == field.y - 1
    }

    /// Whether this cell lies strictly inside the walls of `field`, one cell
    /// or more away from each edge.
    pub open spec fn spec_inside(self, field: Point) -> bool {
        1 <= self.x <= field.x - 2 && 1 <= self.y <= field.y - 2
    }

    /// Whether this cell lies strictly inside the walls of `field`.
    #[verifier::when_used_as_spec(spec_inside)]
    pub fn inside(self, field: Point) -> (b: bool)
        ensures
            b == self.spec_inside(field),
    {
        field.x >= 2 && field.y >= 2 && 1 <= self.x && self.x <= field.x - 2 && 1 <= self.y
            && self.y <= field.y - 2
    }

    /// Whether the neighbour of this cell in direction `dir` still has
    /// coordinates that fit the coordinate type.
    pub open spec fn spec_can_step(self, dir: Direction) -> bool {
        match dir {
            Direction::Right => self.x < u16::MAX,
            Direction::Left => self.x > 0,
            Direction::Down => self.y < u16::MAX,
            Direction::Up => self.y > 0,
        }
    }

    /// The neighbour of this cell in direction `dir`: one column to the right
    /// or left, or one row down or up (rows grow downwards).
    pub open spec fn spec_step(self, dir: Direction) -> Point
        recommends
            self.spec_can_step(dir),
    {
        match dir {
            Direction::Right => Point { x: (self.x + 1) as u16, y: self.y },
            Direction::Left => Point { x: (self.x - 1) as u16, y: self.y },
            Direction::Down => Point { x: self.x, y: (self.y + 1) as u16 },
            Direction::Up => Point { x: self.x, y: (self.y - 1) as u16 },
        }
    }

    /// Whether [`Point::step`] may be called with `dir`.
    #[verifier::when_used_as_spec(spec_can_step)]
    pub fn can_step(self, dir: Direction) -> (b: bool)
        ensures
            b == self.spec_can_step(dir),
    {
        match dir {
            Direction::Right => self.x < u16::MAX,
            Direction::Left => self.x > 0,
            Direction::Down => self.y < u16::MAX,
            Direction::Up => self.y > 0,
        }
    }

    /// The neighbour of this cell in direction `dir`.
    #[verifier::when_used_as_spec(spec_step)]
    pub fn step(self, dir: Direction) -> (p: Point)
        requires
            self.spec_can_step(dir),
        ensures
            p == self.spec_step(dir),
    {
        match dir {
            Direction::Right => Point { x: self.x + 1, y: self.y },
            Direction::Left => Point { x: self.x - 1, y: self.y },
            Direction::Down => Point { x: self.x, y: self.y + 1 },
            Direction::Up => Point { x: self.x, y: self.y - 1 },
        }
    }
}

/// The neighbour of a cell is exactly one unit away along the axis of the
/// heading and unmoved along the other axis.
pub proof fn lemma_step_offsets(p: Point, dir: Direction)
    requires
        p.spec_can_step(dir),
    ensures
        dir == Direction::Right ==> p.spec_step(dir).x == p.x + 1 && p.spec_step(dir).y == p.y,
        dir == Direction::Left ==> p.spec_step(dir).x == p.x - 1 && p.spec_step(dir).y == p.y,
        dir == Direction::Down ==> p.spec_step(dir).x == p.x && p.spec_step(dir).y == p.y + 1,
        dir == Direction::Up ==> p.spec_step(dir).x == p.x && p.spec_step(dir).y == p.y - 1,
{
}

/// Reversal guard: asking a snake that heads `current` to head `requested`
/// leaves it heading `requested` unless `requested` is the reverse of
/// `current`, in which case the heading stays `current`. The stored heading
/// therefore differs afterwards exactly when the request is neither the
/// reverse of the current heading nor the current heading itself.
pub proof fn lemma_reversal_guard(current: Direction, requested: Direction)
    ensures
        requested == current.spec_opposite() ==> current.turned(requested) == current,
        requested != current.spec_opposite() ==> current.turned(requested) == requested,
        current.turned(requested) == requested <==> requested != current.spec_opposite(),
        current.turned(requested) != current <==> (requested != current.spec_opposite()
            && requested != current),
        current.turned(requested) != current.spec_opposite(),
{
}

/// Reversing a heading twice gives the heading back, and no heading is its
/// own reverse.
pub proof fn lemma_opposite_involution(d: Direction)
    ensures
        d.spec_opposite().spec_opposite() == d,
        d.spec_opposite() != d,
{
}

} // verus!
