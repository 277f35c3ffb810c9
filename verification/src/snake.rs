//! The snake: its segments, its heading and the rules by which it moves,
//! turns, grows and dies.

use vstd::prelude::*;
use crate::geometry::{Direction, Point};
use crate::render::{Cell, SNAKE_SYMBOL};

verus! {

/// A snake on the grid.
///
/// `body` lists the segments from the head (index 0) to the tail. `length` is
/// the number of segments that take part in the game; once the body has been
/// seeded, `length` equals `body.len()`.
#[derive(Debug)]
pub struct Snake {
    pub length: usize,
    pub body: Vec<Point>,
    pub direction: Direction,
    pub is_alive: bool,
}

/// The mathematical value of a [`Snake`].
pub struct SnakeView {
    pub length: nat,
    pub body: Seq<Point>,
    pub direction: Direction,
    pub is_alive: bool,
}

impl View for Snake {
    type V = SnakeView;

    open spec fn view(&self) -> SnakeView {
        SnakeView {
            length: self.length as nat,
            body: self.body@,
            direction: self.direction,
            is_alive: self.is_alive,
        }
    }
}

impl SnakeView {
    /// The body holds exactly `length` segments.
    pub open spec fn seeded(self) -> bool {
        self.body.len() == self.length
    }

    /// The snake has a head and a tail, and every counted segment exists.
    pub open spec fn has_tail(self) -> bool {
        1 <= self.length <= self.body.len()
    }

    /// The snake can be moved: every counted segment exists (or there is no
    /// body at all), and the cell in front of the head has coordinates.
    pub open spec fn can_move(self) -> bool {
        &&& self.body.len() == 0 || self.length <= self.body.len()
        &&& self.body.len() > 0 ==> self.body[0].spec_can_step(self.direction)
    }

    /// The snake after one move: the head has advanced one cell along the
    /// heading, and every other counted segment stands where its predecessor
    /// stood. A snake without a body stays as it is.
    pub open spec fn moved(self) -> SnakeView {
        SnakeView {
            body: Seq::new(
                self.body.len(),
                |i: int|
                    if i == 0 {
                        self.body[0].spec_step(self.direction)
                    } else if i < self.length {
                        self.body[i - 1]
                    } else {
                        self.body[i]
                    },
            ),
            ..self
        }
    }

    /// The snake after a request to head `requested`.
    pub open spec fn turned(self, requested: Direction) -> SnakeView {
        SnakeView { direction: self.direction.turned(requested), ..self }
    }

    /// The snake after a meal: one more segment, on the cell of the tail.
    pub open spec fn fed(self) -> SnakeView
        recommends
            self.has_tail(),
    {
        SnakeView {
            length: self.length + 1,
            body: self.body.push(self.body[self.length - 1]),
            ..self
        }
    }

    /// The snake after its death.
    pub open spec fn killed(self) -> SnakeView {
        SnakeView { is_alive: false, ..self }
    }

    /// The cells that show the snake: one per counted segment, head first.
    pub open spec fn cells(self) -> Seq<Cell>
        recommends
            self.length <= self.body.len(),
    {
        Seq::new(self.length, |i: int| Cell { pos: self.body[i], symbol: SNAKE_SYMBOL })
    }
}

impl Snake {
    /// A living snake that heads right, counts `len` segments and has no body
    /// yet.
    pub fn new(len: usize) -> (s: Self)
        ensures
            s@ == (SnakeView {
                length: len as nat,
                body: Seq::empty(),
                direction: Direction::Right,
                is_alive: true,
            }),
    {
        Self { length: len, body: Vec::new(), direction: Direction::Right, is_alive: true }
    }

    /// Whether [`Snake::do_move`] may be called.
    pub fn can_move(&self) -> (b: bool)
        ensures
            b == self@.can_move(),
    {
        if self.body.len() == 0 {
            true
        } else {
            self.length <= self.body.len() && self.body[0].can_step(self.direction)
        }
    }

    /// Whether the snake has a tail to grow from, as [`Snake::feed`] asks.
    pub fn has_tail(&self) -> (b: bool)
        ensures
            b == self@.has_tail(),
    {
        1 <= self.length && self.length <= self.body.len()
    }

    /// Moves the snake one cell forward.
    ///
    /// Every counted segment but the head takes the place of its predecessor,
    /// then the head advances one cell along the heading that was current
    /// before the call. Neither walls nor the snake's own body stop the move.
    /// A snake without a body is left as it is.
    pub fn do_move(&mut self)
        requires
            old(self)@.can_move(),
        ensures
            final(self)@ == old(self)@.moved(),
            final(self).body@.len() == old(self).body@.len(),
            forall|i: int|
                1 <= i < old(self).length && i < old(self).body@.len() ==> final(self).body@[i]
                    == old(self).body@[i - 1],
            forall|i: int|
                1 <= i && old(self).length <= i < old(self).body@.len() ==> final(self).body@[i]
                    == old(self).body@[i],
            old(self).body@.len() > 0 ==> final(self).body@[0] == old(self).body@[0].spec_step(
                old(self).direction,
            ),
    {
        if self.body.len() == 0 {
            assert(self@.body =~= old(self)@.moved().body);
            return ;
        }
        let mut i: usize = self.length;
        while i > 1
            invariant
                i <= old(self).length <= old(self).body@.len(),
                old(self).length >= 1 ==> i >= 1,
                self.length == old(self).length,
                self.direction == old(self).direction,
                self.is_alive == old(self).is_alive,
                self.body@.len() == old(self).body@.len(),
                self.body@.len() > 0,
                self.body@[0] == old(self).body@[0],
                forall|j: int| 0 <= j < i ==> self.body@[j] == old(self).body@[j],
                forall|j: int|
                    1 <= i <= j < old(self).length ==> self.body@[j] == old(self).body@[j - 1],
                forall|j: int|
                    old(self).length <= j < old(self).body@.len() ==> self.body@[j] == old(
                        self,
                    ).body@[j],
            decreases i,
        {
            i -= 1;
            let ahead = self.body[i - 1];
            self.body[i] = ahead;
        }
        let head = self.body[0];
        self.body[0] = head.step(self.direction);
        assert(self@.body =~= old(self)@.moved().body);
    }

    /// Asks the snake to head `dir`.
    ///
    /// A request for the direct reverse of the current heading is ignored;
    /// every other request becomes the heading.
    pub fn set_direction(&mut self, dir: Direction)
        ensures
            final(self)@ == old(self)@.turned(dir),
            dir == old(self).direction.spec_opposite() ==> final(self).direction == old(
                self,
            ).direction,
            dir != old(self).direction.spec_opposite() ==> final(self).direction == dir,
    {
        if dir == self.direction.opposite() {
            return ;
        }
        self.direction = dir;
    }

    /// Marks the snake as dead. A dead snake stays dead.
    pub fn kill(&mut self)
        ensures
            final(self)@ == old(self)@.killed(),
    {
        self.is_alive = false;
    }

    /// Grows the snake by one segment, placed on the cell of the tail.
    pub fn feed(&mut self)
        requires
            old(self)@.has_tail(),
        ensures
            final(self)@ == old(self)@.fed(),
            final(self).length == old(self).length + 1,
            final(self).body@ == old(self).body@.push(old(self).body@[old(self).length - 1]),
    {
        let tail = self.body[self.length - 1];
        self.body.push(Point::new(tail.x, tail.y));
        assert(self.length < self.body.len());
        self.length += 1;
    }

    /// The cells that show the snake, head first.
    pub fn draw(&self) -> (cells: Vec<Cell>)
        requires
            self.length <= self.body@.len(),
        ensures
            cells@ == self@.cells(),
    {
        let mut cells: Vec<Cell> = Vec::new();
        let mut i: usize = 0;
        while i < self.length
            invariant
                i <= self.length <= self.body@.len(),
                cells@.len() == i,
                forall|j: int|
                    0 <= j < i ==> cells@[j] == (Cell { pos: self.body@[j], symbol: SNAKE_SYMBOL }),
            decreases self.length - i,
        {
            cells.push(Cell::new(self.body[i], SNAKE_SYMBOL));
            i += 1;
        }
        assert(cells@ =~= self@.cells());
        cells
    }
}

/// A snake whose body holds exactly the counted segments keeps such a body
/// whatever happens to it: a move, a turn, a meal or its death.
pub proof fn lemma_seeded_is_kept(s: SnakeView, requested: Direction)
    requires
        s.seeded(),
    ensures
        s.moved().seeded(),
        s.turned(requested).seeded(),
        s.fed().seeded(),
        s.killed().seeded(),
{
}

/// Death is final: killing a dead snake changes nothing, and neither a move
/// nor a turn nor a meal brings a snake back to life.
pub proof fn lemma_death_is_final(s: SnakeView, requested: Direction)
    ensures
        s.killed().killed() == s.killed(),
        !s.killed().is_alive,
        s.moved().is_alive == s.is_alive,
        s.turned(requested).is_alive == s.is_alive,
        s.fed().is_alive == s.is_alive,
{
}

/// Growth: a meal adds exactly one segment, behind all others and on the very
/// cell of the tail, and leaves every other segment, the heading and the life
/// of the snake as they were. At the next move the new segment behaves as
/// every segment does: it takes the cell that its predecessor, the former
/// tail, stood on, while the former tail moves on to the cell of its own
/// predecessor.
pub proof fn lemma_growth(s: SnakeView)
    requires
        s.seeded(),
        s.has_tail(),
    ensures
        s.fed().length == s.length + 1,
        s.fed().seeded(),
        s.fed().body.len() == s.body.len() + 1,
        s.fed().body[s.length as int] == s.body[s.length - 1],
        forall|i: int| 0 <= i < s.length ==> s.fed().body[i] == s.body[i],
        s.fed().direction == s.direction,
        s.fed().is_alive == s.is_alive,
        s.fed().can_move() <==> s.can_move(),
        s.fed().moved().length == s.length + 1,
        s.fed().moved().body.len() == s.body.len() + 1,
        s.fed().moved().body[s.length as int] == s.body[s.length - 1],
        s.length >= 2 ==> s.fed().moved().body[s.length - 1] == s.body[s.length - 2],
        forall|i: int| 0 <= i < s.length ==> s.fed().moved().body[i] == s.moved().body[i],
{
}

} // verus!
