//! The game: a walled field, the snake and the food, and the rules of a tick.

use vstd::prelude::*;
use crate::food::Food;
use crate::geometry::{Direction, Point};
use crate::input::{requested, requested_direction, Key};
use crate::render::{before, is_wall_cell, lists_walls, shown_at, Cell, FOOD_SYMBOL, WALL_SYMBOL};
use crate::snake::{Snake, SnakeView};

verus! {

/// The time from one tick to the next, in milliseconds.
pub const TICK_MILLIS: u64 = 100;

/// Whether the game goes on.
#[derive(Clone, Copy, Debug, PartialEq, Eq, Structural)]
pub enum GameState {
    /// The snake lives; another tick follows.
    Running,
    /// The snake has died; no tick follows.
    Terminated,
}

/// A game of snake: the size of the field, the snake and the food.
///
/// `field_size.x` is the width of the field and `field_size.y` its height.
/// The outermost columns and rows are the wall.
#[derive(Debug)]
pub struct SnakeGame {
    pub field_size: Point,
    pub snake: Snake,
    pub food: Food,
}

/// The mathematical value of a [`SnakeGame`].
pub struct GameView {
    pub field_size: Point,
    pub snake: SnakeView,
    pub food: Food,
}

impl View for SnakeGame {
    type V = GameView;

    open spec fn view(&self) -> GameView {
        GameView { field_size: self.field_size, snake: self.snake@, food: self.food }
    }
}

impl GameView {
    /// The field has cells inside its walls, and the snake has a head and a
    /// tail.
    pub open spec fn wf(self) -> bool {
        self.field_size.spec_is_field() && self.snake.has_tail()
    }

    /// The cell of the snake's head.
    pub open spec fn head(self) -> Point {
        self.snake.body[0]
    }

    /// The head stands on the wall.
    pub open spec fn hits_wall(self) -> bool {
        self.head().spec_on_wall(self.field_size)
    }

    /// One of the counted segments behind the head and before index `n`
    /// stands on the cell of the head.
    pub open spec fn bites_itself_before(self, n: int) -> bool {
        exists|i: int| 1 <= i < n && self.snake.body[i] == self.head()
    }

    /// One of the counted segments behind the head stands on the cell of the
    /// head.
    pub open spec fn bites_itself(self) -> bool {
        self.bites_itself_before(self.snake.length as int)
    }

    /// The snake dies of what it has run into.
    pub open spec fn dies(self) -> bool {
        self.hits_wall() || self.bites_itself()
    }

    /// The head stands on the food.
    pub open spec fn eats(self) -> bool {
        self.head() == self.food.coords
    }

    /// The snake once its collisions have taken effect: killed if it ran into
    /// the wall or itself, and, dead or alive, grown if it reached the food.
    pub open spec fn snake_after_collisions(self) -> SnakeView {
        let s = if self.dies() {
            self.snake.killed()
        } else {
            self.snake
        };
        if self.eats() {
            s.fed()
        } else {
            s
        }
    }

    /// The game after the keys held down have been read.
    pub open spec fn steered(self, keys: Seq<Key>) -> GameView {
        match requested(keys) {
            Some(d) => GameView { snake: self.snake.turned(d), ..self },
            None => self,
        }
    }

    /// The game after the snake has moved.
    pub open spec fn moved(self) -> GameView {
        GameView { snake: self.snake.moved(), ..self }
    }

    /// Whether the game goes on.
    pub open spec fn state(self) -> GameState {
        if self.snake.is_alive {
            GameState::Running
        } else {
            GameState::Terminated
        }
    }

    /// The game is fit for another tick: it is well formed, the snake lives,
    /// and its head stands strictly inside the walls.
    pub open spec fn in_play(self) -> bool {
        self.wf() && self.snake.is_alive && self.head().spec_inside(self.field_size)
    }

    /// Whether `cells` is the picture of the game: the wall first, then the
    /// food, then the snake from head to tail.
    pub open spec fn shows(self, cells: Seq<Cell>) -> bool {
        let n = cells.len() - 1 - self.snake.length;
        &&& n >= 0
        &&& lists_walls(cells.subrange(0, n), self.field_size)
        &&& cells[n] == (Cell { pos: self.food.coords, symbol: FOOD_SYMBOL })
        &&& cells.subrange(n + 1, cells.len() as int) == self.snake.cells()
    }
}

/// The body that a snake starts with on a field of width `field_size.x` and
/// height `field_size.y`: four segments in the middle row, the head in the
/// middle column and each further segment one column to the left.
pub open spec fn starting_body(field_size: Point) -> Seq<Point>
    recommends
        field_size.x >= 6,
{
    let x = field_size.x as int / 2;
    let y = (field_size.y as int / 2) as u16;
    seq![
        Point { x: x as u16, y },
        Point { x: (x - 1) as u16, y },
        Point { x: (x - 2) as u16, y },
        Point { x: (x - 3) as u16, y },
    ]
}

impl SnakeGame {
    /// A game on a field `width` cells wide and `height` cells high, with a
    /// snake of four segments that has no body yet and with food somewhere
    /// inside the walls.
    pub fn new(width: u16, height: u16) -> (game: Self)
        requires
            width >= 3,
            height >= 3,
        ensures
            game.field_size == (Point { x: width, y: height }),
            game.snake@ == (SnakeView {
                length: 4,
                body: Seq::empty(),
                direction: Direction::Right,
                is_alive: true,
            }),
            game.food.coords.spec_inside(game.field_size),
    {
        let field_size = Point::new(width, height);
        Self { field_size, snake: Snake::new(4), food: Food::new(field_size) }
    }

    /// Lays out the body of the snake: four segments in the middle row, the
    /// head in the middle column and the others to its left.
    pub fn init(&mut self)
        requires
            old(self).field_size.x >= 6,
        ensures
            final(self).field_size == old(self).field_size,
            final(self).food == old(self).food,
            final(self).snake@ == (SnakeView {
                body: old(self).snake@.body + starting_body(old(self).field_size),
                ..old(self).snake@
            }),
            old(self).field_size.y >= 3 && old(self).snake@.body.len() == 0 && 1 <= old(
                self,
            ).snake.length <= 4 && old(self).snake.is_alive ==> final(self)@.in_play(),
    {
        let x = self.field_size.x / 2;
        let y = self.field_size.y / 2;
        self.snake.body.push(Point::new(x, y));
        self.snake.body.push(Point::new(x - 1, y));
        self.snake.body.push(Point::new(x - 2, y));
        self.snake.body.push(Point::new(x - 3, y));
        assert(self.snake@.body =~= old(self).snake@.body + starting_body(old(self).field_size));
    }

    /// Whether the game is well formed.
    pub fn is_wf(&self) -> (b: bool)
        ensures
            b == self@.wf(),
    {
        self.field_size.is_field() && self.snake.has_tail()
    }

    /// Whether the game is fit for another tick.
    pub fn is_in_play(&self) -> (b: bool)
        ensures
            b == self@.in_play(),
    {
        self.is_wf() && self.snake.is_alive && self.snake.body[0].inside(self.field_size)
    }

    /// Whether the game goes on: it does while the snake lives.
    pub fn state(&self) -> (s: GameState)
        ensures
            s == self@.state(),
            s == GameState::Running <==> self.snake.is_alive,
    {
        if self.snake.is_alive {
            GameState::Running
        } else {
            GameState::Terminated
        }
    }

    /// Steers the snake by the keys held down, given in the order in which
    /// the keyboard reports them. Only the last key counts; if it stands for
    /// a heading, the snake is asked to take it.
    pub fn get_key(&mut self, keys: &Vec<Key>)
        ensures
            final(self)@ == old(self)@.steered(keys@),
    {
        match requested_direction(keys) {
            Some(d) => self.snake.set_direction(d),
            None => {},
        }
    }

    /// The cells that show the wall around the field, in the order of reading
    /// the grid column by column.
    pub fn draw_field(&self) -> (cells: Vec<Cell>)
        ensures
            lists_walls(cells@, self.field_size),
    {
        let field = self.field_size;
        let mut cells: Vec<Cell> = Vec::new();
        let mut x: u16 = 0;
        while x < field.x
            invariant
                x <= field.x,
                forall|i: int|
                    0 <= i < cells@.len() ==> (#[trigger] cells@[i]).symbol == WALL_SYMBOL
                        && is_wall_cell(cells@[i].pos, field) && before(
                        cells@[i].pos,
                        x as int,
                        0,
                    ),
                forall|i: int, j: int|
                    0 <= i < j < cells@.len() ==> before(
                        (#[trigger] cells@[i]).pos,
                        (#[trigger] cells@[j]).pos.x as int,
                        cells@[j].pos.y as int,
                    ),
                forall|p: Point|
                    #[trigger] is_wall_cell(p, field) && before(p, x as int, 0) ==> shown_at(
                        cells@,
                        p,
                    ),
            decreases field.x - x,
        {
            let mut y: u16 = 0;
            while y < field.y
                invariant
                    x < field.x,
                    y <= field.y,
                    forall|i: int|
                        0 <= i < cells@.len() ==> (#[trigger] cells@[i]).symbol == WALL_SYMBOL
                            && is_wall_cell(cells@[i].pos, field) && before(
                            cells@[i].pos,
                            x as int,
                            y as int,
                        ),
                    forall|i: int, j: int|
                        0 <= i < j < cells@.len() ==> before(
                            (#[trigger] cells@[i]).pos,
                            (#[trigger] cells@[j]).pos.x as int,
                            cells@[j].pos.y as int,
                        ),
                    forall|p: Point|
                        #[trigger] is_wall_cell(p, field) && before(p, x as int, y as int)
                            ==> shown_at(cells@, p),
                decreases field.y - y,
            {
                let here = Point::new(x, y);
                if here.on_wall(field) {
                    let ghost shown = cells@;
                    cells.push(Cell::new(here, WALL_SYMBOL));
                    proof {
                        let n = shown.len() as int;
                        assert(cells@[n].pos == here);
                        assert forall|p: Point|
                            #[trigger] is_wall_cell(p, field) && before(
                                p,
                                x as int,
                                y as int + 1,
                            ) implies shown_at(cells@, p) by {
                            if p == here {
                                assert(cells@[n].pos == p);
                            } else {
                                assert(shown_at(shown, p));
                                let i = choose|i: int| 0 <= i < shown.len() && shown[i].pos == p;
                                assert(cells@[i].pos == p);
                            }
                        }
                    }
                }
                y += 1;
            }
            x += 1;
        }
        cells
    }

    /// The picture of the game: the wall, then the food, then the snake from
    /// head to tail.
    pub fn draw(&self) -> (cells: Vec<Cell>)
        requires
            self.snake.length <= self.snake.body@.len(),
        ensures
            self@.shows(cells@),
    {
        let mut cells = self.draw_field();
        let ghost walls = cells@;
        cells.push(self.food.draw());
        let mut segments = self.snake.draw();
        cells.append(&mut segments);
        proof {
            let n = walls.len() as int;
            assert(cells@.subrange(0, n) =~= walls);
            assert(cells@.subrange(n + 1, cells@.len() as int) =~= self.snake@.cells());
        }
        cells
    }

    /// Lets the collisions of the snake take effect and tells whether the
    /// food was eaten.
    ///
    /// The snake is killed if its head stands on the wall or on one of its
    /// other counted segments. After that, dead or alive, it is fed if its
    /// head stands on the food. The food itself stays where it is.
    pub fn apply_collisions(&mut self) -> (eaten: bool)
        requires
            old(self)@.wf(),
        ensures
            eaten == old(self)@.eats(),
            final(self).snake@ == old(self)@.snake_after_collisions(),
            final(self).field_size == old(self).field_size,
            final(self).food == old(self).food,
            final(self).snake.is_alive == (old(self).snake.is_alive && !old(self)@.dies()),
    {
        let head = self.snake.body[0];
        if head.on_wall(self.field_size) {
            self.snake.kill();
        }
        let mut i: usize = 1;
        while i < self.snake.length
            invariant
                1 <= i <= self.snake.length <= self.snake.body@.len(),
                head == old(self).snake.body@[0],
                self.field_size == old(self).field_size,
                self.food == old(self).food,
                self.snake@ == (if old(self)@.hits_wall() || old(self)@.bites_itself_before(
                    i as int,
                ) {
                    old(self).snake@.killed()
                } else {
                    old(self).snake@
                }),
            decreases self.snake.length - i,
        {
            let segment = self.snake.body[i];
            if head.x == segment.x && head.y == segment.y {
                self.snake.kill();
            }
            i += 1;
        }
        let head = self.snake.body[0];
        if head.x == self.food.coords.x && head.y == self.food.coords.y {
            self.snake.feed();
            true
        } else {
            false
        }
    }

    /// Lets the collisions of the snake take effect, as
    /// [`SnakeGame::apply_collisions`] does, and puts new food somewhere
    /// inside the walls if the food was eaten.
    pub fn collision_detector(&mut self)
        requires
            old(self)@.wf(),
        ensures
            final(self).snake@ == old(self)@.snake_after_collisions(),
            final(self).field_size == old(self).field_size,
            !old(self)@.eats() ==> final(self).food == old(self).food,
            old(self)@.eats() ==> final(self).food.coords.spec_inside(old(self).field_size),
    {
        if self.apply_collisions() {
            self.food = Food::new(self.field_size);
        }
    }

    /// One tick of the game, between reading the keyboard and showing the
    /// picture.
    ///
    /// The snake is steered by the keys held down and moves one cell. The
    /// picture of the game is taken as it then stands. After that the
    /// collisions take effect: the snake dies on the wall or on itself, and
    /// grows on the food, which is then placed anew. The tick hands back the
    /// picture and tells whether another tick follows.
    pub fn tick(&mut self, keys: &Vec<Key>) -> (out: (Vec<Cell>, GameState))
        requires
            old(self)@.in_play(),
        ensures
            old(self)@.steered(keys@).moved().shows(out.0@),
            final(self).snake@ == old(self)@.steered(keys@).moved().snake_after_collisions(),
            final(self).field_size == old(self).field_size,
            !old(self)@.steered(keys@).moved().eats() ==> final(self).food == old(self).food,
            old(self)@.steered(keys@).moved().eats() ==> final(self).food.coords.spec_inside(
                old(self).field_size,
            ),
            out.1 == final(self)@.state(),
            out.1 == GameState::Running <==> !old(self)@.steered(keys@).moved().dies(),
            out.1 == GameState::Running ==> final(self)@.in_play(),
    {
        self.get_key(keys);
        self.snake.do_move();
        let frame = self.draw();
        self.collision_detector();
        (frame, self.state())
    }
}

} // verus!
