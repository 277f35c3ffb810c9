//! The food: a single cell, placed at random inside the walls.

use vstd::prelude::*;
use rand::Rng;
use crate::geometry::Point;
use crate::render::{Cell, FOOD_SYMBOL};

verus! {

/// The food the snake is after.
#[derive(Clone, Copy, Debug, PartialEq, Eq, Structural)]
pub struct Food {
    pub coords: Point,
}

/// Draws a number between `low` and `high`, both included, by
/// `rand::Rng::gen_range` on the generator of `rand::thread_rng`.
///
/// Not proved: that the number drawn lies in the range asked for. The call
/// panics on an empty range, which `requires` rules out. Nothing is claimed
/// about which number of the range comes.
#[verifier::external_body]
fn random_between(low: u16, high: u16) -> (n: u16)
    requires
        low <= high,
    ensures
        low <= n <= high,
{
    rand::thread_rng().gen_range(low..=high)
}

impl Food {
    /// Food on the cell in column `x` and row `y`.
    pub fn at(x: u16, y: u16) -> (food: Self)
        ensures
            food.coords == (Point { x, y }),
    {
        Self { coords: Point::new(x, y) }
    }

    /// Food on a cell chosen at random strictly inside the walls of a field
    /// of width `field_size.x` and height `field_size.y`. Column and row are
    /// drawn independently of each other. The cell may be one that the snake
    /// covers.
    pub fn new(field_size: Point) -> (food: Self)
        requires
            field_size.spec_is_field(),
        ensures
            food.coords.spec_inside(field_size),
    {
        let x = random_between(1, field_size.x - 2);
        let y = random_between(1, field_size.y - 2);
        Food::at(x, y)
    }

    /// The cell that shows the food.
    pub fn draw(&self) -> (cell: Cell)
        ensures
            cell == (Cell { pos: self.coords, symbol: FOOD_SYMBOL }),
    {
        Cell::new(self.coords, FOOD_SYMBOL)
    }
}

} // verus!
