//! What a frame of the game shows: cells of the grid, each with a symbol.

use vstd::prelude::*;
use crate::geometry::Point;

verus! {

/// The symbol of a wall cell.
pub const WALL_SYMBOL: char = 'H';

/// The symbol of the food.
pub const FOOD_SYMBOL: char = 'X';

/// The symbol of a snake segment.
pub const SNAKE_SYMBOL: char = 'O';

/// One symbol to be shown at one cell of the grid.
#[derive(Clone, Copy, Debug, PartialEq, Eq, Structural)]
pub struct Cell {
    pub pos: Point,
    pub symbol: char,
}

impl Cell {
    /// The cell that shows `symbol` at `pos`.
    pub fn new(pos: Point, symbol: char) -> (c: Self)
        ensures
            c == (Cell { pos, symbol }),
    {
        Self { pos, symbol }
    }
}

/// Whether cell `p` comes before column `x`, row `y` when the grid is read
/// column by column, each column from the top.
pub open spec fn before(p: Point, x: int, y: int) -> bool {
    p.x < x || (p.x == x && p.y < y)
}

/// Whether `p` is a cell of the field of width `field.x` and height `field.y`
/// that lies on its wall.
pub open spec fn is_wall_cell(p: Point, field: Point) -> bool {
    p.x < field.x && p.y < field.y && p.spec_on_wall(field)
}

/// Whether one of `cells` stands at `p`.
pub open spec fn shown_at(cells: Seq<Cell>, p: Point) -> bool {
    exists|i: int| 0 <= i < cells.len() && cells[i].pos == p
}

/// Whether `cells` shows the wall around `field`: nothing but wall symbols on
/// wall cells, every wall cell of the field among them, and the cells in the
/// order of reading the grid column by column, each column from the top, so
/// that no cell comes twice.
pub open spec fn lists_walls(cells: Seq<Cell>, field: Point) -> bool {
    &&& forall|i: int|
        0 <= i < cells.len() ==> (#[trigger] cells[i]).symbol == WALL_SYMBOL && is_wall_cell(
            cells[i].pos,
            field,
        )
    &&& forall|i: int, j: int|
        0 <= i < j < cells.len() ==> before(
            (#[trigger] cells[i]).pos,
            (#[trigger] cells[j]).pos.x as int,
            cells[j].pos.y as int,
        )
    &&& forall|p: Point| #[trigger] is_wall_cell(p, field) ==> shown_at(cells, p)
}

/// Two listings of the wall around one field agree on the cell at every
/// index that the first of them has.
proof fn lemma_wall_listings_agree_at(a: Seq<Cell>, b: Seq<Cell>, field: Point, i: int)
    requires
        lists_walls(a, field),
        lists_walls(b, field),
        0 <= i < a.len(),
    ensures
        i < b.len(),
        a[i] == b[i],
    decreases i,
{
    assert(is_wall_cell(a[i].pos, field));
    assert(shown_at(b, a[i].pos));
    let j = choose|j: int| 0 <= j < b.len() && b[j].pos == a[i].pos;
    if j < i {
        lemma_wall_listings_agree_at(a, b, field, j);
        assert(before(a[j].pos, a[i].pos.x as int, a[i].pos.y as int));
    }
    assert(is_wall_cell(b[i].pos, field));
    assert(shown_at(a, b[i].pos));
    let k = choose|k: int| 0 <= k < a.len() && a[k].pos == b[i].pos;
    if k < i {
        lemma_wall_listings_agree_at(a, b, field, k);
        assert(before(b[k].pos, b[i].pos.x as int, b[i].pos.y as int));
    }
    if i < k {
        assert(before(a[i].pos, a[k].pos.x as int, a[k].pos.y as int));
    }
    if i < j {
        assert(before(b[i].pos, b[j].pos.x as int, b[j].pos.y as int));
    }
    assert(a[i].pos == b[i].pos);
    assert(a[i].symbol == WALL_SYMBOL && b[i].symbol == WALL_SYMBOL);
}

/// The wall around a field has one listing only: two sequences of cells that
/// both show the wall around `field` are equal.
pub proof fn lemma_wall_listing_unique(a: Seq<Cell>, b: Seq<Cell>, field: Point)
    requires
        lists_walls(a, field),
        lists_walls(b, field),
    ensures
        a == b,
{
    if a.len() > 0 {
        lemma_wall_listings_agree_at(a, b, field, a.len() - 1);
    }
    if b.len() > 0 {
        lemma_wall_listings_agree_at(b, a, field, b.len() - 1);
    }
    assert forall|i: int| 0 <= i < a.len() implies a[i] == b[i] by {
        lemma_wall_listings_agree_at(a, b, field, i);
    }
    assert(a =~= b);
}

} // verus!
