//! Placement of the fruit.

use crate::grid::Point;
use rand::Rng;
use vstd::prelude::*;

verus! {

/// Glyph of the fruit.
pub const FRUIT_GLYPH: char = 'X';

/// Number of cells kept free between the fruit and each edge of the board.
pub const FRUIT_MARGIN: u16 = 5;

/// Whether `cell` lies in the part of a `cols` by `rows` board where fruit
/// grows: at least `FRUIT_MARGIN` cells away from every edge.
pub open spec fn in_orchard(cell: Point, cols: int, rows: int) -> bool {
    &&& FRUIT_MARGIN <= cell.x < cols - FRUIT_MARGIN
    &&& FRUIT_MARGIN <= cell.y < rows - FRUIT_MARGIN
}

/// Whether a fruit can be placed on a `cols` by `rows` board: the board has
/// cells that are far enough from every edge, and the last of them, at
/// column `cols - 6` and row `rows - 6`, has coordinates that a cell can
/// hold.
pub open spec fn orchard_fits(cols: u16, rows: u16) -> bool {
    &&& cols > 2 * FRUIT_MARGIN
    &&& rows > 2 * FRUIT_MARGIN
    &&& cols - FRUIT_MARGIN - 1 <= i16::MAX
    &&& rows - FRUIT_MARGIN - 1 <= i16::MAX
}

/// Draws a number from `low` up to, but not including, `high`.
///
/// Calls `rand::Rng::gen_range` on the generator that `rand::thread_rng`
/// hands out, with the half-open range `low..high`. Trusted, not proved: the
/// number drawn lies in that range. `gen_range` panics on an empty range,
/// which the precondition excludes. Nothing is claimed about which number of
/// the range is drawn. The generator is seeded by the operating system, and
/// panics if that source of entropy fails: no argument decides that, and
/// the contract does not cover it.
#[verifier::external_body]
fn draw_between(low: u16, high: u16) -> (drawn: u16)
    requires
        low < high,
    ensures
        low <= drawn < high,
{
    rand::thread_rng().gen_range(low..high)
}

/// The fruit at column `x` and row `y`.
pub fn fruit_at(x: u16, y: u16) -> (fruit: Point)
    requires
        x <= i16::MAX,
        y <= i16::MAX,
    ensures
        fruit == (Point { x: x as i16, y: y as i16, char: FRUIT_GLYPH }),
{
    Point { x: x as i16, y: y as i16, char: FRUIT_GLYPH }
}

/// Places a fruit at random on a `cols` by `rows` board, at least
/// `FRUIT_MARGIN` cells away from every edge. The column and the row are
/// drawn independently. The cells of the snake are not avoided.
pub fn build_fruit(cols: u16, rows: u16) -> (fruit: Point)
    requires
        orchard_fits(cols, rows),
    ensures
        in_orchard(fruit, cols as int, rows as int),
        fruit.char == FRUIT_GLYPH,
{
    let x: u16 = draw_between(FRUIT_MARGIN, cols - FRUIT_MARGIN);
    let y: u16 = draw_between(FRUIT_MARGIN, rows - FRUIT_MARGIN);
    fruit_at(x, y)
}

} // verus!
