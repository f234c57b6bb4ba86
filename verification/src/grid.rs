//! Cells of the board and the border that delimits it.

use vstd::prelude::*;

verus! {

/// Glyph of a horizontal border cell.
pub const HORIZONTAL_GLYPH: char = '-';

/// Glyph of a vertical border cell.
pub const VERTICAL_GLYPH: char = '|';

/// A cell of the board: a position and the glyph drawn there.
#[derive(Clone, Copy, Debug, PartialEq, Eq)]
pub struct Point {
    pub x: i16,
    pub y: i16,
    pub char: char,
}

impl Point {
    /// Whether two cells occupy the same position, whatever their glyphs.
    pub open spec fn same_place(self, other: Point) -> bool {
        self.x == other.x && self.y == other.y
    }

    /// Whether the cell lies on the board of `cols` columns and `rows` rows.
    pub open spec fn on_board(self, cols: int, rows: int) -> bool {
        0 <= self.x < cols && 0 <= self.y < rows
    }

    /// Whether the cell lies on the outermost ring of the board.
    pub open spec fn on_border(self, cols: int, rows: int) -> bool {
        self.on_board(cols, rows) && (self.x == 0 || self.x == cols - 1 || self.y == 0 || self.y
            == rows - 1)
    }
}

/// The `i`-th cell of the border of a `cols` by `rows` board.
///
/// The first `2 * cols` cells walk the columns from left to right, each
/// column giving its top cell and then its bottom cell; the remaining
/// `2 * rows` cells walk the rows from top to bottom, each row giving its
/// leftmost cell and then its rightmost cell.
pub open spec fn cage_cell(cols: int, rows: int, i: int) -> Point {
    if i < 2 * cols {
        Point {
            x: (i / 2) as i16,
            y: if i % 2 == 0 { 0i16 } else { (rows - 1) as i16 },
            char: HORIZONTAL_GLYPH,
        }
    } else {
        Point {
            x: if (i - 2 * cols) % 2 == 0 { 0i16 } else { (cols - 1) as i16 },
            y: ((i - 2 * cols) / 2) as i16,
            char: VERTICAL_GLYPH,
        }
    }
}

/// The border of a `cols` by `rows` board, as the sequence of its cells.
pub open spec fn cage_cells(cols: int, rows: int) -> Seq<Point> {
    Seq::new((2 * cols + 2 * rows) as nat, |i: int| cage_cell(cols, rows, i))
}

/// Whether a border can be built for these dimensions: the board is either
/// empty or has at least one column and one row, and its last column and row
/// are representable as cell coordinates.
pub open spec fn cage_fits(cols: u16, rows: u16) -> bool {
    &&& cols == 0 <==> rows == 0
    &&& cols - 1 <= i16::MAX
    &&& rows - 1 <= i16::MAX
}

/// Builds the border of the board: the top and bottom rows drawn with `-`,
/// then the left and right columns drawn with `|`.
pub fn build_cage(cols: u16, rows: u16) -> (cage: Vec<Point>)
    requires
        cage_fits(cols, rows),
    ensures
        cage@ == cage_cells(cols as int, rows as int),
{
    let mut cage: Vec<Point> = Vec::new();
    let mut c: u16 = 0;
    while c < cols
        invariant
            cage_fits(cols, rows),
            c <= cols,
            cage@ == cage_cells(cols as int, rows as int).take(2 * c),
        decreases cols - c,
    {
        cage.push(Point { x: c as i16, y: 0, char: HORIZONTAL_GLYPH });
        cage.push(Point { x: c as i16, y: (rows - 1) as i16, char: HORIZONTAL_GLYPH });
        c += 1;
    }
    let mut r: u16 = 0;
    while r < rows
        invariant
            cage_fits(cols, rows),
            r <= rows,
            cage@ == cage_cells(cols as int, rows as int).take(2 * cols + 2 * r),
        decreases rows - r,
    {
        cage.push(Point { x: 0, y: r as i16, char: VERTICAL_GLYPH });
        cage.push(Point { x: (cols - 1) as i16, y: r as i16, char: VERTICAL_GLYPH });
        r += 1;
    }
    cage
}

/// The cage is the border and nothing else: each of its cells lies on the
/// outermost ring of the board, and each position of that ring is held by one
/// of its cells.
pub proof fn lemma_cage_is_border(cols: u16, rows: u16)
    requires
        cage_fits(cols, rows),
    ensures
        cage_cells(cols as int, rows as int).len() == 2 * cols + 2 * rows,
        forall|i: int|
            0 <= i < cage_cells(cols as int, rows as int).len() ==> (#[trigger] cage_cells(
                cols as int,
                rows as int,
            )[i]).on_border(cols as int, rows as int),
        forall|p: Point|
            p.on_border(cols as int, rows as int) ==> exists|i: int|
                0 <= i < cage_cells(cols as int, rows as int).len() && (#[trigger] cage_cells(
                    cols as int,
                    rows as int,
                )[i]).same_place(p),
{
    let cage = cage_cells(cols as int, rows as int);
    assert forall|p: Point| p.on_border(cols as int, rows as int) implies exists|i: int|
        0 <= i < cage.len() && (#[trigger] cage[i]).same_place(p) by {
        let i = if p.y == 0 {
            2 * p.x
        } else if p.y == rows - 1 {
            2 * p.x + 1
        } else if p.x == 0 {
            2 * cols + 2 * p.y
        } else {
            2 * cols + 2 * p.y + 1
        };
        assert(0 <= i < cage.len());
        assert(cage[i].same_place(p));
    }
}

} // verus!
