//! The program surface: a fixed grid of characters and the loader that fills
//! it from lines of source text.

use vstd::prelude::*;
use crate::position::{Point, WIDTH, HEIGHT};

verus! {

/// Why a program could not be placed on the grid.
#[derive(Clone, Copy, Debug, PartialEq, Eq, Structural)]
pub enum LoadError {
    /// There are more rows than the grid has, or a row longer than its width.
    SourceTooLarge,
}

/// The text fits the grid: at most `HEIGHT` rows, none of them longer than
/// `WIDTH` characters.
pub open spec fn fits(lines: Seq<Vec<char>>) -> bool {
    &&& lines.len() <= HEIGHT
    &&& forall|r: int| 0 <= r < lines.len() ==> (#[trigger] lines[r]@).len() <= WIDTH
}

/// The text covers cell `(x, y)`.
pub open spec fn covers(lines: Seq<Vec<char>>, x: int, y: int) -> bool {
    0 <= y < lines.len() && 0 <= x < lines[y]@.len()
}

/// Index of cell `(x, y)` in the row-major layout.
pub open spec fn index_of(x: int, y: int) -> int {
    y * WIDTH + x
}

proof fn lemma_index_unique(x1: int, y1: int, x2: int, y2: int)
    requires
        0 <= x1 < WIDTH,
        0 <= x2 < WIDTH,
        0 <= y1,
        0 <= y2,
        index_of(x1, y1) == index_of(x2, y2),
    ensures
        x1 == x2 && y1 == y2,
{
}

/// `WIDTH` by `HEIGHT` cells of characters, indexed by column and row.
#[derive(Debug)]
pub struct Grid {
    cells: Vec<char>,
}

impl View for Grid {
    type V = Seq<char>;

    /// The cells, row after row.
    closed spec fn view(&self) -> Seq<char> {
        self.cells@
    }
}

impl Grid {
    /// The grid holds exactly `WIDTH * HEIGHT` cells.
    pub open spec fn wf(self) -> bool {
        self@.len() == WIDTH * HEIGHT
    }

    /// The character at column `x`, row `y`.
    pub open spec fn cell(self, x: int, y: int) -> char {
        self@[index_of(x, y)]
    }

    /// A grid of spaces.
    pub fn new() -> (r: Grid)
        ensures
            r.wf(),
            forall|x: int, y: int| 0 <= x < WIDTH && 0 <= y < HEIGHT ==> r.cell(x, y) == ' ',
    {
        let mut cells: Vec<char> = Vec::new();
        let mut i: usize = 0;
        while i < WIDTH * HEIGHT
            invariant
                i <= WIDTH * HEIGHT,
                cells@.len() == i,
                forall|j: int| 0 <= j < i ==> cells@[j] == ' ',
            decreases WIDTH * HEIGHT - i,
        {
            cells.push(' ');
            i = i + 1;
        }
        let r = Grid { cells };
        assert forall|x: int, y: int| 0 <= x < WIDTH && 0 <= y < HEIGHT implies r.cell(x, y)
            == ' ' by {
            assert(0 <= index_of(x, y) < WIDTH * HEIGHT);
        }
        r
    }

    /// The character at point `p`.
    pub fn get(&self, p: &Point) -> (r: char)
        requires
            self.wf(),
            p.wf(),
        ensures
            r == self.cell(p.x as int, p.y as int),
    {
        self.cells[p.y * WIDTH + p.x]
    }

    /// Copies the lines of `lines` onto the grid, line `r` into row `r` from
    /// column 0. Cells the text does not cover keep what they held. Text
    /// that does not fit is refused before any cell changes.
    pub fn load(&mut self, lines: &Vec<Vec<char>>) -> (r: Result<(), LoadError>)
        requires
            old(self).wf(),
        ensures
            final(self).wf(),
            r is Ok <==> fits(lines@),
            r is Err ==> *final(self) == *old(self),
            r is Ok ==> forall|x: int, y: int|
                0 <= x < WIDTH && 0 <= y < HEIGHT ==> #[trigger] final(self).cell(x, y) == if covers(
                    lines@,
                    x,
                    y,
                ) {
                    lines@[y]@[x]
                } else {
                    old(self).cell(x, y)
                },
    {
        if lines.len() > HEIGHT {
            return Err(LoadError::SourceTooLarge);
        }
        let mut r: usize = 0;
        while r < lines.len()
            invariant
                r <= lines@.len() <= HEIGHT,
                self.wf(),
                forall|k: int| 0 <= k < r ==> (#[trigger] lines@[k]@).len() <= WIDTH,
            decreases lines@.len() - r,
        {
            if lines[r].len() > WIDTH {
                return Err(LoadError::SourceTooLarge);
            }
            r = r + 1;
        }
        let ghost before = *self;
        let mut row: usize = 0;
        while row < lines.len()
            invariant
                fits(lines@),
                row <= lines@.len(),
                before.wf(),
                self.wf(),
                forall|x: int, y: int|
                    0 <= x < WIDTH && 0 <= y < HEIGHT ==> #[trigger] self.cell(x, y) == if y < row
                        && covers(lines@, x, y) {
                        lines@[y]@[x]
                    } else {
                        before.cell(x, y)
                    },
            decreases lines@.len() - row,
        {
            let line = &lines[row];
            assert(line@.len() <= WIDTH);
            let mut col: usize = 0;
            while col < line.len()
                invariant
                    fits(lines@),
                    row < lines@.len(),
                    *line == lines@[row as int],
                    line@.len() <= WIDTH,
                    col <= line@.len(),
                    before.wf(),
                    self.wf(),
                    forall|x: int, y: int|
                        0 <= x < WIDTH && 0 <= y < HEIGHT ==> #[trigger] self.cell(x, y) == if (y
                            < row || (y == row && x < col)) && covers(lines@, x, y) {
                            lines@[y]@[x]
                        } else {
                            before.cell(x, y)
                        },
                decreases line@.len() - col,
            {
                let ghost prev = *self;
                let i: usize = row * WIDTH + col;
                self.cells.set(i, line[col]);
                assert forall|x: int, y: int| 0 <= x < WIDTH && 0 <= y < HEIGHT implies #[trigger] self.cell(
                    x,
                    y,
                ) == if (y < row || (y == row && x < col + 1)) && covers(lines@, x, y) {
                    lines@[y]@[x]
                } else {
                    before.cell(x, y)
                } by {
                    if x == col && y == row {
                    } else {
                        if index_of(x, y) == i {
                            lemma_index_unique(x, y, col as int, row as int);
                        }
                        assert(self.cell(x, y) == prev.cell(x, y));
                    }
                }
                col = col + 1;
            }
            row = row + 1;
        }
        Ok(())
    }

    /// A grid of spaces with `lines` copied onto it, or `SourceTooLarge`
    /// where the text does not fit.
    pub fn from_lines(lines: &Vec<Vec<char>>) -> (r: Result<Grid, LoadError>)
        ensures
            r is Ok <==> fits(lines@),
            r is Err ==> r == Err::<Grid, LoadError>(LoadError::SourceTooLarge),
            r is Ok ==> r->Ok_0.wf() && forall|x: int, y: int|
                0 <= x < WIDTH && 0 <= y < HEIGHT ==> #[trigger] r->Ok_0.cell(x, y) == if covers(
                    lines@,
                    x,
                    y,
                ) {
                    lines@[y]@[x]
                } else {
                    ' '
                },
    {
        let mut g = Grid::new();
        match g.load(lines) {
            Ok(()) => Ok(g),
            Err(e) => Err(e),
        }
    }
}

} // verus!
