//! The board as rows of tile symbols, with lookups and in-place relocation.

use vstd::prelude::*;

verus! {

/// Symbol of an impassable cell.
pub const WALL: char = 'X';

/// Symbol of a free cell.
pub const EMPTY: char = ' ';

/// Symbol of the cell Theseus stands on.
pub const THESEUS: char = 'T';

/// Symbol of the cell the Minotaur stands on.
pub const MINOTAUR: char = 'M';

/// Symbol of the goal cell.
pub const GOAL: char = 'G';

/// Whether `(row, col)` names a cell of `rows`. Rows may differ in length, so
/// the column is bounded by its own row.
pub open spec fn in_bounds(rows: Seq<Seq<char>>, row: int, col: int) -> bool {
    0 <= row < rows.len() && 0 <= col < rows[row].len()
}

/// The rows after `symbol` has left `from` for `to`: the source cell becomes
/// empty, then the destination cell becomes `symbol`.
pub open spec fn relocated(
    rows: Seq<Seq<char>>,
    symbol: char,
    from: (int, int),
    to: (int, int),
) -> Seq<Seq<char>> {
    let cleared = rows.update(from.0, rows[from.0].update(from.1, EMPTY));
    cleared.update(to.0, cleared[to.0].update(to.1, symbol))
}

/// Whether the walls close the board in: every cell that is no wall has its
/// four neighbours on the board.
pub open spec fn walled_in(rows: Seq<Seq<char>>) -> bool {
    forall|r: int, c: int|
        in_bounds(rows, r, c) && #[trigger] rows[r][c] != WALL ==> has_neighbours(rows, r, c)
}

/// Whether the cells above, below, left and right of `(row, col)` are on the
/// board.
pub open spec fn has_neighbours(rows: Seq<Seq<char>>, row: int, col: int) -> bool {
    &&& in_bounds(rows, row - 1, col)
    &&& in_bounds(rows, row + 1, col)
    &&& in_bounds(rows, row, col - 1)
    &&& in_bounds(rows, row, col + 1)
}

/// What relocation does cell by cell: the board keeps its shape, the
/// destination holds `symbol`, the source is empty unless it is the
/// destination, and every other cell is as before.
pub proof fn lemma_relocated_cells(
    rows: Seq<Seq<char>>,
    symbol: char,
    from: (int, int),
    to: (int, int),
)
    requires
        in_bounds(rows, from.0, from.1),
        in_bounds(rows, to.0, to.1),
    ensures
        forall|r: int, c: int|
            in_bounds(relocated(rows, symbol, from, to), r, c) <==> in_bounds(rows, r, c),
        forall|r: int, c: int|
            in_bounds(rows, r, c) ==> #[trigger] relocated(rows, symbol, from, to)[r][c] == (if (r, c)
                == to {
                symbol
            } else if (r, c) == from {
                EMPTY
            } else {
                rows[r][c]
            }),
{
}

/// The glyph that stands for a wall when a board is drawn.
pub const BLOCK: char = '\u{2588}';

/// The glyph drawn for `symbol`.
pub open spec fn glyph(symbol: char) -> char {
    if symbol == WALL {
        BLOCK
    } else {
        symbol
    }
}

/// The rows as they are drawn, glyph for symbol.
pub open spec fn rendered(rows: Seq<Seq<char>>) -> Seq<Seq<char>> {
    Seq::new(rows.len(), |i: int| Seq::new(rows[i].len(), |j: int| glyph(rows[i][j])))
}

/// The rows that a vector of vectors stands for.
pub open spec fn rows_of(board: Seq<Vec<char>>) -> Seq<Seq<char>> {
    Seq::new(board.len(), |i: int| board[i]@)
}

/// The board: rows of tile symbols, not necessarily of one length.
pub struct Grid {
    board: Vec<Vec<char>>,
}

impl Clone for Grid {
    /// A grid of its own with the same rows.
    fn clone(&self) -> (copy: Self)
        ensures
            copy@ == self@,
    {
        Grid { board: self.board.clone() }
    }
}

impl View for Grid {
    type V = Seq<Seq<char>>;

    closed spec fn view(&self) -> Seq<Seq<char>> {
        rows_of(self.board@)
    }
}

impl Grid {
    /// Whether `(row, col)` names a cell of this grid.
    pub open spec fn has_cell(&self, row: int, col: int) -> bool {
        in_bounds(self@, row, col)
    }

    /// Every cell of a grid has a row and a column that fit in `usize`.
    pub proof fn lemma_cells_fit(&self)
        ensures
            forall|row: int, col: int| #[trigger]
                self.has_cell(row, col) ==> row < usize::MAX && col < usize::MAX,
    {
        assert forall|row: int, col: int| #[trigger] self.has_cell(row, col) implies row
            < usize::MAX && col < usize::MAX by {
            assert(self.board@.len() == self.board.len());
            assert(self@[row].len() == self.board@[row].len());
        }
    }

    /// Moves `symbol` from one cell to another: the source cell is cleared and
    /// the destination overwritten, whatever either held before.
    pub fn move_entity(&mut self, symbol: char, y: usize, x: usize, new_y: usize, new_x: usize)
        requires
            old(self).has_cell(y as int, x as int),
            old(self).has_cell(new_y as int, new_x as int),
        ensures
            final(self)@ == relocated(
                old(self)@,
                symbol,
                (y as int, x as int),
                (new_y as int, new_x as int),
            ),
    {
        self.board[y][x] = EMPTY;
        self.board[new_y][new_x] = symbol;
    }

    /// Whether `(row, col)` names a cell of this grid.
    pub fn contains(&self, row: usize, col: usize) -> (inside: bool)
        ensures
            inside == self.has_cell(row as int, col as int),
    {
        row < self.board.len() && col < self.board[row].len()
    }

    /// Whether the walls close the grid in, so that no step from a cell that
    /// is no wall leaves the grid.
    pub fn is_walled_in(&self) -> (closed: bool)
        ensures
            closed == walled_in(self@),
    {
        let mut i: usize = 0;
        while i < self.board.len()
            invariant
                i <= self.board.len(),
                forall|r: int, c: int|
                    0 <= r < i && self.has_cell(r, c) && #[trigger] self@[r][c] != WALL
                        ==> has_neighbours(self@, r, c),
            decreases self.board.len() - i,
        {
            let row = &self.board[i];
            let mut j: usize = 0;
            while j < row.len()
                invariant
                    i < self.board.len(),
                    row@ == self@[i as int],
                    j <= row.len(),
                    forall|c: int|
                        0 <= c < j && #[trigger] self@[i as int][c] != WALL ==> has_neighbours(
                            self@,
                            i as int,
                            c,
                        ),
                decreases row.len() - j,
            {
                if row[j] != WALL {
                    let inside = i > 0 && j > 0 && self.contains(i - 1, j) && self.contains(i, j - 1)
                        && self.contains(i + 1, j) && self.contains(i, j + 1);
                    if !inside {
                        return false;
                    }
                }
                j += 1;
            }
            i += 1;
        }
        true
    }

    /// Whether Theseus stands on `(row, col)`.
    pub fn is_theseus(&self, row: usize, col: usize) -> (held: bool)
        requires
            self.has_cell(row as int, col as int),
        ensures
            held == (self@[row as int][col as int] == THESEUS),
    {
        self.board[row][col] == THESEUS
    }

    /// Whether the Minotaur stands on `(row, col)`.
    pub fn is_minotaur(&self, row: usize, col: usize) -> (held: bool)
        requires
            self.has_cell(row as int, col as int),
        ensures
            held == (self@[row as int][col as int] == MINOTAUR),
    {
        self.board[row][col] == MINOTAUR
    }

    /// Whether `(row, col)` is a wall.
    pub fn is_wall(&self, row: usize, col: usize) -> (held: bool)
        requires
            self.has_cell(row as int, col as int),
        ensures
            held == (self@[row as int][col as int] == WALL),
    {
        self.board[row][col] == WALL
    }

    /// Whether `(row, col)` is the goal.
    pub fn is_goal(&self, row: usize, col: usize) -> (held: bool)
        requires
            self.has_cell(row as int, col as int),
        ensures
            held == (self@[row as int][col as int] == GOAL),
    {
        self.board[row][col] == GOAL
    }

    /// Whether `(row, col)` is free.
    pub fn is_empty(&self, row: usize, col: usize) -> (held: bool)
        requires
            self.has_cell(row as int, col as int),
        ensures
            held == (self@[row as int][col as int] == EMPTY),
    {
        self.board[row][col] == EMPTY
    }

    /// The rows as they are drawn: a solid block for each wall, every other
    /// symbol as it stands.
    pub fn render(&self) -> (drawn: Vec<Vec<char>>)
        ensures
            rows_of(drawn@) == rendered(self@),
    {
        let mut drawn: Vec<Vec<char>> = Vec::new();
        let mut i: usize = 0;
        while i < self.board.len()
            invariant
                i <= self.board.len(),
                drawn.len() == i,
                forall|k: int| 0 <= k < i ==> (#[trigger] drawn@[k])@ == rendered(self@)[k],
            decreases self.board.len() - i,
        {
            let row = &self.board[i];
            let mut line: Vec<char> = Vec::new();
            let mut j: usize = 0;
            while j < row.len()
                invariant
                    i < self.board.len(),
                    row@ == self@[i as int],
                    j <= row.len(),
                    line.len() == j,
                    forall|k: int| 0 <= k < j ==> #[trigger] line@[k] == glyph(row@[k]),
                decreases row.len() - j,
            {
                let symbol = row[j];
                line.push(if symbol == WALL { BLOCK } else { symbol });
                j += 1;
            }
            drawn.push(line);
            i += 1;
        }
        drawn
    }

    /// Wraps the given rows; every board is accepted.
    pub fn new(board: Vec<Vec<char>>) -> (result: Result<Grid, crate::error::BoardError>)
        ensures
            result is Ok,
            result->Ok_0@ == rows_of(board@),
    {
        Ok(Grid { board })
    }
}

} // verus!
