//! Locating the three markers of a board and telling what is wrong with a
//! board that lacks or repeats one.

use vstd::prelude::*;

use crate::error::BoardError;
use crate::grid::{in_bounds, rows_of, GOAL, MINOTAUR, THESEUS};

verus! {

/// Whether `symbol` marks Theseus, the Minotaur or the goal.
pub open spec fn is_marker(symbol: char) -> bool {
    symbol == THESEUS || symbol == MINOTAUR || symbol == GOAL
}

/// Reading order: row by row, and left to right within a row.
pub open spec fn precedes(row: int, col: int, other_row: int, other_col: int) -> bool {
    row < other_row || (row == other_row && col < other_col)
}

/// Whether some cell of `rows` holds `symbol`.
pub open spec fn occurs(rows: Seq<Seq<char>>, symbol: char) -> bool {
    exists|r: int, c: int| in_bounds(rows, r, c) && #[trigger] rows[r][c] == symbol
}

/// Whether no cell of `rows` but `(row, col)` holds `symbol`.
pub open spec fn confined(rows: Seq<Seq<char>>, symbol: char, row: int, col: int) -> bool {
    forall|r: int, c: int|
        in_bounds(rows, r, c) && #[trigger] rows[r][c] == symbol ==> r == row && c == col
}

/// Whether `(row, col)` is the one cell of `rows` that holds `symbol`.
pub open spec fn sole_cell(rows: Seq<Seq<char>>, symbol: char, row: int, col: int) -> bool {
    &&& in_bounds(rows, row, col)
    &&& rows[row][col] == symbol
    &&& confined(rows, symbol, row, col)
}

/// Whether `(row, col)` holds a marker that an earlier cell holds too.
pub open spec fn repeats(rows: Seq<Seq<char>>, row: int, col: int) -> bool {
    &&& in_bounds(rows, row, col)
    &&& is_marker(rows[row][col])
    &&& exists|r: int, c: int|
        in_bounds(rows, r, c) && precedes(r, c, row, col) && #[trigger] rows[r][c]
            == rows[row][col]
}

/// Whether `(row, col)` is the first cell in reading order that repeats a
/// marker.
pub open spec fn first_repeat(rows: Seq<Seq<char>>, row: int, col: int) -> bool {
    &&& repeats(rows, row, col)
    &&& forall|r: int, c: int| precedes(r, c, row, col) ==> !#[trigger] repeats(rows, r, c)
}

/// Whether the first marker to come a second time, in reading order, is
/// `symbol`.
pub open spec fn repeats_first(rows: Seq<Seq<char>>, symbol: char) -> bool {
    exists|r: int, c: int| #[trigger] first_repeat(rows, r, c) && rows[r][c] == symbol
}

/// What is wrong with a board, if anything. A repeated marker is reported
/// before a missing one, and of several repeated markers the one whose second
/// occurrence comes first in reading order. Of several missing markers Theseus
/// is reported before the Minotaur, and the Minotaur before the goal.
pub open spec fn board_fault(rows: Seq<Seq<char>>) -> Option<BoardError> {
    if repeats_first(rows, THESEUS) {
        Some(BoardError::MultipleTheseus)
    } else if repeats_first(rows, MINOTAUR) {
        Some(BoardError::MultipleMinotaur)
    } else if repeats_first(rows, GOAL) {
        Some(BoardError::MultipleGoal)
    } else if !occurs(rows, THESEUS) {
        Some(BoardError::NoTheseus)
    } else if !occurs(rows, MINOTAUR) {
        Some(BoardError::NoMinotaur)
    } else if !occurs(rows, GOAL) {
        Some(BoardError::NoGoal)
    } else {
        None
    }
}

/// Where the three markers of a board stand, as (row, column) pairs.
#[derive(Clone, Copy, Debug)]
pub struct Markers {
    pub theseus: (usize, usize),
    pub minotaur: (usize, usize),
    pub goal: (usize, usize),
}

impl Markers {
    /// Whether each position is the one cell of `rows` that holds its marker.
    pub open spec fn locate(self, rows: Seq<Seq<char>>) -> bool {
        &&& sole_cell(rows, THESEUS, self.theseus.0 as int, self.theseus.1 as int)
        &&& sole_cell(rows, MINOTAUR, self.minotaur.0 as int, self.minotaur.1 as int)
        &&& sole_cell(rows, GOAL, self.goal.0 as int, self.goal.1 as int)
    }
}

/// What a scan knows of `symbol` when it stands before `(row, col)`: either no
/// earlier cell holds it, or exactly the one at `found`.
pub open spec fn seen(
    rows: Seq<Seq<char>>,
    symbol: char,
    found: Option<(usize, usize)>,
    row: int,
    col: int,
) -> bool {
    match found {
        None => forall|r: int, c: int|
            in_bounds(rows, r, c) && precedes(r, c, row, col) ==> #[trigger] rows[r][c] != symbol,
        Some(at) => {
            &&& in_bounds(rows, at.0 as int, at.1 as int)
            &&& precedes(at.0 as int, at.1 as int, row, col)
            &&& rows[at.0 as int][at.1 as int] == symbol
            &&& forall|r: int, c: int|
                in_bounds(rows, r, c) && precedes(r, c, row, col) && #[trigger] rows[r][c]
                    == symbol ==> r == at.0 && c == at.1
        },
    }
}

/// Whether a scan that stands before `(row, col)` has met no marker twice.
pub open spec fn scanned(
    rows: Seq<Seq<char>>,
    theseus: Option<(usize, usize)>,
    minotaur: Option<(usize, usize)>,
    goal: Option<(usize, usize)>,
    row: int,
    col: int,
) -> bool {
    &&& seen(rows, THESEUS, theseus, row, col)
    &&& seen(rows, MINOTAUR, minotaur, row, col)
    &&& seen(rows, GOAL, goal, row, col)
}

/// No cell before the scan's position repeats a marker.
pub proof fn lemma_no_repeat_before(
    rows: Seq<Seq<char>>,
    theseus: Option<(usize, usize)>,
    minotaur: Option<(usize, usize)>,
    goal: Option<(usize, usize)>,
    row: int,
    col: int,
)
    requires
        scanned(rows, theseus, minotaur, goal, row, col),
    ensures
        forall|r: int, c: int| precedes(r, c, row, col) ==> !#[trigger] repeats(rows, r, c),
{
}

/// A cell that repeats a marker, with none before it doing so, decides the
/// fault of the board.
pub proof fn lemma_first_repeat_decides(rows: Seq<Seq<char>>, row: int, col: int)
    requires
        first_repeat(rows, row, col),
    ensures
        forall|symbol: char| repeats_first(rows, symbol) <==> rows[row][col] == symbol,
{
}

/// Scans `rows` in reading order for the three markers. Stops at the first
/// cell that repeats a marker; a missing marker shows only once every cell
/// has been read.
pub fn locate_markers(rows: &Vec<Vec<char>>) -> (result: Result<Markers, BoardError>)
    ensures
        match result {
            Ok(found) => board_fault(rows_of(rows@)) is None && found.locate(rows_of(rows@)),
            Err(fault) => board_fault(rows_of(rows@)) == Some(fault),
        },
{
    let ghost cells = rows_of(rows@);
    let mut theseus: Option<(usize, usize)> = None;
    let mut minotaur: Option<(usize, usize)> = None;
    let mut goal: Option<(usize, usize)> = None;
    let mut i: usize = 0;
    while i < rows.len()
        invariant
            i <= rows.len(),
            cells == rows_of(rows@),
            scanned(cells, theseus, minotaur, goal, i as int, 0),
        decreases rows.len() - i,
    {
        let row = &rows[i];
        let mut j: usize = 0;
        while j < row.len()
            invariant
                i < rows.len(),
                j <= row.len(),
                row@ == cells[i as int],
                cells == rows_of(rows@),
                scanned(cells, theseus, minotaur, goal, i as int, j as int),
            decreases row.len() - j,
        {
            let symbol = row[j];
            if symbol == THESEUS {
                if theseus.is_some() {
                    proof {
                        lemma_no_repeat_before(cells, theseus, minotaur, goal, i as int, j as int);
                        lemma_first_repeat_decides(cells, i as int, j as int);
                    }
                    return Err(BoardError::MultipleTheseus);
                }
                theseus = Some((i, j));
            } else if symbol == MINOTAUR {
                if minotaur.is_some() {
                    proof {
                        lemma_no_repeat_before(cells, theseus, minotaur, goal, i as int, j as int);
                        lemma_first_repeat_decides(cells, i as int, j as int);
                    }
                    return Err(BoardError::MultipleMinotaur);
                }
                minotaur = Some((i, j));
            } else if symbol == GOAL {
                if goal.is_some() {
                    proof {
                        lemma_no_repeat_before(cells, theseus, minotaur, goal, i as int, j as int);
                        lemma_first_repeat_decides(cells, i as int, j as int);
                    }
                    return Err(BoardError::MultipleGoal);
                }
                goal = Some((i, j));
            }
            j += 1;
        }
        i += 1;
    }
    proof {
        lemma_no_repeat_before(cells, theseus, minotaur, goal, i as int, 0);
    }
    match (theseus, minotaur, goal) {
        (None, _, _) => Err(BoardError::NoTheseus),
        (Some(_), None, _) => Err(BoardError::NoMinotaur),
        (Some(_), Some(_), None) => Err(BoardError::NoGoal),
        (Some(theseus), Some(minotaur), Some(goal)) => Ok(Markers { theseus, minotaur, goal }),
    }
}

} // verus!
