//! The game as plain values: what a turn does to the rows and to the three
//! positions, and how a position is judged.

use vstd::prelude::*;

use crate::grid::{in_bounds, relocated, walled_in, GOAL, MINOTAUR, THESEUS, WALL};
use crate::markers::{confined, sole_cell};

verus! {

/// How a game stands after a turn.
#[derive(Clone, Copy, Debug, PartialEq, Eq, Structural)]
pub enum GameStatus {
    /// Theseus stands on the goal.
    Win,
    /// The Minotaur has caught Theseus.
    Lose,
    /// Neither yet.
    Continue,
}

/// What Theseus is told to do in a turn.
#[derive(Debug, Clone, Copy, PartialEq, Eq, Structural)]
pub enum Command {
    /// Move one tile up
    Up,
    /// Move one tile down
    Down,
    /// Move one tile left
    Left,
    /// Move one tile right
    Right,
    /// Don't move at all
    Skip,
}

impl Command {
    /// The step a command asks for, as (rows, columns).
    pub open spec fn delta(self) -> (int, int) {
        match self {
            Command::Up => (-1, 0),
            Command::Down => (1, 0),
            Command::Left => (0, -1),
            Command::Right => (0, 1),
            Command::Skip => (0, 0),
        }
    }
}

/// A game as plain values: the rows of the board and the (row, column) of
/// Theseus, of the Minotaur and of the goal.
pub struct State {
    pub rows: Seq<Seq<char>>,
    pub theseus: (int, int),
    pub minotaur: (int, int),
    pub goal: (int, int),
}

impl State {
    /// The three positions name cells of the board.
    pub open spec fn wf(self) -> bool {
        &&& in_bounds(self.rows, self.theseus.0, self.theseus.1)
        &&& in_bounds(self.rows, self.minotaur.0, self.minotaur.1)
        &&& in_bounds(self.rows, self.goal.0, self.goal.1)
    }

    /// Each marker stands on exactly one cell of the board, and that cell is
    /// the position recorded for it.
    pub open spec fn markers_in_place(self) -> bool {
        &&& sole_cell(self.rows, THESEUS, self.theseus.0, self.theseus.1)
        &&& sole_cell(self.rows, MINOTAUR, self.minotaur.0, self.minotaur.1)
        &&& sole_cell(self.rows, GOAL, self.goal.0, self.goal.1)
    }

    /// No marker stands anywhere but on the cell recorded for it: none is
    /// doubled, though one may be covered by another.
    pub open spec fn markers_confined(self) -> bool {
        &&& confined(self.rows, THESEUS, self.theseus.0, self.theseus.1)
        &&& confined(self.rows, MINOTAUR, self.minotaur.0, self.minotaur.1)
        &&& confined(self.rows, GOAL, self.goal.0, self.goal.1)
    }

    /// The walls close the board in, and neither Theseus nor the Minotaur is
    /// recorded on a wall. Such a game never sends either of them off the
    /// board.
    pub open spec fn enclosed(self) -> bool {
        &&& self.wf()
        &&& walled_in(self.rows)
        &&& !self.wall_at(self.theseus)
        &&& !self.wall_at(self.minotaur)
    }

    /// Whether the cell at `at` is a wall.
    pub open spec fn wall_at(self, at: (int, int)) -> bool {
        self.rows[at.0][at.1] == WALL
    }

    /// The cell that `command` sends Theseus to.
    pub open spec fn theseus_target(self, command: Command) -> (int, int) {
        (self.theseus.0 + command.delta().0, self.theseus.1 + command.delta().1)
    }

    /// Whether `command` can be carried out: the cell it names is on the
    /// board. `Skip` names none and always can.
    pub open spec fn theseus_can_step(self, command: Command) -> bool {
        command != Command::Skip ==> in_bounds(
            self.rows,
            self.theseus_target(command).0,
            self.theseus_target(command).1,
        )
    }

    /// Whether `command` moves Theseus: it names a cell, and that cell is no
    /// wall.
    pub open spec fn theseus_steps(self, command: Command) -> bool {
        command != Command::Skip && !self.wall_at(self.theseus_target(command))
    }

    /// The game after Theseus has obeyed `command`. A step into a wall and
    /// `Skip` change nothing; any other step takes the marker to the new cell
    /// and leaves the old one empty.
    pub open spec fn after_theseus(self, command: Command) -> State {
        if self.theseus_steps(command) {
            State {
                rows: relocated(
                    self.rows,
                    THESEUS,
                    self.theseus,
                    self.theseus_target(command),
                ),
                theseus: self.theseus_target(command),
                ..self
            }
        } else {
            self
        }
    }

    /// The cell one column closer to Theseus, in the Minotaur's row.
    pub open spec fn column_step(self) -> (int, int) {
        if self.theseus.1 < self.minotaur.1 {
            (self.minotaur.0, self.minotaur.1 - 1)
        } else {
            (self.minotaur.0, self.minotaur.1 + 1)
        }
    }

    /// The cell one row closer to Theseus, in the Minotaur's column.
    pub open spec fn row_step(self) -> (int, int) {
        if self.theseus.0 < self.minotaur.0 {
            (self.minotaur.0 - 1, self.minotaur.1)
        } else {
            (self.minotaur.0 + 1, self.minotaur.1)
        }
    }

    /// Whether the Minotaur looks at the column step: it does while Theseus
    /// is in another column.
    pub open spec fn tries_column(self) -> bool {
        self.theseus.1 != self.minotaur.1
    }

    /// Whether the Minotaur takes the column step.
    pub open spec fn takes_column(self) -> bool {
        self.tries_column() && !self.wall_at(self.column_step())
    }

    /// Whether the Minotaur looks at the row step: it does when it has not
    /// taken the column step, be it for a wall or for standing in Theseus's
    /// column already, and Theseus is in another row.
    pub open spec fn tries_row(self) -> bool {
        !self.takes_column() && self.theseus.0 != self.minotaur.0
    }

    /// Whether the Minotaur takes the row step.
    pub open spec fn takes_row(self) -> bool {
        self.tries_row() && !self.wall_at(self.row_step())
    }

    /// Whether the Minotaur's turn can be carried out: each cell it looks
    /// at is on the board.
    pub open spec fn minotaur_can_step(self) -> bool {
        &&& self.tries_column() ==> in_bounds(self.rows, self.column_step().0, self.column_step().1)
        &&& self.tries_row() ==> in_bounds(self.rows, self.row_step().0, self.row_step().1)
    }

    /// The cell the Minotaur moves to this turn, if it moves. The column step
    /// comes first; the row step is taken only when the column step is not.
    pub open spec fn minotaur_target(self) -> Option<(int, int)> {
        if self.takes_column() {
            Some(self.column_step())
        } else if self.takes_row() {
            Some(self.row_step())
        } else {
            None
        }
    }

    /// The game after the Minotaur's turn.
    pub open spec fn after_minotaur(self) -> State {
        match self.minotaur_target() {
            Some(to) => State {
                rows: relocated(self.rows, MINOTAUR, self.minotaur, to),
                minotaur: to,
                ..self
            },
            None => self,
        }
    }

    /// How the game stands: won on the goal, else lost where the Minotaur is,
    /// else open.
    pub open spec fn status(self) -> GameStatus {
        if self.theseus == self.goal {
            GameStatus::Win
        } else if self.theseus == self.minotaur {
            GameStatus::Lose
        } else {
            GameStatus::Continue
        }
    }
}

} // verus!
