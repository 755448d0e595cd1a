//! The game engine: loading a board, the two moves of a turn, and the verdict.

use vstd::prelude::*;
use vstd::string::StrSliceExecFns;

use crate::error::BoardError;
use crate::grid::{in_bounds, rendered, rows_of, Grid, EMPTY, GOAL, MINOTAUR, THESEUS, WALL};
use crate::laws::{lemma_enclosed_minotaur_turn, lemma_enclosed_theseus_turn};
use crate::markers::{board_fault, locate_markers};
use crate::state::{Command, GameStatus, State};
use crate::text::{board_rows, split_rows};

verus! {

/// A game in progress: the board, and where its three markers stand.
pub struct Game {
    grid: Grid,
    theseus: (usize, usize),
    minotaur: (usize, usize),
    goal: (usize, usize),
}

impl View for Game {
    type V = State;

    closed spec fn view(&self) -> State {
        State {
            rows: self.grid@,
            theseus: (self.theseus.0 as int, self.theseus.1 as int),
            minotaur: (self.minotaur.0 as int, self.minotaur.1 as int),
            goal: (self.goal.0 as int, self.goal.1 as int),
        }
    }
}

impl Clone for Game {
    /// A game of its own in the same state.
    fn clone(&self) -> (copy: Self)
        ensures
            copy@ == self@,
    {
        Game {
            grid: self.grid.clone(),
            theseus: self.theseus,
            minotaur: self.minotaur,
            goal: self.goal,
        }
    }
}

/// The command that a line of input stands for: `w`, `a`, `s` and `d` alone
/// on the line are up, left, down and right; any other line is a skip.
pub open spec fn command_for(line: Seq<char>) -> Command {
    if line.len() != 1 {
        Command::Skip
    } else if line[0] == 'w' {
        Command::Up
    } else if line[0] == 'a' {
        Command::Left
    } else if line[0] == 's' {
        Command::Down
    } else if line[0] == 'd' {
        Command::Right
    } else {
        Command::Skip
    }
}

/// Reads a command from one line of input, without its line ending. The
/// tokens are case-sensitive: `w` up, `a` left, `s` down, `d` right. Every
/// other line skips the turn.
pub fn input(line: &str) -> (command: Option<Command>)
    ensures
        command == Some(command_for(line@)),
{
    if line.unicode_len() != 1 {
        return Some(Command::Skip);
    }
    let token = line.get_char(0);
    if token == 'w' {
        Some(Command::Up)
    } else if token == 'a' {
        Some(Command::Left)
    } else if token == 's' {
        Some(Command::Down)
    } else if token == 'd' {
        Some(Command::Right)
    } else {
        Some(Command::Skip)
    }
}

impl Game {
    /// Loads a game from a board text, one row per line. The board must hold
    /// Theseus, the Minotaur and the goal once each; every other character is
    /// taken as it stands.
    pub fn from_board(board: &str) -> (result: Result<Game, BoardError>)
        ensures
            match result {
                Ok(game) => {
                    &&& board_fault(board_rows(board@)) is None
                    &&& game@.rows == board_rows(board@)
                    &&& game@.wf()
                    &&& game@.markers_in_place()
                },
                Err(fault) => board_fault(board_rows(board@)) == Some(fault),
            },
    {
        let rows = split_rows(board);
        match locate_markers(&rows) {
            Err(fault) => Err(fault),
            Ok(found) => match Grid::new(rows) {
                Err(fault) => Err(fault),
                Ok(grid) => Ok(
                    Game {
                        grid,
                        theseus: found.theseus,
                        minotaur: found.minotaur,
                        goal: found.goal,
                    },
                ),
            },
        }
    }

    /// Where Theseus stands, as (row, column).
    pub fn theseus(&self) -> (at: (usize, usize))
        ensures
            (at.0 as int, at.1 as int) == self@.theseus,
    {
        self.theseus
    }

    /// Where the Minotaur stands, as (row, column).
    pub fn minotaur(&self) -> (at: (usize, usize))
        ensures
            (at.0 as int, at.1 as int) == self@.minotaur,
    {
        self.minotaur
    }

    /// Where the goal is, as (row, column).
    pub fn goal(&self) -> (at: (usize, usize))
        ensures
            (at.0 as int, at.1 as int) == self@.goal,
    {
        self.goal
    }

    /// Whether `(row, col)` names a cell of the board.
    pub fn contains(&self, row: usize, col: usize) -> (inside: bool)
        ensures
            inside == in_bounds(self@.rows, row as int, col as int),
    {
        self.grid.contains(row, col)
    }

    /// Whether the walls close the board in around both Theseus and the
    /// Minotaur. While they do, every turn can be carried out.
    pub fn is_enclosed(&self) -> (closed: bool)
        ensures
            closed == self@.enclosed(),
    {
        self.grid.contains(self.theseus.0, self.theseus.1)
            && self.grid.contains(self.minotaur.0, self.minotaur.1)
            && self.grid.contains(self.goal.0, self.goal.1)
            && !self.grid.is_wall(self.theseus.0, self.theseus.1)
            && !self.grid.is_wall(self.minotaur.0, self.minotaur.1)
            && self.grid.is_walled_in()
    }

    /// Whether `command` names a cell of the board, so that
    /// [`Game::theseus_move`] can carry it out.
    pub fn theseus_can_move(&self, command: Command) -> (able: bool)
        ensures
            able == self@.theseus_can_step(command),
    {
        let row: usize = self.theseus.0;
        let col: usize = self.theseus.1;
        proof {
            self.grid.lemma_cells_fit();
            let to = self@.theseus_target(command);
            assert(in_bounds(self@.rows, to.0, to.1) == self.grid.has_cell(to.0, to.1));
        }
        match command {
            Command::Up => row > 0 && self.grid.contains(row - 1, col),
            Command::Down => row < usize::MAX && self.grid.contains(row + 1, col),
            Command::Left => col > 0 && self.grid.contains(row, col - 1),
            Command::Right => col < usize::MAX && self.grid.contains(row, col + 1),
            Command::Skip => true,
        }
    }

    /// Whether every cell that the Minotaur looks at this turn is on the
    /// board, so that [`Game::minotaur_move`] can be carried out.
    pub fn minotaur_can_move(&self) -> (able: bool)
        ensures
            able == self@.minotaur_can_step(),
    {
        let ty: usize = self.theseus.0;
        let tx: usize = self.theseus.1;
        let my: usize = self.minotaur.0;
        let mx: usize = self.minotaur.1;

        if tx != mx {
            let new_x: usize = if tx < mx { mx - 1 } else { mx + 1 };
            if !self.grid.contains(my, new_x) {
                return false;
            }
            if !self.grid.is_wall(my, new_x) {
                return true;
            }
        }
        if ty != my {
            let new_y: usize = if ty < my { my - 1 } else { my + 1 };
            return self.grid.contains(new_y, mx);
        }
        true
    }

    /// The board as it is drawn, row by row: a solid block for each wall,
    /// every other symbol as it stands.
    pub fn render(&self) -> (drawn: Vec<Vec<char>>)
        ensures
            rows_of(drawn@) == rendered(self@.rows),
    {
        self.grid.render()
    }

    /// The Minotaur's turn: one step toward Theseus, along the columns if it
    /// can, else along the rows. It looks at the row step whenever it has not
    /// taken the column step, also when a wall was the reason.
    pub fn minotaur_move(&mut self)
        requires
            old(self)@.wf(),
            old(self)@.minotaur_can_step(),
        ensures
            final(self)@ == old(self)@.after_minotaur(),
            final(self)@.wf(),
            old(self)@.enclosed() ==> final(self)@.enclosed(),
            old(self)@.minotaur_target() is None ==> *final(self) == *old(self),
    {
        let ty: usize = self.theseus.0;
        let tx: usize = self.theseus.1;
        let my: usize = self.minotaur.0;
        let mx: usize = self.minotaur.1;
        proof {
            if self@.enclosed() {
                lemma_enclosed_minotaur_turn(self@);
            }
        }

        if tx != mx {
            let new_x: usize = if tx < mx { mx - 1 } else { mx + 1 };
            if !self.is_wall(my, new_x) {
                self.grid.move_entity(MINOTAUR, my, mx, my, new_x);
                self.minotaur = (my, new_x);
                return;
            }
        }
        if ty != my {
            let new_y: usize = if ty < my { my - 1 } else { my + 1 };
            if !self.is_wall(new_y, mx) {
                self.grid.move_entity(MINOTAUR, my, mx, new_y, mx);
                self.minotaur = (new_y, mx);
            }
        }
    }

    /// Theseus's turn: one step as `command` says, unless a wall is in the
    /// way. A blocked step and `Skip` leave the game as it was.
    pub fn theseus_move(&mut self, command: Command)
        requires
            old(self)@.wf(),
            old(self)@.theseus_can_step(command),
        ensures
            final(self)@ == old(self)@.after_theseus(command),
            final(self)@.wf(),
            old(self)@.enclosed() ==> final(self)@.enclosed(),
            !old(self)@.theseus_steps(command) ==> *final(self) == *old(self),
    {
        let row: usize = self.theseus.0;
        let col: usize = self.theseus.1;
        proof {
            self.grid.lemma_cells_fit();
            let to = self@.theseus_target(command);
            assert(command != Command::Skip ==> self.grid.has_cell(to.0, to.1));
            if self@.enclosed() {
                lemma_enclosed_theseus_turn(self@, command);
            }
        }
        let (new_row, new_col): (usize, usize) = match command {
            Command::Up => (row - 1, col),
            Command::Down => (row + 1, col),
            Command::Left => (row, col - 1),
            Command::Right => (row, col + 1),
            Command::Skip => {
                return;
            },
        };
        if self.is_wall(new_row, new_col) {
            return;
        }
        self.grid.move_entity(THESEUS, row, col, new_row, new_col);
        self.theseus = (new_row, new_col);
    }

    /// How the game stands. The goal is looked at first: Theseus on the goal
    /// has won, wherever the Minotaur is.
    pub fn status(&self) -> (verdict: GameStatus)
        ensures
            verdict == self@.status(),
    {
        if self.theseus.0 == self.goal.0 && self.theseus.1 == self.goal.1 {
            GameStatus::Win
        } else if self.theseus.0 == self.minotaur.0 && self.theseus.1 == self.minotaur.1 {
            GameStatus::Lose
        } else {
            GameStatus::Continue
        }
    }
}

impl Game {
    /// Returns true if the given position is Theseus
    pub fn is_theseus(&self, row: usize, col: usize) -> (held: bool)
        requires
            in_bounds(self@.rows, row as int, col as int),
        ensures
            held == (self@.rows[row as int][col as int] == THESEUS),
    {
        self.grid.is_theseus(row, col)
    }

    /// Returns true if the given position is Minotaur
    pub fn is_minotaur(&self, row: usize, col: usize) -> (held: bool)
        requires
            in_bounds(self@.rows, row as int, col as int),
        ensures
            held == (self@.rows[row as int][col as int] == MINOTAUR),
    {
        self.grid.is_minotaur(row, col)
    }

    /// Returns true if the given position is a wall
    pub fn is_wall(&self, row: usize, col: usize) -> (held: bool)
        requires
            in_bounds(self@.rows, row as int, col as int),
        ensures
            held == (self@.rows[row as int][col as int] == WALL),
    {
        self.grid.is_wall(row, col)
    }

    /// Returns true if the given position is the goal
    pub fn is_goal(&self, row: usize, col: usize) -> (held: bool)
        requires
            in_bounds(self@.rows, row as int, col as int),
        ensures
            held == (self@.rows[row as int][col as int] == GOAL),
    {
        self.grid.is_goal(row, col)
    }

    /// Returns true if the given position is empty
    pub fn is_empty(&self, row: usize, col: usize) -> (held: bool)
        requires
            in_bounds(self@.rows, row as int, col as int),
        ensures
            held == (self@.rows[row as int][col as int] == EMPTY),
    {
        self.grid.is_empty(row, col)
    }
}

} // verus!
