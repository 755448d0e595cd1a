//! What holds of every game, whatever the board and the turns taken.

use vstd::prelude::*;

use crate::grid::{
    in_bounds, lemma_relocated_cells, relocated, walled_in, EMPTY, GOAL, MINOTAUR, THESEUS, WALL,
};
use crate::markers::{board_fault, confined, repeats, sole_cell};
use crate::state::{Command, GameStatus, State};

verus! {

/// Relocation doubles no marker. A moved symbol that stood nowhere but on
/// the cell it left stands nowhere but on the cell it went to.
pub proof fn lemma_mover_is_confined(
    rows: Seq<Seq<char>>,
    symbol: char,
    from: (int, int),
    to: (int, int),
)
    requires
        in_bounds(rows, from.0, from.1),
        in_bounds(rows, to.0, to.1),
        confined(rows, symbol, from.0, from.1),
        symbol != EMPTY,
    ensures
        confined(relocated(rows, symbol, from, to), symbol, to.0, to.1),
{
    lemma_relocated_cells(rows, symbol, from, to);
}

/// Relocation doubles no marker. A marker other than the moved symbol that
/// stood nowhere but on one cell stands nowhere else afterwards.
pub proof fn lemma_bystander_is_confined(
    rows: Seq<Seq<char>>,
    symbol: char,
    from: (int, int),
    to: (int, int),
    marker: char,
    at: (int, int),
)
    requires
        in_bounds(rows, from.0, from.1),
        in_bounds(rows, to.0, to.1),
        confined(rows, marker, at.0, at.1),
        marker != symbol,
        marker != EMPTY,
    ensures
        confined(relocated(rows, symbol, from, to), marker, at.0, at.1),
{
    lemma_relocated_cells(rows, symbol, from, to);
}

/// No turn doubles a marker, wherever Theseus and the Minotaur step: after
/// it, as before, no marker stands anywhere but on the cell recorded for it.
pub proof fn lemma_turns_double_no_marker(s: State, command: Command)
    requires
        s.wf(),
        s.markers_confined(),
        s.theseus_can_step(command),
        s.minotaur_can_step(),
    ensures
        s.after_theseus(command).markers_confined(),
        s.after_minotaur().markers_confined(),
{
    if s.theseus_steps(command) {
        let to = s.theseus_target(command);
        lemma_mover_is_confined(s.rows, THESEUS, s.theseus, to);
        lemma_bystander_is_confined(s.rows, THESEUS, s.theseus, to, MINOTAUR, s.minotaur);
        lemma_bystander_is_confined(s.rows, THESEUS, s.theseus, to, GOAL, s.goal);
    }
    if let Some(to) = s.minotaur_target() {
        lemma_mover_is_confined(s.rows, MINOTAUR, s.minotaur, to);
        lemma_bystander_is_confined(s.rows, MINOTAUR, s.minotaur, to, THESEUS, s.theseus);
        lemma_bystander_is_confined(s.rows, MINOTAUR, s.minotaur, to, GOAL, s.goal);
    }
}

/// A marker that stands on one cell only still does after another symbol has
/// been relocated, as long as the relocation neither starts on its cell nor
/// ends there.
pub proof fn lemma_bystander_stays(
    rows: Seq<Seq<char>>,
    symbol: char,
    from: (int, int),
    to: (int, int),
    marker: char,
    at: (int, int),
)
    requires
        in_bounds(rows, from.0, from.1),
        in_bounds(rows, to.0, to.1),
        sole_cell(rows, marker, at.0, at.1),
        marker != symbol,
        marker != EMPTY,
        at != from,
        at != to,
    ensures
        sole_cell(relocated(rows, symbol, from, to), marker, at.0, at.1),
{
    lemma_relocated_cells(rows, symbol, from, to);
    lemma_bystander_is_confined(rows, symbol, from, to, marker, at);
}

/// A marker that stands on one cell only stands on one cell only after it
/// has been relocated from there: on the cell it went to.
pub proof fn lemma_mover_arrives(
    rows: Seq<Seq<char>>,
    symbol: char,
    from: (int, int),
    to: (int, int),
)
    requires
        in_bounds(rows, to.0, to.1),
        sole_cell(rows, symbol, from.0, from.1),
        symbol != EMPTY,
    ensures
        sole_cell(relocated(rows, symbol, from, to), symbol, to.0, to.1),
{
    lemma_relocated_cells(rows, symbol, from, to);
    lemma_mover_is_confined(rows, symbol, from, to);
}

/// A board on which each marker stands on exactly one cell has no fault.
pub proof fn lemma_single_markers_are_sound(
    rows: Seq<Seq<char>>,
    theseus: (int, int),
    minotaur: (int, int),
    goal: (int, int),
)
    requires
        sole_cell(rows, THESEUS, theseus.0, theseus.1),
        sole_cell(rows, MINOTAUR, minotaur.0, minotaur.1),
        sole_cell(rows, GOAL, goal.0, goal.1),
    ensures
        board_fault(rows) is None,
{
    assert forall|r: int, c: int| !#[trigger] repeats(rows, r, c) by {}
}

/// A turn keeps the three positions on the board.
pub proof fn lemma_turns_stay_on_board(s: State, command: Command)
    requires
        s.wf(),
        s.theseus_can_step(command),
        s.minotaur_can_step(),
    ensures
        s.after_theseus(command).wf(),
        s.after_minotaur().wf(),
{
    if s.theseus_steps(command) {
        lemma_relocated_cells(s.rows, THESEUS, s.theseus, s.theseus_target(command));
    }
    if let Some(to) = s.minotaur_target() {
        lemma_relocated_cells(s.rows, MINOTAUR, s.minotaur, to);
    }
}

/// On an enclosed board Theseus can obey every command, and the board is
/// enclosed afterwards.
pub proof fn lemma_enclosed_theseus_turn(s: State, command: Command)
    requires
        s.enclosed(),
    ensures
        s.theseus_can_step(command),
        s.after_theseus(command).enclosed(),
{
    if s.theseus_steps(command) {
        let to = s.theseus_target(command);
        lemma_relocated_cells(s.rows, THESEUS, s.theseus, to);
        lemma_relocation_keeps_walls(s.rows, THESEUS, s.theseus, to);
    }
}

/// On an enclosed board the Minotaur can take its turn, and the board is
/// enclosed afterwards.
pub proof fn lemma_enclosed_minotaur_turn(s: State)
    requires
        s.enclosed(),
    ensures
        s.minotaur_can_step(),
        s.after_minotaur().enclosed(),
{
    if let Some(to) = s.minotaur_target() {
        lemma_relocated_cells(s.rows, MINOTAUR, s.minotaur, to);
        lemma_relocation_keeps_walls(s.rows, MINOTAUR, s.minotaur, to);
    }
}

/// A relocation between two cells that are no walls leaves a closed board
/// closed.
pub proof fn lemma_relocation_keeps_walls(
    rows: Seq<Seq<char>>,
    symbol: char,
    from: (int, int),
    to: (int, int),
)
    requires
        in_bounds(rows, from.0, from.1),
        in_bounds(rows, to.0, to.1),
        rows[from.0][from.1] != WALL,
        rows[to.0][to.1] != WALL,
        walled_in(rows),
    ensures
        walled_in(relocated(rows, symbol, from, to)),
{
    lemma_relocated_cells(rows, symbol, from, to);
}

/// While Theseus steps on no cell that holds the Minotaur or the goal, his
/// move leaves each marker on exactly one cell, the one recorded for it.
pub proof fn lemma_theseus_keeps_markers(s: State, command: Command)
    requires
        s.markers_in_place(),
        s.theseus_can_step(command),
        s.theseus_steps(command) ==> s.theseus_target(command) != s.minotaur
            && s.theseus_target(command) != s.goal,
    ensures
        s.after_theseus(command).markers_in_place(),
{
    if s.theseus_steps(command) {
        let to = s.theseus_target(command);
        lemma_mover_arrives(s.rows, THESEUS, s.theseus, to);
        lemma_bystander_stays(s.rows, THESEUS, s.theseus, to, MINOTAUR, s.minotaur);
        lemma_bystander_stays(s.rows, THESEUS, s.theseus, to, GOAL, s.goal);
    }
}

/// While the Minotaur steps on no cell that holds Theseus or the goal, its
/// move leaves each marker on exactly one cell, the one recorded for it.
pub proof fn lemma_minotaur_keeps_markers(s: State)
    requires
        s.markers_in_place(),
        s.minotaur_can_step(),
        s.minotaur_target() is Some ==> s.minotaur_target()->0 != s.theseus
            && s.minotaur_target()->0 != s.goal,
    ensures
        s.after_minotaur().markers_in_place(),
{
    if let Some(to) = s.minotaur_target() {
        lemma_mover_arrives(s.rows, MINOTAUR, s.minotaur, to);
        lemma_bystander_stays(s.rows, MINOTAUR, s.minotaur, to, THESEUS, s.theseus);
        lemma_bystander_stays(s.rows, MINOTAUR, s.minotaur, to, GOAL, s.goal);
    }
}

/// A step toward a wall changes nothing: not the board, not a position.
pub proof fn lemma_wall_stops_theseus(s: State, command: Command)
    requires
        s.wall_at(s.theseus_target(command)),
    ensures
        s.after_theseus(command) == s,
{
}

/// A skipped turn changes nothing, whatever the board holds.
pub proof fn lemma_skip_changes_nothing(s: State)
    ensures
        s.after_theseus(Command::Skip) == s,
{
}

/// Theseus on the goal has won, wherever the Minotaur stands.
pub proof fn lemma_goal_wins(s: State)
    requires
        s.theseus == s.goal,
    ensures
        s.status() == GameStatus::Win,
{
}

/// The distance between two rows or two columns.
pub open spec fn gap(a: int, b: int) -> int {
    if a < b {
        b - a
    } else {
        a - b
    }
}

/// The Minotaur's turn is one step along one axis, toward Theseus, or no
/// step at all. A column step that is open is taken, and the Minotaur then
/// stays in its row; the row step is taken only when the column step is not.
pub proof fn lemma_minotaur_keeps_to_one_axis(s: State)
    ensures
        s.after_minotaur().theseus == s.theseus,
        s.after_minotaur().goal == s.goal,
        s.takes_column() ==> {
            &&& s.after_minotaur().minotaur.0 == s.minotaur.0
            &&& gap(s.after_minotaur().minotaur.1, s.theseus.1) == gap(
                s.minotaur.1,
                s.theseus.1,
            ) - 1
        },
        !s.takes_column() && s.takes_row() ==> {
            &&& s.after_minotaur().minotaur.1 == s.minotaur.1
            &&& gap(s.after_minotaur().minotaur.0, s.theseus.0) == gap(
                s.minotaur.0,
                s.theseus.0,
            ) - 1
        },
        !s.takes_column() && !s.takes_row() ==> s.after_minotaur() == s,
{
}

} // verus!
