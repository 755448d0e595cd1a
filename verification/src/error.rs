//! What can be wrong with a board description.

use vstd::prelude::*;
use vstd::string::StringExecFns;

verus! {

/// Why a board description was turned down.
#[derive(Clone, Copy, Debug, PartialEq, Eq, Structural)]
pub enum BoardError {
    /// A symbol outside the board alphabet. Kept for callers that enforce an
    /// alphabet; loading a board accepts every character.
    InvalidCharacter(char),
    /// A board of unusable dimensions. Kept for callers that enforce a shape;
    /// loading a board accepts every shape.
    InvalidSize,
    /// No cell holds the Minotaur.
    NoMinotaur,
    /// No cell holds Theseus.
    NoTheseus,
    /// No cell holds the goal.
    NoGoal,
    /// More than one cell holds the Minotaur.
    MultipleMinotaur,
    /// More than one cell holds Theseus.
    MultipleTheseus,
    /// More than one cell holds the goal.
    MultipleGoal,
}

/// `String::push` of the standard library: the string afterwards is the
/// string before with `ch` appended at its end.
pub assume_specification[ String::push ](text: &mut String, ch: char)
    ensures
        final(text)@ == old(text)@.push(ch),
;

impl BoardError {
    /// The text of [`BoardError::message`].
    pub open spec fn message_text(self) -> Seq<char> {
        match self {
            BoardError::InvalidCharacter(c) => "Invalid character: "@.push(c),
            BoardError::InvalidSize => "Invalid size"@,
            BoardError::NoMinotaur => "No minotaur"@,
            BoardError::NoTheseus => "No theseus"@,
            BoardError::NoGoal => "No goal"@,
            BoardError::MultipleMinotaur => "Multiple minotaur"@,
            BoardError::MultipleTheseus => "Multiple theseus"@,
            BoardError::MultipleGoal => "Multiple goal"@,
        }
    }

    /// A one-line description of the error for display.
    pub fn message(&self) -> (text: String)
        ensures
            text@ == self.message_text(),
    {
        match self {
            BoardError::InvalidCharacter(c) => {
                let mut text = String::from_str("Invalid character: ");
                text.push(*c);
                text
            },
            BoardError::InvalidSize => String::from_str("Invalid size"),
            BoardError::NoMinotaur => String::from_str("No minotaur"),
            BoardError::NoTheseus => String::from_str("No theseus"),
            BoardError::NoGoal => String::from_str("No goal"),
            BoardError::MultipleMinotaur => String::from_str("Multiple minotaur"),
            BoardError::MultipleTheseus => String::from_str("Multiple theseus"),
            BoardError::MultipleGoal => String::from_str("Multiple goal"),
        }
    }
}

} // verus!
