//! The ways in which an entry point refuses a call.

use vstd::prelude::*;

verus! {

/// Why an entry point refused a call. Every refusal is decided before the
/// game record is touched, so a refused call leaves the record as it was.
#[derive(Clone, Copy, Debug, PartialEq, Eq, Structural)]
pub enum ErrorMessage {
    /// A tooth was pressed after the game had ended.
    GameAlreadyOver,
    /// The tooth index is not below the number of teeth.
    InvalidToothIndex,
    /// The tooth has already been pressed and resolved.
    ToothAlreadyPressed,
    /// A new game was asked for while the current one is still running.
    GameNotOver,
    /// The callback was not made by the randomness oracle.
    UnauthorizedCallback,
}

impl ErrorMessage {
    /// The text that goes with each refusal.
    pub open spec fn text(self) -> Seq<char> {
        match self {
            ErrorMessage::GameAlreadyOver => "Game is already over"@,
            ErrorMessage::InvalidToothIndex => "Invalid tooth index"@,
            ErrorMessage::ToothAlreadyPressed => "Tooth has already been pressed"@,
            ErrorMessage::GameNotOver => "Game is not over yet"@,
            ErrorMessage::UnauthorizedCallback => "Callback did not come from the randomness oracle"@,
        }
    }

    /// The text of this refusal, for a caller to show.
    pub fn message(&self) -> (s: String)
        ensures
            s@ == self.text(),
    {
        match self {
            ErrorMessage::GameAlreadyOver => "Game is already over".to_owned(),
            ErrorMessage::InvalidToothIndex => "Invalid tooth index".to_owned(),
            ErrorMessage::ToothAlreadyPressed => "Tooth has already been pressed".to_owned(),
            ErrorMessage::GameNotOver => "Game is not over yet".to_owned(),
            ErrorMessage::UnauthorizedCallback => "Callback did not come from the randomness oracle".to_owned(),
        }
    }
}

} // verus!
