//! What can go wrong in a room.

use crate::logic::GameLogic;
use crate::text::labelled;
use vstd::prelude::*;

verus! {

/// Why an operation on a room failed.
#[derive(Debug)]
pub enum AppError<G: GameLogic> {
    /// The game objected.
    Game(G::GameError),
    /// The document could not be read or written.
    Network(String),
    /// The operation is not in order now, or not for this peer.
    InvalidAction(String),
    /// A value of the document could not be understood.
    StateParse(String),
}

impl<G: GameLogic> AppError<G> {
    /// The words with which the text of an error of this kind begins.
    pub open spec fn label(self) -> Seq<char> {
        match self {
            AppError::Game(_) => "Game logic error: "@,
            AppError::Network(_) => "Network error: "@,
            AppError::InvalidAction(_) => "Invalid action: "@,
            AppError::StateParse(_) => "State parsing error: "@,
        }
    }

    /// True when `text` is a text of the error: its label and then its
    /// message. For the game's objection the message is the objection as
    /// its `Display` writes it.
    pub open spec fn has_text(self, text: Seq<char>) -> bool {
        match self {
            AppError::Game(objection) => exists|words: String| #[trigger]
                vstd::string::to_string_from_display_ensures::<G::GameError>(&objection, words)
                    && text == self.label() + words@,
            AppError::Network(message) => text == self.label() + message@,
            AppError::InvalidAction(message) => text == self.label() + message@,
            AppError::StateParse(message) => text == self.label() + message@,
        }
    }

    /// The error in words.
    pub fn to_string(&self) -> (r: String)
        ensures
            self.has_text(r@),
    {
        match self {
            AppError::Game(objection) => {
                let words = objection.to_string();
                let text = labelled("Game logic error: ", words.as_str());
                assert(vstd::string::to_string_from_display_ensures::<G::GameError>(
                    objection,
                    words,
                ) && text@ == self.label() + words@);
                text
            },
            AppError::Network(message) => labelled("Network error: ", message.as_str()),
            AppError::InvalidAction(message) => labelled("Invalid action: ", message.as_str()),
            AppError::StateParse(message) => labelled("State parsing error: ", message.as_str()),
        }
    }
}

} // verus!
