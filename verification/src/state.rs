//! The mathematical view of a query builder.

use vstd::prelude::*;
use crate::database::Database;
use crate::error::BindError;

verus! {

/// The largest number of values that one builder can bind.
pub const MAX_PLACEHOLDERS: u16 = 65535;

/// What a query builder holds, as plain mathematical values.
pub struct BuilderState {
    /// The text of the statement so far.
    pub text: Seq<char>,
    /// The bytes of the argument buffer while the builder owns it; `None`
    /// once the buffer has been handed over. An empty buffer is `Some`.
    pub arguments: Option<Seq<u8>>,
    /// The number of values bound so far, which is also the ordinal of the
    /// placeholder emitted last.
    pub placeholders: nat,
}

impl BuilderState {
    /// The state of a fresh builder: the given text, an empty buffer, no
    /// placeholder yet.
    pub open spec fn initial(text: Seq<char>) -> BuilderState {
        BuilderState { text, arguments: Some(Seq::<u8>::empty()), placeholders: 0 }
    }

    /// Whether the builder still owns its argument buffer.
    pub open spec fn live(self) -> bool {
        self.arguments is Some
    }

    /// The state after `fragment` is pushed: one space and the fragment are
    /// appended to the text, nothing else changes.
    pub open spec fn push(self, fragment: Seq<char>) -> BuilderState {
        BuilderState { text: self.text + seq![' '] + fragment, ..self }
    }

    /// The state after a value with the given encoding is bound: the encoding
    /// is appended to the buffer, the counter goes up by one, and the
    /// placeholder of the new count is appended to the text.
    pub open spec fn bind<DB: Database>(self, encoding: Seq<u8>) -> BuilderState
        recommends
            self.live(),
    {
        BuilderState {
            text: self.text + DB::placeholder(self.placeholders + 1),
            arguments: match self.arguments {
                Some(bytes) => Some(bytes + encoding),
                None => None,
            },
            placeholders: self.placeholders + 1,
        }
    }

    /// The state after the builder is built: the buffer is gone, text and
    /// counter stay.
    pub open spec fn taken(self) -> BuilderState {
        BuilderState { arguments: None, ..self }
    }

    /// Whether a bind is accepted in this state, and if not, why.
    pub open spec fn bind_outcome(self) -> Result<(), BindError> {
        if !self.live() {
            Err(BindError::ArgumentsTaken)
        } else if self.placeholders >= MAX_PLACEHOLDERS {
            Err(BindError::TooManyArguments)
        } else {
            Ok(())
        }
    }
}

} // verus!
