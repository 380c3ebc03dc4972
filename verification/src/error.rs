//! The reasons for which a bind is refused.

use vstd::prelude::*;

verus! {

/// Why a value could not be bound.
#[derive(Clone, Copy, Debug, PartialEq, Eq, Structural)]
pub enum BindError {
    /// The argument buffer has been handed over to a query already.
    ArgumentsTaken,
    /// The placeholder counter has reached the largest ordinal it can hold.
    TooManyArguments,
}

} // verus!
