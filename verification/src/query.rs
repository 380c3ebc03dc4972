//! The finished query that a builder hands over.

use vstd::prelude::*;
use either::Either;
use std::marker::PhantomData;
use crate::database::Database;

verus! {

/// Makes `either::Either` known to the verifier as the enum that it is: a
/// value is `Left` of an `L` or `Right` of an `R`. The verifier reads the two
/// variants from the definition itself; nothing is assumed on top of it.
#[verifier::external_type_specification]
#[verifier::reject_recursive_types(L)]
#[verifier::reject_recursive_types(R)]
pub struct ExEither<L, R>(either::Either<L, R>);

/// A statement together with its serialized arguments, ready for execution
/// on the backend `DB`.
pub struct Query<'q, DB: Database, A> {
    /// The text of the statement: borrowed from where it was assembled
    /// (`Left`), or owned (`Right`).
    pub statement: Either<&'q str, String>,
    /// The buffer of serialized arguments, in bind order. `None` where the
    /// buffer was not there to be taken.
    pub arguments: Option<A>,
    /// Marks the backend whose encoding the arguments are in.
    pub database: PhantomData<DB>,
    /// Whether the statement may be kept as a prepared statement.
    pub persistent: bool,
}

} // verus!
