//! The capability that a value needs in order to be bound.

use vstd::prelude::*;
use crate::database::Database;

verus! {

/// A value that can be serialized into the argument buffer of the backend `DB`.
pub trait Encode<'a, DB: Database> {
    /// The bytes that stand for this value in an argument buffer of `DB`.
    spec fn encoding(&self) -> Seq<u8>;

    /// Appends the encoding of this value to `buf`. What `buf` held before
    /// stays in place in front of it.
    fn encode(&self, buf: &mut DB::ArgumentBuffer<'a>)
        ensures
            DB::buffer_bytes(final(buf)) == DB::buffer_bytes(old(buf)) + self.encoding(),
    ;
}

} // verus!
