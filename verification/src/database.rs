//! The capability that a database backend offers to the builder.

use vstd::prelude::*;

verus! {

/// A database backend.
///
/// A backend settles the two things that the builder cannot know by itself:
/// the type of the buffer that bound values are serialized into, and the text
/// of the positional placeholder that stands for a bound value in a statement.
pub trait Database: Sized {
    /// The buffer that holds the serialized bound values, in bind order.
    type ArgumentBuffer<'a>;

    /// The bytes that `buf` holds.
    spec fn buffer_bytes<'a>(buf: &Self::ArgumentBuffer<'a>) -> Seq<u8>;

    /// The placeholder token of the bound value with the 1-based ordinal `index`.
    spec fn placeholder(index: nat) -> Seq<char>;

    /// Makes a buffer that holds no bytes.
    fn new_buffer<'a>() -> (buf: Self::ArgumentBuffer<'a>)
        ensures
            Self::buffer_bytes(&buf) == Seq::<u8>::empty(),
    ;

    /// Appends the placeholder token of `index` to `text`.
    fn write_placeholder(text: &mut String, index: u16)
        ensures
            final(text)@ == old(text)@ + Self::placeholder(index as nat),
    ;
}

} // verus!
