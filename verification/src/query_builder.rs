//! The query builder.

use vstd::prelude::*;
use either::Either;
use std::marker::PhantomData;
use crate::database::Database;
use crate::encode::Encode;
use crate::error::BindError;
use crate::query::Query;
use crate::state::BuilderState;
use crate::state::MAX_PLACEHOLDERS;

verus! {

/// Assembles the text of a statement and the buffer of its bound values.
pub struct QueryBuilder<'a, DB: Database> {
    query: String,
    buf: Option<DB::ArgumentBuffer<'a>>,
    variable_count: u16,
}

impl<'a, DB: Database> View for QueryBuilder<'a, DB> {
    type V = BuilderState;

    open spec fn view(&self) -> BuilderState {
        BuilderState {
            text: self.text(),
            arguments: match self.buffer() {
                Some(buf) => Some(DB::buffer_bytes(&buf)),
                None => None,
            },
            placeholders: self.placeholders(),
        }
    }
}

impl<'a, DB: Database> QueryBuilder<'a, DB> {
    /// The text assembled so far.
    pub closed spec fn text(&self) -> Seq<char> {
        self.query@
    }

    /// The argument buffer, while the builder owns it.
    pub closed spec fn buffer(&self) -> Option<DB::ArgumentBuffer<'a>> {
        self.buf
    }

    /// The number of values bound so far.
    pub closed spec fn placeholders(&self) -> nat {
        self.variable_count as nat
    }

    /// The counter of a builder never exceeds what it can hold.
    pub proof fn placeholders_bounded(&self)
        ensures
            self.placeholders() <= MAX_PLACEHOLDERS,
    {
    }

    /// Starts a statement with the text `init`, an empty argument buffer and
    /// no value bound.
    pub fn new(init: &str) -> (builder: Self)
        ensures
            builder@ == BuilderState::initial(init@),
    {
        QueryBuilder { query: init.to_owned(), buf: Some(DB::new_buffer()), variable_count: 0 }
    }

    /// Appends one space and then `sql` to the text. The text is taken as it
    /// is; buffer and counter are not touched, so this is possible in every
    /// state of the builder.
    pub fn push(&mut self, sql: &str) -> (ret: &mut Self)
        ensures
            ret@ == old(self)@.push(sql@),
            ret.buffer() == old(self).buffer(),
            *final(self) == *final(ret),
    {
        proof {
            reveal_strlit(" ");
            assert(" "@ =~= seq![' ']);
        }
        self.query.append(" ");
        self.query.append(sql);
        self
    }

    /// Binds `value`: serializes it into the argument buffer and appends the
    /// placeholder of its ordinal to the text.
    ///
    /// The builder must still own its buffer, and its counter must have room
    /// for one more. [`QueryBuilder::try_push_bind`] tests both.
    pub fn push_bind<T: Encode<'a, DB>>(&mut self, value: T) -> (ret: &mut Self)
        requires
            old(self)@.live(),
            old(self)@.placeholders < MAX_PLACEHOLDERS,
        ensures
            ret@ == old(self)@.bind::<DB>(value.encoding()),
            *final(self) == *final(ret),
    {
        let buf = self.buf.as_mut().expect("Arguments taken already");
        value.encode(buf);
        self.variable_count += 1;
        DB::write_placeholder(&mut self.query, self.variable_count);
        self
    }

    /// Binds `value` if the builder is in a state to do so, and says why not
    /// otherwise. A refused bind leaves the builder as it was.
    pub fn try_push_bind<T: Encode<'a, DB>>(&mut self, value: T) -> (outcome: Result<(), BindError>)
        ensures
            outcome == old(self)@.bind_outcome(),
            outcome is Ok ==> final(self)@ == old(self)@.bind::<DB>(value.encoding()),
            outcome is Err ==> *final(self) == *old(self),
    {
        if self.buf.is_none() {
            return Err(BindError::ArgumentsTaken);
        }
        if self.variable_count == MAX_PLACEHOLDERS {
            return Err(BindError::TooManyArguments);
        }
        self.push_bind(value);
        Ok(())
    }

    /// Hands the assembled statement over as a query and gives up the
    /// argument buffer.
    ///
    /// The query borrows the text and receives the buffer itself. The builder
    /// keeps its text and its counter, and is left without a buffer. Where
    /// the buffer has been taken before, the query has no arguments.
    pub fn build(&mut self) -> (query: Query<'_, DB, DB::ArgumentBuffer<'a>>)
        ensures
            query.statement matches Either::Left(text) && text@ == old(self)@.text,
            query.arguments == old(self).buffer(),
            query.persistent,
            final(self)@ == old(self)@.taken(),
    {
        let arguments = self.buf.take();
        Query {
            statement: Either::Left(self.query.as_str()),
            arguments,
            database: PhantomData,
            persistent: true,
        }
    }

    /// The text assembled so far.
    pub fn sql(&self) -> (text: &str)
        ensures
            text@ == self@.text,
    {
        self.query.as_str()
    }

    /// The argument buffer, while the builder owns it.
    pub fn arguments(&self) -> (buf: Option<&DB::ArgumentBuffer<'a>>)
        ensures
            buf is Some <==> self@.live(),
            buf matches Some(held) ==> self.buffer() == Some(*held),
    {
        self.buf.as_ref()
    }

    /// The number of values bound so far.
    pub fn placeholder_count(&self) -> (count: u16)
        ensures
            count == self@.placeholders,
    {
        self.variable_count
    }
}

} // verus!
