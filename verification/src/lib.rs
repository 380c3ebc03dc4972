//! A builder for parameterized SQL queries.
//!
//! A [`QueryBuilder`] accumulates the text of a statement together with the
//! serialized values that are bound to it. Raw SQL is appended with
//! [`QueryBuilder::push`]; a value is bound with [`QueryBuilder::push_bind`],
//! which serializes the value into the argument buffer of the backend and
//! leaves a numbered placeholder in the text. [`QueryBuilder::build`] hands
//! the text and the buffer over as a [`Query`].
//!
//! Every operation is specified over [`BuilderState`], the mathematical view
//! of a builder, and the module [`script`] proves what sequences of
//! operations add up to.

pub mod database;
pub mod decimal;
pub mod encode;
pub mod error;
pub mod postgres;
pub mod query;
pub mod query_builder;
pub mod script;
pub mod state;

pub use database::Database;
pub use encode::Encode;
pub use error::BindError;
pub use postgres::Postgres;
pub use query::Query;
pub use query_builder::QueryBuilder;
pub use state::BuilderState;
