//! Composition of PostgreSQL `ON CONFLICT` clauses onto row inserts.
//!
//! A conflict target and a conflict action are built and validated on their
//! own, paired into a clause, and the clause decorates a row source before
//! the row source is handed to an insert statement. Every composition error
//! is reported before any SQL is produced.
pub mod error;
pub mod column;
pub mod sql;
pub mod target;
pub mod action;
pub mod clause;
pub mod values;
pub mod extension;
pub mod statement;
pub mod laws;
