//! Core of a single-endpoint SQL query service: the statements that stage a
//! client's query in a transaction-scoped relation, the reading of the staged
//! relation's columns and rows as text, and the per-request state machine that
//! maps every database outcome to a reply.
pub mod handler;
pub mod response;
pub mod results;
pub mod statements;
pub mod timestamp;
