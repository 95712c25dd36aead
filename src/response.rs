//! What a request ends in.
use vstd::prelude::*;

verus! {

/// The JSON body of a 200 reply.
#[derive(Clone, Debug, PartialEq, Eq)]
pub enum Response {
    Success { last_updated: String, column_names: Vec<String>, rows: Vec<Vec<String>> },
    Error(String),
}

/// A reply that the endpoint sends: `Unavailable` is a 503 with an empty
/// body, `Body` a 200 with the response as JSON.
#[derive(Clone, Debug, PartialEq, Eq)]
pub enum Reply {
    Unavailable,
    Body(Response),
}

/// An infrastructure failure, sent as a server error.
#[derive(Clone, Debug, PartialEq, Eq)]
pub enum Fault {
    /// The metadata read failed, with the database's message.
    Metadata(String),
    /// The metadata timestamp has no calendar form.
    Timestamp,
    /// Opening, committing or rolling back the transaction failed.
    Transaction(String),
    /// The catalog listed an unnamed attribute, or a row's width differed
    /// from the number of columns.
    Introspection,
    /// A database outcome arrived that the pending action does not produce.
    UnexpectedEvent,
}

} // verus!
