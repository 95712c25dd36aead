//! The per-request state machine. The caller owns the connection: it performs
//! each action the handler hands out and feeds the outcome back, until the
//! handler answers with a reply or a fault.
use vstd::prelude::*;
use crate::response::{Fault, Reply, Response};
use crate::results::{
    column_names,
    is_rectangular,
    names_of,
    names_present,
    read_rows,
    rectangular,
    rows_of,
    strings_view,
    table_view,
    QueryMessage,
};
use crate::statements::{
    begin_sql,
    begin_statement,
    columns_sql,
    columns_statement,
    commit_sql,
    commit_statement,
    metadata_sql,
    metadata_statement,
    rollback_sql,
    rollback_statement,
    rows_sql,
    rows_statement,
    staging_prefix,
    staging_statement,
};
use crate::timestamp::Timestamp;

verus! {

/// Why a transaction is being rolled back, and so what follows the rollback.
#[derive(Clone, Debug, PartialEq, Eq)]
pub enum Ending {
    /// The client's statement, or a read of its result, failed with this
    /// message: the reply carries it.
    Statement(String),
    /// An infrastructure failure to report once the transaction is closed.
    Fault(Fault),
}

/// Where a request stands: the outcome it awaits next.
#[derive(Clone, Debug, PartialEq, Eq)]
pub enum Stage {
    Metadata,
    Begin,
    Staging,
    Columns,
    Rows,
    Commit,
    Rollback(Ending),
    Done,
}

/// What the caller does next on the request's connection.
#[derive(Debug, PartialEq, Eq)]
pub enum Action {
    /// Run this read and report the first row's timestamp, if any row came.
    ReadMetadata(String),
    /// Run these statements and report whether they succeeded.
    Execute(String),
    /// Run this query and report its messages, values in text form.
    Fetch(String),
    /// Send this reply; the request is over.
    Respond(Reply),
    /// Send a server error; the request is over.
    Fail(Fault),
}

pub struct Handler {
    query: String,
    stage: Stage,
    last_updated: String,
    column_names: Vec<String>,
    rows: Vec<Vec<String>>,
}

pub open spec fn is_execute(a: Action, sql: Seq<char>) -> bool {
    a matches Action::Execute(s) && s@ == sql
}

pub open spec fn is_fetch(a: Action, sql: Seq<char>) -> bool {
    a matches Action::Fetch(s) && s@ == sql
}

pub open spec fn replies_error(a: Action, msg: Seq<char>) -> bool {
    a matches Action::Respond(Reply::Body(Response::Error(m))) && m@ == msg
}

pub open spec fn replies_success(
    a: Action,
    stamp: Seq<char>,
    names: Seq<Seq<char>>,
    table: Seq<Seq<Seq<char>>>,
) -> bool {
    a matches Action::Respond(Reply::Body(Response::Success { last_updated, column_names, rows }))
        && last_updated@ == stamp && strings_view(column_names@) == names && table_view(rows@)
        == table
}

/// Whether a success reply, if `a` is one, has one cell per column in every row.
pub open spec fn well_shaped(a: Action) -> bool {
    a matches Action::Respond(Reply::Body(Response::Success { column_names, rows, .. }))
        ==> rectangular(column_names@.len() as int, table_view(rows@))
}

/// Whether the request holds an open transaction that nobody is closing yet.
pub open spec fn holds_transaction(s: Stage) -> bool {
    s is Staging || s is Columns || s is Rows
}

/// Whether the action ends the request.
pub open spec fn ends(a: Action) -> bool {
    a is Respond || a is Fail
}

/// The answer to an outcome that the awaited action cannot produce: an open
/// transaction is rolled back first, otherwise the request fails at once.
pub open spec fn rejects(before: Stage, after: Stage, a: Action) -> bool {
    if holds_transaction(before) {
        after == Stage::Rollback(Ending::Fault(Fault::UnexpectedEvent)) && is_execute(
            a,
            rollback_sql(),
        )
    } else {
        after == Stage::Done && a == Action::Fail(Fault::UnexpectedEvent)
    }
}

impl Handler {
    #[verifier::type_invariant]
    spec fn inv(&self) -> bool {
        self.stage is Commit ==> rectangular(
            self.column_names@.len() as int,
            table_view(self.rows@),
        )
    }

    pub closed spec fn phase(&self) -> Stage {
        self.stage
    }

    pub closed spec fn query_text(&self) -> Seq<char> {
        self.query@
    }

    pub closed spec fn stamp(&self) -> Seq<char> {
        self.last_updated@
    }

    pub closed spec fn names(&self) -> Seq<Seq<char>> {
        strings_view(self.column_names@)
    }

    pub closed spec fn table(&self) -> Seq<Seq<Seq<char>>> {
        table_view(self.rows@)
    }

    /// A request for the client's statement `query`, and its first action:
    /// the metadata read.
    pub fn new(query: String) -> (r: (Handler, Action))
        ensures
            r.0.phase() == Stage::Metadata,
            r.0.query_text() == query@,
            r.1 matches Action::ReadMetadata(s) && s@ == metadata_sql(),
    {
        let h = Handler {
            query,
            stage: Stage::Metadata,
            last_updated: String::new(),
            column_names: Vec::new(),
            rows: Vec::new(),
        };
        (h, Action::ReadMetadata(metadata_statement()))
    }

    fn reject(&mut self) -> (a: Action)
        ensures
            rejects(old(self).phase(), final(self).phase(), a),
            final(self).query_text() == old(self).query_text(),
            final(self).stamp() == old(self).stamp(),
    {
        let open = match &self.stage {
            Stage::Staging | Stage::Columns | Stage::Rows => true,
            _ => false,
        };
        if open {
            self.stage = Stage::Rollback(Ending::Fault(Fault::UnexpectedEvent));
            Action::Execute(rollback_statement())
        } else {
            self.stage = Stage::Done;
            Action::Fail(Fault::UnexpectedEvent)
        }
    }

    /// Takes the outcome of the metadata read: its failure is a fault, an
    /// empty relation a 503 whatever the query, and a timestamp opens the
    /// transaction.
    pub fn on_metadata(&mut self, result: Result<Option<Timestamp>, String>) -> (a: Action)
        ensures
            old(self).phase() is Metadata ==> match result {
                Err(e) => final(self).phase() == Stage::Done && a == Action::Fail(
                    Fault::Metadata(e),
                ),
                Ok(None) => final(self).phase() == Stage::Done && a == Action::Respond(
                    Reply::Unavailable,
                ),
                Ok(Some(t)) => match t.rfc3339() {
                    None => final(self).phase() == Stage::Done && a == Action::Fail(
                        Fault::Timestamp,
                    ),
                    Some(s) => final(self).phase() == Stage::Begin && final(self).stamp() == s
                        && is_execute(a, begin_sql()),
                },
            },
            !(old(self).phase() is Metadata) ==> rejects(old(self).phase(), final(self).phase(), a)
                && final(self).stamp() == old(self).stamp(),
            final(self).query_text() == old(self).query_text(),
            ends(a) ==> !holds_transaction(old(self).phase()),
            well_shaped(a),
    {
        proof {
            use_type_invariant(&*self);
        }
        let awaited = match &self.stage {
            Stage::Metadata => true,
            _ => false,
        };
        if !awaited {
            return self.reject();
        }
        match result {
            Err(e) => {
                self.stage = Stage::Done;
                Action::Fail(Fault::Metadata(e))
            },
            Ok(None) => {
                self.stage = Stage::Done;
                Action::Respond(Reply::Unavailable)
            },
            Ok(Some(t)) => match t.to_rfc3339() {
                None => {
                    self.stage = Stage::Done;
                    Action::Fail(Fault::Timestamp)
                },
                Some(s) => {
                    self.last_updated = s;
                    self.stage = Stage::Begin;
                    Action::Execute(begin_statement())
                },
            },
        }
    }

    /// Takes the outcome of an `Execute`: the transaction's opening, the
    /// staging statement, the commit or the rollback.
    pub fn on_executed(&mut self, result: Result<(), String>) -> (a: Action)
        ensures
            old(self).phase() is Begin ==> match result {
                Err(e) => final(self).phase() == Stage::Done && a == Action::Fail(
                    Fault::Transaction(e),
                ),
                Ok(_) => final(self).phase() == Stage::Staging && is_execute(
                    a,
                    staging_prefix() + old(self).query_text(),
                ),
            },
            old(self).phase() is Staging ==> match result {
                Err(e) => final(self).phase() == Stage::Rollback(Ending::Statement(e))
                    && is_execute(a, rollback_sql()),
                Ok(_) => final(self).phase() == Stage::Columns && is_fetch(a, columns_sql()),
            },
            old(self).phase() is Commit ==> final(self).phase() == Stage::Done && match result {
                Err(e) => a == Action::Fail(Fault::Transaction(e)),
                Ok(_) => replies_success(
                    a,
                    old(self).stamp(),
                    old(self).names(),
                    old(self).table(),
                ),
            },
            old(self).phase() matches Stage::Rollback(ending) ==> final(self).phase()
                == Stage::Done && match result {
                Err(e) => a == Action::Fail(Fault::Transaction(e)),
                Ok(_) => match ending {
                    Ending::Statement(m) => replies_error(a, m@),
                    Ending::Fault(f) => a == Action::Fail(f),
                },
            },
            old(self).phase() is Metadata || old(self).phase() is Columns || old(self).phase() is Rows
                || old(self).phase() is Done ==> rejects(old(self).phase(), final(self).phase(), a),
            final(self).query_text() == old(self).query_text(),
            final(self).stamp() == old(self).stamp(),
            ends(a) ==> !holds_transaction(old(self).phase()),
            well_shaped(a),
    {
        proof {
            use_type_invariant(&*self);
        }
        let mut stage = Stage::Done;
        std::mem::swap(&mut stage, &mut self.stage);
        match stage {
            Stage::Begin => match result {
                Err(e) => Action::Fail(Fault::Transaction(e)),
                Ok(()) => {
                    self.stage = Stage::Staging;
                    Action::Execute(staging_statement(self.query.as_str()))
                },
            },
            Stage::Staging => match result {
                Err(e) => {
                    self.stage = Stage::Rollback(Ending::Statement(e));
                    Action::Execute(rollback_statement())
                },
                Ok(()) => {
                    self.stage = Stage::Columns;
                    Action::Fetch(columns_statement())
                },
            },
            Stage::Commit => match result {
                Err(e) => Action::Fail(Fault::Transaction(e)),
                Ok(()) => {
                    let mut names: Vec<String> = Vec::new();
                    std::mem::swap(&mut names, &mut self.column_names);
                    let mut rows: Vec<Vec<String>> = Vec::new();
                    std::mem::swap(&mut rows, &mut self.rows);
                    Action::Respond(
                        Reply::Body(
                            Response::Success {
                                last_updated: self.last_updated.clone(),
                                column_names: names,
                                rows,
                            },
                        ),
                    )
                },
            },
            Stage::Rollback(ending) => match result {
                Err(e) => Action::Fail(Fault::Transaction(e)),
                Ok(()) => match ending {
                    Ending::Statement(m) => Action::Respond(Reply::Body(Response::Error(m))),
                    Ending::Fault(f) => Action::Fail(f),
                },
            },
            other => {
                self.stage = other;
                self.reject()
            },
        }
    }

    /// Takes the outcome of a `Fetch`: the catalog's list of the staged
    /// relation's attributes, or the staged rows.
    pub fn on_fetched(&mut self, result: Result<Vec<QueryMessage>, String>) -> (a: Action)
        ensures
            old(self).phase() is Columns ==> match result {
                Err(e) => final(self).phase() == Stage::Rollback(Ending::Statement(e))
                    && is_execute(a, rollback_sql()),
                Ok(msgs) => if names_present(msgs@) {
                    final(self).phase() == Stage::Rows && final(self).names() == names_of(msgs@)
                        && is_fetch(a, rows_sql())
                } else {
                    final(self).phase() == Stage::Rollback(Ending::Fault(Fault::Introspection))
                        && is_execute(a, rollback_sql())
                },
            },
            old(self).phase() is Rows ==> match result {
                Err(e) => final(self).phase() == Stage::Rollback(Ending::Statement(e))
                    && is_execute(a, rollback_sql()),
                Ok(msgs) => if rectangular(old(self).names().len() as int, rows_of(msgs@)) {
                    final(self).phase() == Stage::Commit && final(self).names() == old(
                        self,
                    ).names() && final(self).table() == rows_of(msgs@) && is_execute(
                        a,
                        commit_sql(),
                    )
                } else {
                    final(self).phase() == Stage::Rollback(Ending::Fault(Fault::Introspection))
                        && is_execute(a, rollback_sql())
                },
            },
            !(old(self).phase() is Columns || old(self).phase() is Rows) ==> rejects(
                old(self).phase(),
                final(self).phase(),
                a,
            ),
            final(self).query_text() == old(self).query_text(),
            final(self).stamp() == old(self).stamp(),
            ends(a) ==> !holds_transaction(old(self).phase()),
            well_shaped(a),
    {
        proof {
            use_type_invariant(&*self);
        }
        let mut stage = Stage::Done;
        std::mem::swap(&mut stage, &mut self.stage);
        match stage {
            Stage::Columns => match result {
                Err(e) => {
                    self.stage = Stage::Rollback(Ending::Statement(e));
                    Action::Execute(rollback_statement())
                },
                Ok(msgs) => match column_names(&msgs) {
                    None => {
                        self.stage = Stage::Rollback(Ending::Fault(Fault::Introspection));
                        Action::Execute(rollback_statement())
                    },
                    Some(names) => {
                        self.column_names = names;
                        self.stage = Stage::Rows;
                        Action::Fetch(rows_statement())
                    },
                },
            },
            Stage::Rows => match result {
                Err(e) => {
                    self.stage = Stage::Rollback(Ending::Statement(e));
                    Action::Execute(rollback_statement())
                },
                Ok(msgs) => {
                    let rows = read_rows(&msgs);
                    if is_rectangular(self.column_names.len(), &rows) {
                        self.rows = rows;
                        self.stage = Stage::Commit;
                        Action::Execute(commit_statement())
                    } else {
                        self.stage = Stage::Rollback(Ending::Fault(Fault::Introspection));
                        Action::Execute(rollback_statement())
                    }
                },
            },
            other => {
                self.stage = other;
                self.reject()
            },
        }
    }
}

} // verus!
