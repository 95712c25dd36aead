//! The SQL texts that a request runs, in order: the metadata read, the
//! transaction bracket, the staging statement and the two introspection reads.
use vstd::prelude::*;
use vstd::string::StringExecFns;

verus! {

pub open spec fn metadata_sql() -> Seq<char> {
    "SELECT last_updated FROM metadata"@
}

pub open spec fn begin_sql() -> Seq<char> {
    "BEGIN"@
}

pub open spec fn commit_sql() -> Seq<char> {
    "COMMIT"@
}

pub open spec fn rollback_sql() -> Seq<char> {
    "ROLLBACK"@
}

/// The fixed head of the staging statement: a temporary relation that the
/// engine drops when the enclosing transaction ends, filled with the result
/// of the statement that follows.
pub open spec fn staging_prefix() -> Seq<char> {
    "CREATE TEMPORARY TABLE staged_result ON COMMIT DROP AS "@
}

/// The live attributes of the staged relation, by ordinal position.
pub open spec fn columns_sql() -> Seq<char> {
    "SELECT attname FROM pg_attribute WHERE attrelid = 'staged_result'::regclass AND attnum > 0 AND NOT attisdropped ORDER BY attnum"@
}

pub open spec fn rows_sql() -> Seq<char> {
    "SELECT * FROM staged_result"@
}

pub fn metadata_statement() -> (r: String)
    ensures
        r@ == metadata_sql(),
{
    String::from_str("SELECT last_updated FROM metadata")
}

pub fn begin_statement() -> (r: String)
    ensures
        r@ == begin_sql(),
{
    String::from_str("BEGIN")
}

pub fn commit_statement() -> (r: String)
    ensures
        r@ == commit_sql(),
{
    String::from_str("COMMIT")
}

pub fn rollback_statement() -> (r: String)
    ensures
        r@ == rollback_sql(),
{
    String::from_str("ROLLBACK")
}

/// The client's statement, verbatim, behind the staging prefix.
pub fn staging_statement(query: &str) -> (r: String)
    ensures
        r@ == staging_prefix() + query@,
{
    let head = String::from_str("CREATE TEMPORARY TABLE staged_result ON COMMIT DROP AS ");
    head.concat(query)
}

pub fn columns_statement() -> (r: String)
    ensures
        r@ == columns_sql(),
{
    String::from_str(
        "SELECT attname FROM pg_attribute WHERE attrelid = 'staged_result'::regclass AND attnum > 0 AND NOT attisdropped ORDER BY attnum",
    )
}

pub fn rows_statement() -> (r: String)
    ensures
        r@ == rows_sql(),
{
    String::from_str("SELECT * FROM staged_result")
}

} // verus!
