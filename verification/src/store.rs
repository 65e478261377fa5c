//! The persistent project store.
//!
//! The store is a relational database file holding project records and
//! per-project file snapshots. The schema is part of the persisted
//! contract, so the DDL is fixed by contract in [`schema_statements`].
//! [`init_db`] opens (creating if absent) the store at a path and runs
//! that DDL so both tables exist; it is safe to call on an
//! already-initialized store and never drops or alters existing data,
//! since each table is created only if it is absent. The storage
//! engine itself is an outside library reached through the trusted
//! items below.

use crate::errors::CommandError;
use vstd::prelude::*;
use vstd::string::StringExecFns;

verus! {

#[verifier::external_type_specification]
#[verifier::external_body]
pub struct ExConnection(rusqlite::Connection);

#[verifier::external_type_specification]
#[verifier::external_body]
pub struct ExSqlError(rusqlite::Error);

/// The statement that creates the projects table: stable identifier,
/// name, and creation timestamp.
pub open spec fn projects_table_sql() -> Seq<char> {
    "CREATE TABLE IF NOT EXISTS projects (\n      id TEXT PRIMARY KEY,\n      name TEXT NOT NULL,\n      created_at INTEGER NOT NULL\n    )"@
}

/// The statement that creates the files table: per-project file
/// snapshots, referencing a project by its identifier.
pub open spec fn files_table_sql() -> Seq<char> {
    "CREATE TABLE IF NOT EXISTS files (\n      id TEXT PRIMARY KEY,\n      project_id TEXT,\n      path TEXT NOT NULL,\n      content TEXT,\n      FOREIGN KEY (project_id) REFERENCES projects (id)\n    )"@
}

/// The schema DDL that [`init_db`] runs, in order: the projects table
/// first, then the files table that references it. Each statement
/// creates its table only if it is absent, so running them again
/// neither fails nor touches existing data.
pub fn schema_statements() -> (r: Vec<String>)
    ensures
        r@.len() == 2,
        r@[0]@ == projects_table_sql(),
        r@[1]@ == files_table_sql(),
{
    let mut statements: Vec<String> = Vec::new();
    statements.push(
        String::from_str(
            "CREATE TABLE IF NOT EXISTS projects (\n      id TEXT PRIMARY KEY,\n      name TEXT NOT NULL,\n      created_at INTEGER NOT NULL\n    )",
        ),
    );
    statements.push(
        String::from_str(
            "CREATE TABLE IF NOT EXISTS files (\n      id TEXT PRIMARY KEY,\n      project_id TEXT,\n      path TEXT NOT NULL,\n      content TEXT,\n      FOREIGN KEY (project_id) REFERENCES projects (id)\n    )",
        ),
    );
    statements
}

/// Relies on rusqlite::Connection::open: opens the database file at
/// the path, creating it when absent.
#[verifier::external_body]
fn open_store(path: &str) -> Result<rusqlite::Connection, rusqlite::Error> {
    rusqlite::Connection::open(path)
}

/// Relies on rusqlite::Connection::execute: runs one SQL statement
/// without parameters.
#[verifier::external_body]
fn run_statement(conn: &rusqlite::Connection, sql: &str) -> Result<usize, rusqlite::Error> {
    conn.execute(sql, [])
}

/// Relies on rusqlite::Error's Display implementation for the message
/// text of a storage failure.
#[verifier::external_body]
fn sql_error_text(e: &rusqlite::Error) -> String {
    e.to_string()
}

/// Opens (creating if absent) the store at `path` and runs the fixed
/// schema DDL of [`schema_statements`], in order, so that the two
/// tables exist: projects, and files referencing a project. Safe to
/// call again on the same path: each table is created only if absent,
/// and existing rows are never touched. Whether the engine succeeds is
/// decided on disk; every failure surfaces as a store error.
pub fn init_db(path: &str) -> (r: Result<(), CommandError>)
    ensures
        r matches Err(e) ==> e matches CommandError::StoreError(_),
{
    let conn = match open_store(path) {
        Result::Ok(c) => c,
        Result::Err(e) => {
            return Result::Err(CommandError::StoreError(sql_error_text(&e)));
        },
    };
    let statements = schema_statements();
    let n = statements.len();
    for i in 0..n
        invariant
            n == statements@.len(),
    {
        match run_statement(&conn, statements[i].as_str()) {
            Result::Ok(_) => (),
            Result::Err(e) => {
                return Result::Err(CommandError::StoreError(sql_error_text(&e)));
            },
        }
    }
    Result::Ok(())
}

} // verus!
