//! The mapping table in SQLite: one statement per operation.
use vstd::prelude::*;
use rusqlite::OptionalExtension;
use crate::errors::{AppError, ErrorKind};
use crate::ident::{generate_id, is_identifier};
use crate::store::{AnswerModel, OpModel, StoreAnswer, StoreOp};

verus! {

#[verifier::external_type_specification]
#[verifier::external_body]
pub struct ExConnection(rusqlite::Connection);

#[verifier::external_type_specification]
#[verifier::external_body]
pub struct ExSqlError(rusqlite::Error);

pub const CREATE_TABLE: &'static str = "create table if not exists urls (id text primary key, url text not null unique, hits bigint default 0)";

pub const SELECT_URL: &'static str = "select url from urls where id = ? limit 1";

pub const SELECT_ID: &'static str = "select id from urls where url = ? limit 1";

pub const INSERT_MAPPING: &'static str = "insert into urls (id, url) values (?, ?)";

pub const ADD_HIT: &'static str = "update urls set hits = hits + 1 where id = ?";

/// The statement that carries out an operation: its SQL text and its
/// parameters, in order.
pub open spec fn statement_of(op: OpModel) -> (Seq<char>, Seq<Seq<char>>) {
    match op {
        OpModel::FindUrl(id) => (SELECT_URL@, seq![id]),
        OpModel::FindId(url) => (SELECT_ID@, seq![url]),
        OpModel::Insert(id, url) => (INSERT_MAPPING@, seq![id, url]),
        OpModel::AddHit(id) => (ADD_HIT@, seq![id]),
    }
}

/// The views of a list of parameters.
pub open spec fn params_view(v: Seq<String>) -> Seq<Seq<char>> {
    v.map_values(|p: String| p@)
}

/// Builds the statement that carries out `op`.
pub fn statement(op: &StoreOp) -> (r: (&'static str, Vec<String>))
    ensures
        (r.0@, params_view(r.1@)) == statement_of(op@),
{
    let mut params: Vec<String> = Vec::new();
    match op {
        StoreOp::FindUrl(id) => {
            params.push(id.clone());
            proof {
                assert(params_view(params@) =~= seq![id@]);
            }
            (SELECT_URL, params)
        },
        StoreOp::FindId(url) => {
            params.push(url.clone());
            proof {
                assert(params_view(params@) =~= seq![url@]);
            }
            (SELECT_ID, params)
        },
        StoreOp::Insert(id, url) => {
            params.push(id.clone());
            params.push(url.clone());
            proof {
                assert(params_view(params@) =~= seq![id@, url@]);
            }
            (INSERT_MAPPING, params)
        },
        StoreOp::AddHit(id) => {
            params.push(id.clone());
            proof {
                assert(params_view(params@) =~= seq![id@]);
            }
            (ADD_HIT, params)
        },
    }
}

/// Relies on rusqlite's `Connection::execute`: runs one statement with the
/// given text parameters and gives the number of rows it changed, or the
/// engine's error. What it returns depends on the database.
#[verifier::external_body]
fn execute(conn: &rusqlite::Connection, sql: &str, params: &Vec<String>) -> (r: Result<usize, rusqlite::Error>) {
    conn.execute(sql, params)
}

/// Relies on rusqlite's `Connection::query_row` and `optional`: the text in
/// the first column of the first row that the query yields, `None` when it
/// yields no row, or the engine's error. What it returns depends on the
/// database.
#[verifier::external_body]
fn query_text(conn: &rusqlite::Connection, sql: &str, params: &Vec<String>) -> (r: Result<Option<String>, rusqlite::Error>) {
    conn.query_row(sql, params, |row| row.get(0)).optional()
}

/// The library's error for a failed statement, with the engine's message.
pub fn sql_error(e: rusqlite::Error) -> (r: AppError)
    ensures
        r is SqlError,
{
    AppError::SqlError(e.to_string())
}

/// Sends the statement of `op`, built by `statement`, to the database: a
/// lookup through `query_text`, a write through `execute`. A write gives
/// `None` when it goes through.
pub fn send(conn: &rusqlite::Connection, op: &StoreOp) -> (r: Result<Option<String>, AppError>)
    ensures
        r is Err ==> r->Err_0 is SqlError,
        (op@ is Insert || op@ is AddHit) && r is Ok ==> r->Ok_0 is None,
{
    let (sql, params) = statement(op);
    match op {
        StoreOp::FindUrl(_) | StoreOp::FindId(_) => match query_text(conn, sql, &params) {
            Ok(found) => Ok(found),
            Err(e) => Err(sql_error(e)),
        },
        StoreOp::Insert(_, _) | StoreOp::AddHit(_) => match execute(conn, sql, &params) {
            Ok(_) => Ok(None),
            Err(e) => Err(sql_error(e)),
        },
    }
}

/// Creates the mapping table unless it exists.
pub fn create_table(conn: &rusqlite::Connection) -> (r: Result<usize, AppError>)
    ensures
        r is Err ==> r->Err_0 is SqlError,
{
    let params: Vec<String> = Vec::new();
    match execute(conn, CREATE_TABLE, &params) {
        Ok(n) => Ok(n),
        Err(e) => Err(sql_error(e)),
    }
}

/// The URL stored under `id`, if any: sends the statement of
/// `FindUrl(id)`.
pub fn get_url_by_id(conn: &rusqlite::Connection, id: &str) -> (r: Result<Option<String>, AppError>)
    ensures
        r is Err ==> r->Err_0 is SqlError,
{
    send(conn, &StoreOp::FindUrl(id.to_owned()))
}

/// The identifier stored for `url`, if any: sends the statement of
/// `FindId(url)`.
pub fn get_id_by_url(conn: &rusqlite::Connection, url: &str) -> (r: Result<Option<String>, AppError>)
    ensures
        r is Err ==> r->Err_0 is SqlError,
{
    send(conn, &StoreOp::FindId(url.to_owned()))
}

/// Stores `url` under `id` by sending the statement of `Insert(id, url)`,
/// and gives back `id`; the table refuses a taken identifier or URL.
pub fn insert_mapping(conn: &rusqlite::Connection, id: String, url: &str) -> (r: Result<String, AppError>)
    ensures
        r is Ok ==> r->Ok_0@ == id@,
        r is Err ==> r->Err_0 is SqlError,
{
    match send(conn, &StoreOp::Insert(id.clone(), url.to_owned())) {
        Ok(_) => Ok(id),
        Err(e) => Err(e),
    }
}

/// Stores `url` under a freshly generated identifier and returns that
/// identifier. A collision with a stored identifier fails the insert; it
/// is not retried.
pub fn add_url(conn: &rusqlite::Connection, url: &str) -> (r: Result<String, AppError>)
    ensures
        r is Ok ==> is_identifier(r->Ok_0@),
        r is Err ==> r->Err_0 is SqlError,
{
    let id = generate_id();
    insert_mapping(conn, id, url)
}

/// Adds one to the hit counter of `id` by sending the statement of
/// `AddHit(id)`; an unknown identifier changes nothing and is no error.
pub fn add_url_hit(conn: &rusqlite::Connection, id: &str) -> (r: Result<(), AppError>)
    ensures
        r is Err ==> r->Err_0 is SqlError,
{
    match send(conn, &StoreOp::AddHit(id.to_owned())) {
        Ok(_) => Ok(()),
        Err(e) => Err(e),
    }
}

/// Whether an answer has the shape that a statement gives: a lookup
/// answers with what it found, a write with `Done`; either may fail with a
/// storage error.
pub open spec fn answers(op: OpModel, a: AnswerModel) -> bool {
    match a {
        AnswerModel::Found(_) => op is FindUrl || op is FindId,
        AnswerModel::Done => op is Insert || op is AddHit,
        AnswerModel::Failed(k) => k == ErrorKind::Sql,
    }
}

/// Runs one statement that a handler asked for: sends the statement of
/// `op` and shapes the answer.
pub fn run(conn: &rusqlite::Connection, op: StoreOp) -> (a: StoreAnswer)
    ensures
        answers(op@, a@),
{
    let r = send(conn, &op);
    match r {
        Ok(found) => match op {
            StoreOp::FindUrl(_) | StoreOp::FindId(_) => StoreAnswer::Found(found),
            _ => StoreAnswer::Done,
        },
        Err(e) => StoreAnswer::Failed(e),
    }
}

} // verus!
