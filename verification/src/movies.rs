//! The `/movies/:id` endpoint: the database builds the whole JSON document,
//! and the handler only chooses between that document and a failure.

use vstd::prelude::*;
use crate::sql::{with_param, SqlParam, SqlParamView, SqlStatement, SqlStatementView};
use crate::users::{STATUS_INTERNAL_SERVER_ERROR, STATUS_OK};

verus! {

/// What the endpoint answers: a status, a `Content-Type` and a body.
#[derive(Debug, PartialEq, Eq)]
pub struct MovieResponse {
    pub status: u16,
    pub content_type: String,
    pub body: String,
}

/// The movie query with the requested id bound to its only placeholder.
pub fn movie_statement(query: &str, id: i64) -> (stmt: SqlStatement)
    ensures
        stmt@ == (SqlStatementView { sql: query@, params: seq![SqlParamView::BigInt(id)] }),
{
    with_param(query, SqlParam::BigInt(id))
}

/// Answers from the JSON text of the fetched row: that text with status
/// 200, or, when the row could not be fetched, status 500 and the body
/// `boom`; either way the content type is `application/json`.
pub fn movie_response(data: Option<String>) -> (resp: MovieResponse)
    ensures
        resp.content_type@ == "application/json"@,
        data is Some ==> resp.status == STATUS_OK && resp.body@ == data->0@,
        data is None ==> resp.status == STATUS_INTERNAL_SERVER_ERROR && resp.body@ == "boom"@,
{
    let content_type = String::from_str("application/json");
    match data {
        Some(body) => MovieResponse { status: STATUS_OK, content_type, body },
        None => MovieResponse {
            status: STATUS_INTERNAL_SERVER_ERROR,
            content_type,
            body: String::from_str("boom"),
        },
    }
}

} // verus!
