//! The `/users` endpoints: which statements a request runs, in order, and
//! what it answers.

use vstd::prelude::*;
use crate::session::{header_view, session_statements, session_statements_spec};
use crate::sql::{
    plain, plain_statement, statements_view, with_params, SqlParam, SqlParamView, SqlStatement,
    SqlStatementView,
};

verus! {

/// A row of the `users` table.
#[derive(Debug, PartialEq, Eq)]
pub struct User {
    pub id: i64,
    pub handle: String,
    pub email: Option<String>,
}

/// The body of an update request.
#[derive(Debug, PartialEq, Eq)]
pub struct UpdateUser {
    pub email: String,
}

/// HTTP 200.
pub const STATUS_OK: u16 = 200;

/// HTTP 500.
pub const STATUS_INTERNAL_SERVER_ERROR: u16 = 500;

/// The statement that lists the users the session may see.
pub open spec fn select_users_spec() -> SqlStatementView {
    plain_statement("select * from users"@)
}

/// The statement that sets a user's email, returning the rows it changed.
pub open spec fn update_user_spec(user_id: i64, email: Seq<char>) -> SqlStatementView {
    SqlStatementView {
        sql: "update users set email=$1 where id=$2 returning *"@,
        params: seq![SqlParamView::Text(email), SqlParamView::BigInt(user_id)],
    }
}

/// The listing binds nothing; the update binds the new email to `$1` and
/// the user id to `$2`, the order its text uses them in, whatever the values.
pub proof fn law_update_binds_email_then_id(user_id: i64, email: Seq<char>)
    ensures
        select_users_spec().params.len() == 0,
        select_users_spec().sql == "select * from users"@,
        update_user_spec(user_id, email).sql == "update users set email=$1 where id=$2 returning *"@,
        update_user_spec(user_id, email).params.len() == 2,
        update_user_spec(user_id, email).params[0] == SqlParamView::Text(email),
        update_user_spec(user_id, email).params[1] == SqlParamView::BigInt(user_id),
{
}

/// Builds the statement that lists the users the session may see.
pub fn select_users_statement() -> (stmt: SqlStatement)
    ensures
        stmt@ == select_users_spec(),
{
    plain("select * from users")
}

/// Builds the statement that sets the email of user `user_id`.
pub fn update_user_statement(user_id: i64, body: UpdateUser) -> (stmt: SqlStatement)
    ensures
        stmt@ == update_user_spec(user_id, body.email@),
{
    with_params(
        "update users set email=$1 where id=$2 returning *",
        SqlParam::Text(body.email),
        SqlParam::BigInt(user_id),
    )
}

/// `GET /users`: the session statements for the `user` header, then the
/// listing, all in one transaction.
pub fn get_users_plan(user: Option<&str>) -> (stmts: Vec<SqlStatement>)
    ensures
        statements_view(stmts@) == session_statements_spec(header_view(user)).push(
            select_users_spec(),
        ),
{
    let mut stmts = session_statements(user);
    let ghost before = stmts@;
    stmts.push(select_users_statement());
    assert(statements_view(stmts@) =~= statements_view(before).push(select_users_spec()));
    stmts
}

/// `POST /users/:user_id`: the session statements for the `user` header,
/// then the update, all in one transaction.
pub fn update_user_plan(user: Option<&str>, user_id: i64, body: UpdateUser) -> (stmts: Vec<
    SqlStatement,
>)
    ensures
        statements_view(stmts@) == session_statements_spec(header_view(user)).push(
            update_user_spec(user_id, body.email@),
        ),
{
    let ghost email = body.email@;
    let mut stmts = session_statements(user);
    let ghost before = stmts@;
    stmts.push(update_user_statement(user_id, body));
    assert(statements_view(stmts@) =~= statements_view(before).push(
        update_user_spec(user_id, email),
    ));
    stmts
}

/// What a `/users` endpoint answers, a status and the rows as JSON, and
/// whether its transaction is committed before the answer goes out.
#[derive(Debug, PartialEq, Eq)]
pub struct UsersResponse {
    pub status: u16,
    pub users: Vec<User>,
    pub commit: bool,
}

/// Answers `GET /users` from the result of the listing: the rows it
/// returned with status 200, or, when it failed, status 500 and an empty
/// list. A listing changes nothing, so its transaction is not committed.
pub fn users_response(fetched: Option<Vec<User>>) -> (resp: UsersResponse)
    ensures
        fetched is Some ==> resp.status == STATUS_OK && resp.users@ == fetched->0@,
        fetched is None ==> resp.status == STATUS_INTERNAL_SERVER_ERROR && resp.users@.len() == 0,
        !resp.commit,
{
    match fetched {
        Some(users) => UsersResponse { status: STATUS_OK, users, commit: false },
        None => UsersResponse {
            status: STATUS_INTERNAL_SERVER_ERROR,
            users: Vec::new(),
            commit: false,
        },
    }
}

/// Answers `POST /users/:user_id` from the result of the update: the rows
/// it changed with status 200, and the transaction is committed so that the
/// new email is kept; or, when the update failed, status 500, an empty list,
/// and nothing is committed.
pub fn update_user_response(updated: Option<Vec<User>>) -> (resp: UsersResponse)
    ensures
        updated is Some ==> resp.status == STATUS_OK && resp.users@ == updated->0@ && resp.commit,
        updated is None ==> resp.status == STATUS_INTERNAL_SERVER_ERROR && resp.users@.len() == 0
            && !resp.commit,
{
    match updated {
        Some(users) => UsersResponse { status: STATUS_OK, users, commit: true },
        None => UsersResponse {
            status: STATUS_INTERNAL_SERVER_ERROR,
            users: Vec::new(),
            commit: false,
        },
    }
}

} // verus!
