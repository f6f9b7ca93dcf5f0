//! SQL statements as the library hands them to the database layer: the
//! statement text and the values bound to its `$n` placeholders.

use vstd::prelude::*;
use crate::time::Instant;

verus! {

/// A value bound to a placeholder.
#[derive(Debug, PartialEq, Eq)]
pub enum SqlParam {
    Text(String),
    BigInt(i64),
    Int(i32),
    /// A UUID, by its 128-bit value.
    Uuid(u128),
    /// A `timestamptz`.
    Timestamp(Instant),
    /// A JSON document, by its text.
    Json(String),
}

/// The abstract value of a bound value.
pub enum SqlParamView {
    Text(Seq<char>),
    BigInt(i64),
    Int(i32),
    Uuid(u128),
    Timestamp(Instant),
    Json(Seq<char>),
}

impl View for SqlParam {
    type V = SqlParamView;

    open spec fn view(&self) -> SqlParamView {
        match self {
            SqlParam::Text(s) => SqlParamView::Text(s@),
            SqlParam::BigInt(i) => SqlParamView::BigInt(*i),
            SqlParam::Int(i) => SqlParamView::Int(*i),
            SqlParam::Uuid(u) => SqlParamView::Uuid(*u),
            SqlParam::Timestamp(t) => SqlParamView::Timestamp(*t),
            SqlParam::Json(j) => SqlParamView::Json(j@),
        }
    }
}

/// A statement and the values bound to its placeholders, in order.
#[derive(Debug, PartialEq, Eq)]
pub struct SqlStatement {
    pub sql: String,
    pub params: Vec<SqlParam>,
}

/// The abstract value of a statement.
pub struct SqlStatementView {
    pub sql: Seq<char>,
    pub params: Seq<SqlParamView>,
}

impl View for SqlStatement {
    type V = SqlStatementView;

    open spec fn view(&self) -> SqlStatementView {
        SqlStatementView { sql: self.sql@, params: self.params@.map_values(|p: SqlParam| p@) }
    }
}

/// A statement with no bound values.
pub open spec fn plain_statement(sql: Seq<char>) -> SqlStatementView {
    SqlStatementView { sql, params: Seq::empty() }
}

/// The abstract value of a list of statements.
pub open spec fn statements_view(stmts: Seq<SqlStatement>) -> Seq<SqlStatementView> {
    stmts.map_values(|s: SqlStatement| s@)
}

/// The abstract values keep everything: a bound value keeps its kind and
/// its value, a statement its text and each bound value in order, and a list
/// of statements each statement in order.
pub proof fn law_views_keep_the_values(
    param: SqlParam,
    stmt: SqlStatement,
    stmts: Seq<SqlStatement>,
    sql: Seq<char>,
)
    ensures
        match param {
            SqlParam::Text(s) => param@ == SqlParamView::Text(s@),
            SqlParam::BigInt(i) => param@ == SqlParamView::BigInt(i),
            SqlParam::Int(i) => param@ == SqlParamView::Int(i),
            SqlParam::Uuid(u) => param@ == SqlParamView::Uuid(u),
            SqlParam::Timestamp(t) => param@ == SqlParamView::Timestamp(t),
            SqlParam::Json(j) => param@ == SqlParamView::Json(j@),
        },
        stmt@.sql == stmt.sql@,
        stmt@.params.len() == stmt.params@.len(),
        forall|i: int| 0 <= i < stmt.params@.len() ==> #[trigger] stmt@.params[i] == stmt.params@[i]@,
        statements_view(stmts).len() == stmts.len(),
        forall|i: int| 0 <= i < stmts.len() ==> #[trigger] statements_view(stmts)[i] == stmts[i]@,
        plain_statement(sql).params.len() == 0 && plain_statement(sql).sql == sql,
{
}

/// Builds a statement with no bound values.
pub fn plain(sql: &str) -> (stmt: SqlStatement)
    ensures
        stmt@ == plain_statement(sql@),
{
    let stmt = SqlStatement { sql: String::from_str(sql), params: Vec::new() };
    assert(stmt@.params =~= Seq::<SqlParamView>::empty());
    stmt
}

/// Builds a statement with one bound value.
pub fn with_param(sql: &str, param: SqlParam) -> (stmt: SqlStatement)
    ensures
        stmt@ == (SqlStatementView { sql: sql@, params: seq![param@] }),
{
    let ghost p = param@;
    let mut params: Vec<SqlParam> = Vec::new();
    params.push(param);
    let stmt = SqlStatement { sql: String::from_str(sql), params };
    assert(stmt@.params =~= seq![p]);
    stmt
}

/// Builds a statement with two bound values.
pub fn with_params(sql: &str, first: SqlParam, second: SqlParam) -> (stmt: SqlStatement)
    ensures
        stmt@ == (SqlStatementView { sql: sql@, params: seq![first@, second@] }),
{
    let ghost p = first@;
    let ghost q = second@;
    let mut params: Vec<SqlParam> = Vec::new();
    params.push(first);
    params.push(second);
    let stmt = SqlStatement { sql: String::from_str(sql), params };
    assert(stmt@.params =~= seq![p, q]);
    stmt
}

/// Builds a statement with three bound values.
pub fn with_three_params(sql: &str, first: SqlParam, second: SqlParam, third: SqlParam) -> (stmt:
    SqlStatement)
    ensures
        stmt@ == (SqlStatementView { sql: sql@, params: seq![first@, second@, third@] }),
{
    let ghost p = first@;
    let ghost q = second@;
    let ghost r = third@;
    let mut params: Vec<SqlParam> = Vec::new();
    params.push(first);
    params.push(second);
    params.push(third);
    let stmt = SqlStatement { sql: String::from_str(sql), params };
    assert(stmt@.params =~= seq![p, q, r]);
    stmt
}

/// Builds a statement with four bound values.
pub fn with_four_params(
    sql: &str,
    first: SqlParam,
    second: SqlParam,
    third: SqlParam,
    fourth: SqlParam,
) -> (stmt: SqlStatement)
    ensures
        stmt@ == (SqlStatementView { sql: sql@, params: seq![first@, second@, third@, fourth@] }),
{
    let ghost p = first@;
    let ghost q = second@;
    let ghost r = third@;
    let ghost t = fourth@;
    let mut params: Vec<SqlParam> = Vec::new();
    params.push(first);
    params.push(second);
    params.push(third);
    params.push(fourth);
    let stmt = SqlStatement { sql: String::from_str(sql), params };
    assert(stmt@.params =~= seq![p, q, r, t]);
    stmt
}

} // verus!
