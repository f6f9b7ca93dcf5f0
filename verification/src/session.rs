//! Row-level security: every request runs in a transaction whose
//! PostgreSQL role, and the user name that the row policies read through
//! `current_setting('rls.username')`, come from the request's `user` header.

use vstd::prelude::*;
use crate::sql::{
    plain, plain_statement, statements_view, with_param, SqlParam, SqlParamView, SqlStatement,
    SqlStatementView,
};

verus! {

/// The database role a request runs under.
#[derive(Clone, Copy, Debug, PartialEq, Eq, Structural)]
pub enum SessionRole {
    /// The `user` header names `admin`: sees and updates every row.
    Admin,
    /// The `user` header names someone else: the row policies apply to them.
    User,
    /// No `user` header: sees nothing.
    Anonymous,
}

impl SessionRole {
    /// The name of the PostgreSQL role.
    pub open spec fn role_name(self) -> Seq<char> {
        match self {
            SessionRole::Admin => "app_rls_admin"@,
            SessionRole::User => "app_rls_user"@,
            SessionRole::Anonymous => "app_rls_anonymous"@,
        }
    }
}

/// The name that gives administrator rights.
pub open spec fn admin_name() -> Seq<char> {
    "admin"@
}

/// A byte that `http::HeaderValue::to_str` accepts: a visible ASCII
/// character, the space, or a horizontal tab.
pub open spec fn is_visible_ascii(b: u8) -> bool {
    (32 <= b && b < 127) || b == 9
}

/// Every byte of the header value is one that `to_str` accepts.
pub open spec fn visible_ascii(bytes: Seq<u8>) -> bool {
    forall|i: int| 0 <= i < bytes.len() ==> is_visible_ascii(#[trigger] bytes[i])
}

/// The text of an ASCII header value: one character per byte.
pub open spec fn ascii_text(bytes: Seq<u8>) -> Seq<char> {
    bytes.map_values(|b: u8| b as char)
}

/// `http::HeaderValue::from_bytes` followed by `HeaderValue::to_str`.
/// `from_bytes` refuses control bytes other than the tab, and DEL; `to_str`
/// then yields the value as text exactly when every byte is visible ASCII, a
/// space or a tab (bytes of 128 and above are refused there). The text is
/// the bytes read as ASCII characters.
#[verifier::external_body]
fn header_value_text(bytes: &[u8]) -> (r: Option<String>)
    ensures
        r is Some <==> visible_ascii(bytes@),
        r matches Some(text) ==> text@ == ascii_text(bytes@),
{
    match axum::http::HeaderValue::from_bytes(bytes) {
        Ok(value) => value.to_str().ok().map(|text| text.to_string()),
        Err(_) => None,
    }
}

/// The abstract value of an optional raw header value.
pub open spec fn header_bytes_view(header: Option<&[u8]>) -> Option<Seq<u8>> {
    match header {
        Some(b) => Some(b@),
        None => None,
    }
}

/// The user a request names, read from the raw bytes of its `user` header:
/// `Some(None)` without the header, `Some(Some(name))` for a header that
/// reads as text, and `None` for a header that does not, which the handlers
/// refuse to serve.
pub open spec fn header_user_spec(header: Option<Seq<u8>>) -> Option<Option<Seq<char>>> {
    match header {
        None => Some(None),
        Some(bytes) => if visible_ascii(bytes) {
            Some(Some(ascii_text(bytes)))
        } else {
            None
        },
    }
}

/// Reads the user name from the raw bytes of the `user` header; see
/// `header_user_spec`.
pub fn header_user(header: Option<&[u8]>) -> (r: Option<Option<String>>)
    ensures
        match (r, header_user_spec(header_bytes_view(header))) {
            (Some(Some(name)), Some(Some(text))) => name@ == text,
            (Some(None), Some(None)) => true,
            (None, None) => true,
            _ => false,
        },
{
    match header {
        None => Some(None),
        Some(bytes) => match header_value_text(bytes) {
            Some(name) => Some(Some(name)),
            None => None,
        },
    }
}

/// A header is read as its user name exactly when every byte is a visible
/// ASCII character (32 to 126), a space or a tab, whatever those bytes are
/// (underscores, digits and punctuation included); the name is then the
/// bytes, one character each, in order. Any other byte makes the header
/// unreadable, and a missing header names nobody.
pub proof fn law_header_is_read_as_ascii(bytes: Seq<u8>)
    ensures
        header_user_spec(None) == Some(None::<Seq<char>>),
        (forall|i: int| 0 <= i < bytes.len() ==> 32 <= #[trigger] bytes[i] <= 126 || bytes[i] == 9)
            ==> ({
            let r = header_user_spec(Some(bytes));
            &&& r is Some && r->0 is Some
            &&& r->0->0.len() == bytes.len()
            &&& forall|i: int| 0 <= i < bytes.len() ==> (#[trigger] r->0->0[i]) as u32 == bytes[i] as u32
        }),
        (exists|i: int| 0 <= i < bytes.len() && !(32 <= #[trigger] bytes[i] <= 126 || bytes[i] == 9))
            ==> header_user_spec(Some(bytes)) is None,
{
    if forall|i: int| 0 <= i < bytes.len() ==> 32 <= #[trigger] bytes[i] <= 126 || bytes[i] == 9 {
        assert(visible_ascii(bytes));
        let t = ascii_text(bytes);
        assert forall|i: int| 0 <= i < bytes.len() implies (#[trigger] t[i]) as u32 == bytes[i] as u32 by {
            assert(t[i] == bytes[i] as char);
        }
    }
}

/// The abstract value of an optional header value.
pub open spec fn header_view(user: Option<&str>) -> Option<Seq<char>> {
    match user {
        Some(u) => Some(u@),
        None => None,
    }
}

/// The abstract value of a header keeps whether it is present and its value.
pub proof fn law_header_views_keep_the_value(user: Option<&str>, bytes: Option<&[u8]>)
    ensures
        user is None ==> header_view(user) is None,
        user matches Some(u) ==> header_view(user) == Some(u@),
        bytes is None ==> header_bytes_view(bytes) is None,
        bytes matches Some(b) ==> header_bytes_view(bytes) == Some(b@),
{
}

/// The role for a request, given the value of its `user` header.
pub open spec fn session_role_spec(user: Option<Seq<char>>) -> SessionRole {
    match user {
        None => SessionRole::Anonymous,
        Some(name) => if name == admin_name() {
            SessionRole::Admin
        } else {
            SessionRole::User
        },
    }
}

/// The statements that open the session of a request, given the value of
/// its `user` header.
pub open spec fn session_statements_spec(user: Option<Seq<char>>) -> Seq<SqlStatementView> {
    match user {
        None => seq![plain_statement("set role to app_rls_anonymous"@)],
        Some(name) => if name == admin_name() {
            seq![
                plain_statement("set role to app_rls_admin"@),
                plain_statement("select set_config('rls.username', 'admin', true)"@),
            ]
        } else {
            seq![
                plain_statement("set role to app_rls_user"@),
                SqlStatementView {
                    sql: "select set_config('rls.username', $1, true)"@,
                    params: seq![SqlParamView::Text(name)],
                },
            ]
        },
    }
}

/// Whether the header value is exactly `admin`.
fn is_admin_name(name: &str) -> (b: bool)
    ensures
        b == (name@ == admin_name()),
{
    let given = String::from_str(name);
    let admin = String::from_str("admin");
    given == admin
}

/// The role a request runs under, given the value of its `user` header.
pub fn session_role(user: Option<&str>) -> (role: SessionRole)
    ensures
        role == session_role_spec(header_view(user)),
{
    match user {
        None => SessionRole::Anonymous,
        Some(name) => if is_admin_name(name) {
            SessionRole::Admin
        } else {
            SessionRole::User
        },
    }
}

/// The statements, in order, that open the session of a request, given the
/// value of its `user` header: the role is set, and for a named user the
/// name is stored in the transaction-local setting `rls.username`.
pub fn session_statements(user: Option<&str>) -> (stmts: Vec<SqlStatement>)
    ensures
        statements_view(stmts@) == session_statements_spec(header_view(user)),
{
    let mut stmts: Vec<SqlStatement> = Vec::new();
    match user {
        None => {
            stmts.push(plain("set role to app_rls_anonymous"));
        },
        Some(name) => {
            if is_admin_name(name) {
                stmts.push(plain("set role to app_rls_admin"));
                stmts.push(plain("select set_config('rls.username', 'admin', true)"));
            } else {
                stmts.push(plain("set role to app_rls_user"));
                stmts.push(
                    with_param(
                        "select set_config('rls.username', $1, true)",
                        SqlParam::Text(String::from_str(name)),
                    ),
                );
            }
        },
    }
    assert(statements_view(stmts@) =~= session_statements_spec(header_view(user)));
    stmts
}

/// The first statement of every session sets the role that
/// `session_role` chooses for the same header.
pub proof fn law_session_sets_its_role(user: Option<Seq<char>>)
    ensures
        session_statements_spec(user).len() >= 1,
        session_statements_spec(user)[0] == plain_statement(
            "set role to "@ + session_role_spec(user).role_name(),
        ),
{
    reveal_strlit("set role to ");
    reveal_strlit("set role to app_rls_anonymous");
    reveal_strlit("set role to app_rls_admin");
    reveal_strlit("set role to app_rls_user");
    reveal_strlit("app_rls_anonymous");
    reveal_strlit("app_rls_admin");
    reveal_strlit("app_rls_user");
    let s = session_statements_spec(user);
    assert(s[0].sql =~= "set role to "@ + session_role_spec(user).role_name());
    assert(s[0].params =~= Seq::<SqlParamView>::empty());
}

/// Administrator rights go to the header value `admin` and to nothing else:
/// a missing header, and every other name, run without them.
pub proof fn law_admin_only_by_name(user: Option<Seq<char>>)
    ensures
        admin_name() == "admin"@,
        (session_role_spec(user) == SessionRole::Admin) <==> (user == Some(admin_name())),
        (session_role_spec(user) == SessionRole::Anonymous) <==> user is None,
{
}

/// A session stores a user name exactly when the request names a user, and
/// the name a non-administrator session stores is the header value itself,
/// passed as a bound value rather than spliced into the statement.
pub proof fn law_username_is_the_header(user: Option<Seq<char>>)
    ensures
        user is None ==> session_statements_spec(user) == seq![
            plain_statement("set role to app_rls_anonymous"@),
        ],
        session_role_spec(user) == SessionRole::Admin ==> session_statements_spec(user)[1]
            == plain_statement("select set_config('rls.username', 'admin', true)"@),
        (session_statements_spec(user).len() == 2) <==> user is Some,
        session_role_spec(user) == SessionRole::User ==> session_statements_spec(user)[1].params
            == seq![SqlParamView::Text(user->0)],
        session_role_spec(user) == SessionRole::User ==> session_statements_spec(user)[1].sql
            == "select set_config('rls.username', $1, true)"@,
{
}

} // verus!
