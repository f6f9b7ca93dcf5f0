use postgres_talk::session::{header_user, session_role, session_statements, SessionRole};
use postgres_talk::sql::{SqlParam, SqlStatement};

fn plain(sql: &str) -> SqlStatement {
    SqlStatement { sql: sql.to_string(), params: vec![] }
}

#[test]
fn anonymous_request_gets_the_anonymous_role() {
    assert_eq!(session_role(None), SessionRole::Anonymous);
    assert_eq!(session_statements(None), vec![plain("set role to app_rls_anonymous")]);
}

#[test]
fn admin_request_gets_the_admin_role() {
    assert_eq!(session_role(Some("admin")), SessionRole::Admin);
    assert_eq!(
        session_statements(Some("admin")),
        vec![
            plain("set role to app_rls_admin"),
            plain("select set_config('rls.username', 'admin', true)"),
        ]
    );
}

#[test]
fn named_user_gets_the_user_role_and_their_name() {
    assert_eq!(session_role(Some("alice")), SessionRole::User);
    assert_eq!(
        session_statements(Some("alice")),
        vec![
            plain("set role to app_rls_user"),
            SqlStatement {
                sql: "select set_config('rls.username', $1, true)".to_string(),
                params: vec![SqlParam::Text("alice".to_string())],
            },
        ]
    );
}

#[test]
fn names_close_to_admin_are_plain_users() {
    for name in ["Admin", "admin ", " admin", "administrator", "", "adm"] {
        assert_eq!(session_role(Some(name)), SessionRole::User, "{name:?}");
        let stmts = session_statements(Some(name));
        assert_eq!(stmts[0], plain("set role to app_rls_user"));
        assert_eq!(stmts[1].params, vec![SqlParam::Text(name.to_string())]);
    }
}

#[test]
fn a_name_with_quotes_is_bound_not_spliced() {
    let name = "x', 'admin', true) --";
    let stmts = session_statements(Some(name));
    assert_eq!(stmts[1].sql, "select set_config('rls.username', $1, true)");
    assert_eq!(stmts[1].params, vec![SqlParam::Text(name.to_string())]);
}

#[test]
fn header_bytes_are_read_as_text() {
    assert_eq!(header_user(None), Some(None));
    assert_eq!(header_user(Some(b"alice")), Some(Some("alice".to_string())));
    assert_eq!(header_user(Some(b"admin")), Some(Some("admin".to_string())));
    assert_eq!(header_user(Some(b"two words\tand tab")), Some(Some("two words\tand tab".to_string())));
    assert_eq!(header_user(Some(b"")), Some(Some(String::new())));
}

#[test]
fn header_bytes_outside_visible_ascii_are_refused() {
    assert_eq!(header_user(Some("caf\u{e9}".as_bytes())), None);
    assert_eq!(header_user(Some(b"a\x7fb")), None);
    assert_eq!(header_user(Some(b"a\nb")), None);
    assert_eq!(header_user(Some(b"\x00")), None);
}
