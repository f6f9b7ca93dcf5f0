use postgres_talk::movies::{movie_response, movie_statement};
use postgres_talk::sql::{SqlParam, SqlStatement};
use postgres_talk::users::{
    get_users_plan, select_users_statement, update_user_plan, update_user_response,
    update_user_statement, users_response,
    UpdateUser, User, STATUS_INTERNAL_SERVER_ERROR, STATUS_OK,
};

fn plain(sql: &str) -> SqlStatement {
    SqlStatement { sql: sql.to_string(), params: vec![] }
}

fn alice() -> User {
    User { id: 7, handle: "alice".to_string(), email: Some("a@example.com".to_string()) }
}

#[test]
fn select_users_lists_everything_the_session_may_see() {
    assert_eq!(select_users_statement(), plain("select * from users"));
}

#[test]
fn update_binds_email_then_id() {
    let stmt = update_user_statement(42, UpdateUser { email: "new@email.com".to_string() });
    assert_eq!(stmt.sql, "update users set email=$1 where id=$2 returning *");
    assert_eq!(
        stmt.params,
        vec![SqlParam::Text("new@email.com".to_string()), SqlParam::BigInt(42)]
    );
}

#[test]
fn get_users_runs_session_then_listing() {
    assert_eq!(
        get_users_plan(None),
        vec![plain("set role to app_rls_anonymous"), plain("select * from users")]
    );
    let plan = get_users_plan(Some("bob"));
    assert_eq!(plan.len(), 3);
    assert_eq!(plan[0], plain("set role to app_rls_user"));
    assert_eq!(plan[1].params, vec![SqlParam::Text("bob".to_string())]);
    assert_eq!(plan[2], plain("select * from users"));
}

#[test]
fn update_user_runs_session_then_update() {
    let plan = update_user_plan(Some("admin"), -3, UpdateUser { email: "e".to_string() });
    assert_eq!(plan.len(), 3);
    assert_eq!(plan[0], plain("set role to app_rls_admin"));
    assert_eq!(plan[1], plain("select set_config('rls.username', 'admin', true)"));
    assert_eq!(
        plan[2].params,
        vec![SqlParam::Text("e".to_string()), SqlParam::BigInt(-3)]
    );
}

#[test]
fn fetched_users_are_answered_with_200() {
    let resp = users_response(Some(vec![alice()]));
    assert_eq!(resp.status, 200);
    assert_eq!(resp.status, STATUS_OK);
    assert_eq!(resp.users, vec![alice()]);
    assert!(!resp.commit);
    let empty = users_response(Some(vec![]));
    assert_eq!(empty.status, 200);
    assert!(empty.users.is_empty());
}

#[test]
fn failed_query_is_answered_with_500_and_no_rows() {
    let resp = users_response(None);
    assert_eq!(resp.status, 500);
    assert_eq!(resp.status, STATUS_INTERNAL_SERVER_ERROR);
    assert!(resp.users.is_empty());
    assert!(!resp.commit);
}

#[test]
fn successful_update_is_committed() {
    let resp = update_user_response(Some(vec![alice()]));
    assert_eq!(resp.status, 200);
    assert_eq!(resp.users, vec![alice()]);
    assert!(resp.commit);
    let none_changed = update_user_response(Some(vec![]));
    assert_eq!(none_changed.status, 200);
    assert!(none_changed.commit);
}

#[test]
fn failed_update_is_not_committed() {
    let resp = update_user_response(None);
    assert_eq!(resp.status, 500);
    assert!(resp.users.is_empty());
    assert!(!resp.commit);
}

#[test]
fn movie_document_is_passed_through() {
    let resp = movie_response(Some("{\"id\":603}".to_string()));
    assert_eq!(resp.status, 200);
    assert_eq!(resp.content_type, "application/json");
    assert_eq!(resp.body, "{\"id\":603}");
}

#[test]
fn missing_movie_answers_boom() {
    let resp = movie_response(None);
    assert_eq!(resp.status, 500);
    assert_eq!(resp.content_type, "application/json");
    assert_eq!(resp.body, "boom");
}

#[test]
fn movie_query_binds_the_id() {
    let stmt = movie_statement("select 1 where $1 > 0", 603);
    assert_eq!(stmt.sql, "select 1 where $1 > 0");
    assert_eq!(stmt.params, vec![SqlParam::BigInt(603)]);
}
