use postgres_talk::db::{
    connection_url, create_db_command, drop_db_command, DbCommandKind, DbError, ResetStep,
};

#[test]
fn connection_url_names_the_database() {
    assert_eq!(connection_url("pivot_table"), "postgres:///pivot_table?sslmode=disable");
    assert_eq!(connection_url(""), "postgres:///?sslmode=disable");
}

#[test]
fn drop_command_tolerates_a_missing_database() {
    let cmd = drop_db_command("rls_db");
    assert_eq!(cmd.kind, DbCommandKind::Drop);
    assert_eq!(cmd.program, "dropdb");
    assert_eq!(cmd.args, vec!["--if-exists".to_string(), "rls_db".to_string()]);
}

#[test]
fn create_command_takes_only_the_name() {
    let cmd = create_db_command("omdb");
    assert_eq!(cmd.kind, DbCommandKind::Create);
    assert_eq!(cmd.program, "createdb");
    assert_eq!(cmd.args, vec!["omdb".to_string()]);
}

#[test]
fn reset_drops_then_creates() {
    let step = ResetStep::start();
    assert_eq!(step, ResetStep::Dropping);
    let drop = step.command("window_functions").unwrap();
    assert_eq!(drop.program, "dropdb");
    assert_eq!(drop.args, vec!["--if-exists".to_string(), "window_functions".to_string()]);
    assert_eq!(step.result(), None);
    let step = step.after(true);
    assert_eq!(step, ResetStep::Creating);
    let create = step.command("window_functions").unwrap();
    assert_eq!(create.program, "createdb");
    assert_eq!(create.args, vec!["window_functions".to_string()]);
    let step = step.after(true);
    assert_eq!(step, ResetStep::Done);
    assert!(step.command("window_functions").is_none());
    assert_eq!(step.result(), Some(Ok(())));
}

#[test]
fn failed_drop_ends_the_reset_before_creating() {
    let step = ResetStep::start().after(false);
    assert_eq!(step, ResetStep::Failed(DbError::DropFailed));
    assert!(step.command("x").is_none());
    assert_eq!(step.result(), Some(Err(DbError::DropFailed)));
    assert_eq!(step.after(true), step);
}

#[test]
fn failed_create_ends_the_reset_with_its_error() {
    let step = ResetStep::start().after(true).after(false);
    assert!(step.command("x").is_none());
    assert_eq!(step.result(), Some(Err(DbError::CreateFailed)));
}

#[test]
fn exit_status_decides_the_outcome() {
    let drop = drop_db_command("x");
    let create = create_db_command("x");
    assert_eq!(drop.outcome(true), Ok(()));
    assert_eq!(create.outcome(true), Ok(()));
    assert_eq!(drop.outcome(false), Err(DbError::DropFailed));
    assert_eq!(create.outcome(false), Err(DbError::CreateFailed));
}

#[test]
fn db_error_messages() {
    assert_eq!(DbError::DropFailed.message(), "unable to drop db");
    assert_eq!(DbError::CreateFailed.message(), "unable to create db");
}
