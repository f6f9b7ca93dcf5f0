//! Database administration: the command lines that drop and create a
//! database, how their exit status is read, and the connection URL.

use vstd::prelude::*;

verus! {

/// The connection URL for a local database reached over the default
/// socket, with TLS switched off.
pub open spec fn connection_url_spec(db_name: Seq<char>) -> Seq<char> {
    "postgres:///"@ + db_name + "?sslmode=disable"@
}

/// The URL is the fixed prefix `postgres:///`, then the database name
/// unchanged, whatever its length or characters, then `?sslmode=disable`;
/// so different names give different URLs.
pub proof fn law_url_holds_the_name(db_name: Seq<char>, other: Seq<char>)
    ensures
        connection_url_spec(db_name).len() == 12 + db_name.len() + 16,
        connection_url_spec(db_name).subrange(0, 12) == "postgres:///"@,
        connection_url_spec(db_name).subrange(12, 12 + db_name.len() as int) == db_name,
        connection_url_spec(db_name).subrange(12 + db_name.len() as int, 28 + db_name.len() as int)
            == "?sslmode=disable"@,
        connection_url_spec(db_name) == connection_url_spec(other) ==> db_name == other,
{
    reveal_strlit("postgres:///");
    reveal_strlit("?sslmode=disable");
    let u = connection_url_spec(db_name);
    assert(u.subrange(0, 12) =~= "postgres:///"@);
    assert(u.subrange(12, 12 + db_name.len() as int) =~= db_name);
    assert(u.subrange(12 + db_name.len() as int, 28 + db_name.len() as int) =~= "?sslmode=disable"@);
    if connection_url_spec(db_name) == connection_url_spec(other) {
        let v = connection_url_spec(other);
        assert(v.subrange(12, 12 + other.len() as int) =~= other);
        assert(db_name =~= other);
    }
}

/// Builds `postgres:///<db_name>?sslmode=disable`.
pub fn connection_url(db_name: &str) -> (url: String)
    ensures
        url@ == connection_url_spec(db_name@),
{
    let url = String::from_str("postgres:///");
    let url = url.concat(db_name);
    url.concat("?sslmode=disable")
}


/// Which of the two administration programs a command line runs.
#[derive(Clone, Copy, Debug, PartialEq, Eq, Structural)]
pub enum DbCommandKind {
    Drop,
    Create,
}

/// A command line to spawn: a program and its arguments.
pub struct DbCommand {
    pub kind: DbCommandKind,
    pub program: String,
    pub args: Vec<String>,
}

/// The abstract value of a command line.
pub struct DbCommandView {
    pub kind: DbCommandKind,
    pub program: Seq<char>,
    pub args: Seq<Seq<char>>,
}

impl View for DbCommand {
    type V = DbCommandView;

    open spec fn view(&self) -> DbCommandView {
        DbCommandView {
            kind: self.kind,
            program: self.program@,
            args: self.args@.map_values(|a: String| a@),
        }
    }
}

/// The abstract value of a command line keeps its kind, its program and
/// each argument, in order.
pub proof fn law_command_view_keeps_the_line(cmd: DbCommand)
    ensures
        cmd@.kind == cmd.kind,
        cmd@.program == cmd.program@,
        cmd@.args.len() == cmd.args@.len(),
        forall|i: int| 0 <= i < cmd.args@.len() ==> #[trigger] cmd@.args[i] == cmd.args@[i]@,
{
}

/// `dropdb --if-exists <db_name>`
pub open spec fn drop_db_command_spec(db_name: Seq<char>) -> DbCommandView {
    DbCommandView {
        kind: DbCommandKind::Drop,
        program: "dropdb"@,
        args: seq!["--if-exists"@, db_name],
    }
}

/// `createdb <db_name>`
pub open spec fn create_db_command_spec(db_name: Seq<char>) -> DbCommandView {
    DbCommandView { kind: DbCommandKind::Create, program: "createdb"@, args: seq![db_name] }
}

/// The command line that drops a database, succeeding when it is absent.
pub fn drop_db_command(db_name: &str) -> (cmd: DbCommand)
    ensures
        cmd@ == drop_db_command_spec(db_name@),
{
    let mut args: Vec<String> = Vec::new();
    args.push(String::from_str("--if-exists"));
    args.push(String::from_str(db_name));
    let cmd = DbCommand { kind: DbCommandKind::Drop, program: String::from_str("dropdb"), args };
    assert(cmd@.args =~= drop_db_command_spec(db_name@).args);
    cmd
}

/// The command line that creates a database.
pub fn create_db_command(db_name: &str) -> (cmd: DbCommand)
    ensures
        cmd@ == create_db_command_spec(db_name@),
{
    let mut args: Vec<String> = Vec::new();
    args.push(String::from_str(db_name));
    let cmd = DbCommand { kind: DbCommandKind::Create, program: String::from_str("createdb"), args };
    assert(cmd@.args =~= create_db_command_spec(db_name@).args);
    cmd
}

/// The drop runs `dropdb` with `--if-exists` and then the database name as
/// given; the creation runs `createdb` with the name as its only argument.
/// A failure reports the error of the command that failed.
pub proof fn law_commands_name_the_database(db_name: Seq<char>)
    ensures
        drop_db_command_spec(db_name).kind == DbCommandKind::Drop,
        drop_db_command_spec(db_name).program == "dropdb"@,
        drop_db_command_spec(db_name).args.len() == 2,
        drop_db_command_spec(db_name).args[0] == "--if-exists"@,
        drop_db_command_spec(db_name).args[1] == db_name,
        create_db_command_spec(db_name).kind == DbCommandKind::Create,
        create_db_command_spec(db_name).program == "createdb"@,
        create_db_command_spec(db_name).args.len() == 1,
        create_db_command_spec(db_name).args[0] == db_name,
        failure_of(DbCommandKind::Drop) == DbError::DropFailed,
        failure_of(DbCommandKind::Create) == DbError::CreateFailed,
{
}

/// Why an administration command failed.
#[derive(Clone, Copy, Debug, PartialEq, Eq, Structural)]
pub enum DbError {
    /// `dropdb` exited unsuccessfully.
    DropFailed,
    /// `createdb` exited unsuccessfully.
    CreateFailed,
}

impl DbError {
    pub open spec fn message_spec(self) -> Seq<char> {
        match self {
            DbError::DropFailed => "unable to drop db"@,
            DbError::CreateFailed => "unable to create db"@,
        }
    }

    /// The message the error is reported with.
    pub fn message(&self) -> (m: String)
        ensures
            m@ == self.message_spec(),
    {
        match self {
            DbError::DropFailed => String::from_str("unable to drop db"),
            DbError::CreateFailed => String::from_str("unable to create db"),
        }
    }
}

/// The error a failed command of the given kind reports.
pub open spec fn failure_of(kind: DbCommandKind) -> DbError {
    match kind {
        DbCommandKind::Drop => DbError::DropFailed,
        DbCommandKind::Create => DbError::CreateFailed,
    }
}

impl DbCommand {
    /// Reads the exit status of the spawned command: success is `Ok`, any
    /// other status is the error of this command's kind.
    pub fn outcome(&self, success: bool) -> (r: Result<(), DbError>)
        ensures
            success ==> r == Ok::<(), DbError>(()),
            !success ==> r == Err::<(), DbError>(failure_of(self.kind)),
    {
        if success {
            Ok(())
        } else {
            match self.kind {
                DbCommandKind::Drop => Err(DbError::DropFailed),
                DbCommandKind::Create => Err(DbError::CreateFailed),
            }
        }
    }
}


/// Where the reset of a database stands. A reset drops the database, then
/// creates it again; the creation runs only after the drop succeeded, and
/// the first failure ends the reset with that command's error.
#[derive(Clone, Copy, Debug, PartialEq, Eq, Structural)]
pub enum ResetStep {
    /// The drop is to run.
    Dropping,
    /// The drop succeeded; the creation is to run.
    Creating,
    /// Both commands succeeded.
    Done,
    /// A command failed with this error; nothing more runs.
    Failed(DbError),
}

impl ResetStep {
    /// The command that the step runs next, if any.
    pub open spec fn command_spec(self, db_name: Seq<char>) -> Option<DbCommandView> {
        match self {
            ResetStep::Dropping => Some(drop_db_command_spec(db_name)),
            ResetStep::Creating => Some(create_db_command_spec(db_name)),
            _ => None,
        }
    }

    /// The step that follows once the current command exited, successfully
    /// or not; a finished reset stays as it is.
    pub open spec fn after_spec(self, success: bool) -> ResetStep {
        match self {
            ResetStep::Dropping => if success {
                ResetStep::Creating
            } else {
                ResetStep::Failed(DbError::DropFailed)
            },
            ResetStep::Creating => if success {
                ResetStep::Done
            } else {
                ResetStep::Failed(DbError::CreateFailed)
            },
            _ => self,
        }
    }

    /// The result of a finished reset; `None` while a command is still to run.
    pub open spec fn result_spec(self) -> Option<Result<(), DbError>> {
        match self {
            ResetStep::Done => Some(Ok(())),
            ResetStep::Failed(e) => Some(Err(e)),
            _ => None,
        }
    }

    /// A reset starts with the drop.
    pub fn start() -> (s: ResetStep)
        ensures
            s == ResetStep::Dropping,
    {
        ResetStep::Dropping
    }

    /// The command line to run next, if any.
    pub fn command(&self, db_name: &str) -> (c: Option<DbCommand>)
        ensures
            match (c, self.command_spec(db_name@)) {
                (Some(cmd), Some(v)) => cmd@ == v,
                (None, None) => true,
                _ => false,
            },
    {
        match self {
            ResetStep::Dropping => Some(drop_db_command(db_name)),
            ResetStep::Creating => Some(create_db_command(db_name)),
            _ => None,
        }
    }

    /// Moves on once the current command exited.
    pub fn after(self, success: bool) -> (s: ResetStep)
        ensures
            s == self.after_spec(success),
    {
        match self {
            ResetStep::Dropping => if success {
                ResetStep::Creating
            } else {
                ResetStep::Failed(DbError::DropFailed)
            },
            ResetStep::Creating => if success {
                ResetStep::Done
            } else {
                ResetStep::Failed(DbError::CreateFailed)
            },
            _ => self,
        }
    }

    /// The result of a finished reset; `None` while a command is still to run.
    pub fn result(&self) -> (r: Option<Result<(), DbError>>)
        ensures
            r == self.result_spec(),
    {
        match self {
            ResetStep::Done => Some(Ok(())),
            ResetStep::Failed(e) => Some(Err(*e)),
            _ => None,
        }
    }
}

/// A reset runs `dropdb` first. When it fails, the reset ends there with
/// the drop's error and `createdb` never runs; otherwise `createdb` runs
/// next, and the reset ends with its outcome. Either way nothing runs after
/// that.
pub proof fn law_reset_creates_only_after_a_drop(db_name: Seq<char>, drop_ok: bool, create_ok: bool)
    ensures
        ResetStep::Dropping.command_spec(db_name) == Some(drop_db_command_spec(db_name)),
        ResetStep::Dropping.result_spec() is None,
        ({
            let s1 = ResetStep::Dropping.after_spec(drop_ok);
            &&& !drop_ok ==> s1.command_spec(db_name) is None && s1.result_spec() == Some(
                Err::<(), DbError>(DbError::DropFailed),
            )
            &&& drop_ok ==> s1.command_spec(db_name) == Some(create_db_command_spec(db_name))
                && s1.result_spec() is None
            &&& drop_ok ==> ({
                let s2 = s1.after_spec(create_ok);
                &&& s2.command_spec(db_name) is None
                &&& s2.result_spec() == Some(
                    if create_ok {
                        Ok::<(), DbError>(())
                    } else {
                        Err::<(), DbError>(DbError::CreateFailed)
                    },
                )
            })
        }),
{
}

} // verus!
