//! Making a test's database and running the test on it.

use sqlx_testing::context::{test_context, Origin, Prepared};
use sqlx_testing::migrate::{
    db_name_of_path, migrations_hash, template_db_name, Migration, MigrationType, Migrator,
};
use sqlx_testing::protocol::{Command, Error, Reply, Session, Shape, Turn};
use sqlx_testing::run::{
    run_test, setup_test_db, Action, Event, SetupError, SetupTurn, TestEnd, TestFailure,
    TestKind, TestRun, TestTurn,
};
use sqlx_testing::template::TemplateLockGuard;
use sqlx_testing::mysql::MySql;
use sqlx_testing::testing::{
    test_pool_options, ConnectOptions, TestArgs, TestContext, TestFixture, TestSupport,
};

const PATH: &str = "my_crate::tests::it_works";

const FIXTURES: &[TestFixture] = &[
    TestFixture { path: "a.sql", contents: "INSERT INTO a VALUES (1)" },
    TestFixture { path: "b.sql", contents: "INSERT INTO b VALUES (2)" },
];

fn a_migrator() -> &'static Migrator {
    Box::leak(Box::new(Migrator {
        migrations: vec![Migration {
            version: 1,
            migration_type: MigrationType::Simple,
            checksum: vec![1, 2, 3],
        }],
    }))
}

fn args(migrations: bool) -> TestArgs {
    let mut args = TestArgs::new(PATH);
    if migrations {
        args.migrator(a_migrator());
    }
    args.fixtures(FIXTURES);
    args
}

fn host() -> ConnectOptions {
    ConnectOptions { host: "localhost".to_string(), database: Some("sqlx".to_string()) }
}

fn db_name() -> String {
    db_name_of_path(PATH)
}

fn lost() -> Error {
    Error::Other("connection lost".to_string())
}

fn execute(session: Session, sql: &str, params: &[&str]) -> Command {
    Command::Execute {
        session,
        sql: sql.to_string(),
        params: params.iter().map(|p| p.to_string()).collect(),
    }
}

/// A server that answers everything it is asked, as if it held a template without objects, but
/// fails where the statement starts with `trouble`.
fn answer(command: &Command, trouble: Option<&str>) -> Reply {
    match command {
        Command::Execute { session: _, sql, params: _ } => match trouble {
            Some(start) if sql.starts_with(start) => Reply::Failed(lost()),
            _ => Reply::Done,
        },
        Command::Fetch { session: _, sql, params: _, shape: _ } => {
            if sql.starts_with("select db_id") {
                Reply::Failed(Error::Database { number: 1146, message: "none".to_string() })
            } else if sql.starts_with("SELECT GET_LOCK") {
                match trouble {
                    Some("lock") => Reply::MaybeNumber(Some(0)),
                    _ => Reply::MaybeNumber(Some(1)),
                }
            } else if sql.starts_with("SELECT template_name") {
                Reply::MaybeName(Some("known_template".to_string()))
            } else if sql.contains("column_name") && sql.contains("auto_increment") {
                Reply::Pairs(vec![])
            } else if sql.contains("routine_name") {
                Reply::Pairs(vec![])
            } else if sql.contains("constraint_name") {
                Reply::ForeignKeys(vec![])
            } else {
                Reply::Names(vec![])
            }
        }
        Command::Connect { database: _ } => match trouble {
            Some("connect") => Reply::Failed(lost()),
            _ => Reply::Done,
        },
        _ => Reply::Done,
    }
}

fn make(
    args: &TestArgs,
    templates: bool,
    trouble: Option<&str>,
) -> (Vec<Command>, Option<TemplateLockGuard>, Result<Prepared, Error>) {
    let mut run = test_context(args, host(), templates);
    let mut asked = vec![];
    loop {
        let command = run.command();
        let reply = answer(&command, trouble);
        asked.push(command);
        assert!(run.admits(&reply));
        let lock = run.template_lock();
        match run.resume(reply) {
            Turn::Ask(next) => run = next,
            Turn::Done(prepared) => return (asked, lock, Ok(prepared)),
            Turn::Fail(e) => return (asked, lock, Err(e)),
        }
    }
}

fn context(from_template: bool) -> TestContext {
    TestContext {
        pool_opts: test_pool_options(),
        connect_opts: ConnectOptions {
            host: "localhost".to_string(),
            database: Some(db_name()),
        },
        db_name: db_name(),
        from_template,
    }
}

fn opening() -> Vec<Command> {
    vec![
        Command::Acquire,
        Command::Fetch {
            session: Session::Primary,
            sql: "select db_id from _sqlx_test_databases".to_string(),
            params: vec![],
            shape: Shape::Ids,
        },
        execute(
            Session::Primary,
            r#"
        create table if not exists _sqlx_test_databases (
            db_name text not null,
            test_path text not null,
            created_at timestamp not null default current_timestamp,
            -- BLOB/TEXT columns can only be used as index keys with a prefix length:
            -- https://dev.mysql.com/doc/refman/8.4/en/column-indexes.html#column-indexes-prefix
            primary key(db_name(63))
        );
    "#,
            &[],
        ),
        execute(
            Session::Primary,
            &format!("drop database if exists {};", db_name()),
            &[],
        ),
        execute(
            Session::Primary,
            "delete from _sqlx_test_databases where db_name = ?",
            &[&db_name()],
        ),
        execute(
            Session::Primary,
            "insert into _sqlx_test_databases(db_name, test_path) values (?, ?)",
            &[&db_name(), PATH],
        ),
    ]
}

fn create_empty() -> Command {
    execute(Session::Primary, &format!("create database `{}`", db_name()), &[])
}

#[test]
fn database_without_migrations_is_created_empty() {
    let (asked, lock, prepared) = make(&args(false), true, None);
    let mut expected = opening();
    expected.push(create_empty());
    assert_eq!(asked, expected);
    assert_eq!(lock, None);
    let prepared = prepared.unwrap();
    assert_eq!(prepared.origin, Origin::NoTemplate);
    assert_eq!(prepared.context, context(false));
}

#[test]
fn database_without_templates_is_created_empty() {
    let (asked, _, prepared) = make(&args(true), false, None);
    assert_eq!(asked.len(), 7);
    assert_eq!(prepared.unwrap().origin, Origin::NoTemplate);
}

#[test]
fn database_is_cloned_from_its_template() {
    let (asked, lock, prepared) = make(&args(true), true, None);
    assert_eq!(asked[..6], opening()[..]);
    assert!(asked.contains(&execute(
        Session::Primary,
        &format!("CREATE DATABASE `{}`", db_name()),
        &[]
    )));
    assert!(!asked.contains(&create_empty()));
    assert_eq!(lock, Some(TemplateLockGuard { released: true }));
    let prepared = prepared.unwrap();
    assert_eq!(prepared.origin, Origin::Cloned);
    assert_eq!(prepared.context, context(true));
}

#[test]
fn missing_template_is_made_up_for() {
    let (asked, lock, prepared) = make(&args(true), true, Some("lock"));
    assert_eq!(asked.last(), Some(&create_empty()));
    assert_eq!(lock, None);
    let prepared = prepared.unwrap();
    assert_eq!(
        prepared.origin,
        Origin::TemplateFailed(Error::Protocol(
            "Failed to acquire template lock, GET_LOCK returned: Some(0)".to_string()
        ))
    );
    assert!(!prepared.context.from_template);

    let (_, lock, prepared) = make(&args(true), true, Some("UPDATE _sqlx_test_templates"));
    assert_eq!(lock, Some(TemplateLockGuard { released: false }));
    assert_eq!(prepared.unwrap().origin, Origin::TemplateFailed(lost()));
}

#[test]
fn failed_clone_is_dropped_and_made_up_for() {
    let (asked, _, prepared) = make(&args(true), true, Some("connect"));
    assert_eq!(
        asked[asked.len() - 2..],
        [
            execute(
                Session::Primary,
                &format!("drop database if exists `{}`", db_name()),
                &[]
            ),
            create_empty(),
        ]
    );
    let prepared = prepared.unwrap();
    assert_eq!(prepared.origin, Origin::CloneFailed(lost()));
    assert_eq!(prepared.context, context(false));
}

#[test]
fn failure_without_a_template_is_final() {
    for trouble in ["\n        create table", "drop database", "delete from", "insert into"] {
        let (_, _, prepared) = make(&args(false), false, Some(trouble));
        assert_eq!(prepared.unwrap_err(), lost());
    }
    let (asked, _, prepared) = make(&args(false), false, Some("create database"));
    assert_eq!(asked.last(), Some(&create_empty()));
    assert_eq!(prepared.unwrap_err(), lost());
}

#[test]
fn template_name_comes_from_the_migrations() {
    let mut run = test_context(&args(true), host(), true);
    for _ in 0..8 {
        let reply = answer(&run.command(), None);
        run = match run.resume(reply) {
            Turn::Ask(next) => next,
            other => panic!("{other:?}"),
        };
    }
    let hash = migrations_hash(a_migrator());
    match run.command() {
        Command::Fetch { session: _, sql: _, params, shape: _ } => {
            assert_eq!(params, vec![hash.clone()]);
        }
        other => panic!("{other:?}"),
    }
    run = match run.resume(Reply::MaybeName(None)) {
        Turn::Ask(next) => next,
        other => panic!("{other:?}"),
    };
    assert_eq!(
        run.command(),
        execute(
            Session::Primary,
            &format!("CREATE DATABASE IF NOT EXISTS `{}`", template_db_name(&hash)),
            &[]
        )
    );
}

fn set_up(from_template: bool, migrations: bool, failing: Option<usize>) -> (Vec<Command>, Option<SetupError>) {
    let mut run = setup_test_db(&context(from_template).connect_opts, &args(migrations), from_template);
    let mut asked = vec![];
    loop {
        let reply = match failing {
            Some(at) if at == asked.len() => Reply::Failed(lost()),
            _ => Reply::Done,
        };
        asked.push(run.command());
        match run.resume(reply) {
            SetupTurn::Ask(next) => run = next,
            SetupTurn::Done => return (asked, None),
            SetupTurn::Fail(e) => return (asked, Some(e)),
        }
    }
}

fn setup_commands(migrates: bool) -> Vec<Command> {
    let mut commands = vec![Command::Connect { database: Some(db_name()) }];
    if migrates {
        commands.push(Command::Migrate { hash: migrations_hash(a_migrator()) });
    }
    commands.push(execute(Session::Secondary, "INSERT INTO a VALUES (1)", &[]));
    commands.push(execute(Session::Secondary, "INSERT INTO b VALUES (2)", &[]));
    commands.push(Command::Close);
    commands
}

#[test]
fn migrations_come_first_and_are_skipped_for_clones() {
    assert_eq!(set_up(false, true, None), (setup_commands(true), None));
    assert_eq!(set_up(true, true, None), (setup_commands(false), None));
    assert_eq!(set_up(false, false, None), (setup_commands(false), None));
}

#[test]
fn setup_stops_at_what_fails() {
    let errors = [
        SetupError::Connect(lost()),
        SetupError::Migrate(lost()),
        SetupError::Fixture { path: "a.sql", error: lost() },
        SetupError::Fixture { path: "b.sql", error: lost() },
        SetupError::Close(lost()),
    ];
    for (at, error) in errors.into_iter().enumerate() {
        let mut expected = setup_commands(true);
        expected.truncate(at + 1);
        assert_eq!(set_up(false, true, Some(at)), (expected, Some(error)));
    }
}

#[test]
fn setup_without_fixtures_closes_at_once() {
    let run = setup_test_db(&host(), &TestArgs::new(PATH), false);
    assert_eq!(run.command(), Command::Connect { database: Some("sqlx".to_string()) });
    match run.resume(Reply::Done) {
        SetupTurn::Ask(run) => assert_eq!(run.command(), Command::Close),
        other => panic!("{other:?}"),
    }
}

type Outcome = Result<u8, &'static str>;

/// Runs a test that returns `result`. Whatever `odd` gives an event for goes that way.
fn whole(
    kind: TestKind,
    result: Outcome,
    odd: impl Fn(&Action) -> Option<Event<Outcome>>,
) -> (Vec<Action>, Result<TestEnd<Outcome>, TestFailure>) {
    let mut run: TestRun<Outcome> = run_test(args(true), kind, host(), true);
    let mut actions = vec![];
    assert!(run.prepared().is_none());
    loop {
        let action = run.action();
        let event = match odd(&action) {
            Some(event) => event,
            None => match &action {
                Action::Ask(command) => Event::Replied(answer(command, None)),
                Action::OpenPool => {
                    assert_eq!(run.prepared().unwrap().context, context(true));
                    Event::Opened
                }
                Action::TakeConnection => Event::Opened,
                Action::Call => {
                    assert_eq!(run.prepared().unwrap().context, context(true));
                    Event::Returned(result)
                }
                Action::ClosePool { limit_secs: _ } => Event::Closed,
            },
        };
        actions.push(action);
        assert!(run.admits(&event));
        match run.resume(event) {
            TestTurn::Go(next) => run = next,
            TestTurn::Done(end) => return (actions, Ok(end)),
            TestTurn::Fail(e) => return (actions, Err(e)),
        }
    }
}

fn removal() -> Vec<Action> {
    vec![
        Action::Ask(Command::Acquire),
        Action::Ask(execute(
            Session::Primary,
            &format!("drop database if exists {};", db_name()),
            &[],
        )),
        Action::Ask(execute(
            Session::Primary,
            "delete from _sqlx_test_databases where db_name = ?",
            &[&db_name()],
        )),
    ]
}

fn call(kind: TestKind) -> Vec<Action> {
    let limit_secs = Some(10);
    match kind {
        TestKind::Pool => {
            vec![Action::OpenPool, Action::Call, Action::ClosePool { limit_secs }]
        }
        TestKind::Connection => vec![
            Action::OpenPool,
            Action::TakeConnection,
            Action::Call,
            Action::ClosePool { limit_secs: None },
            Action::ClosePool { limit_secs },
        ],
        TestKind::Options => vec![Action::Call],
    }
}

const KINDS: [TestKind; 3] = [TestKind::Pool, TestKind::Connection, TestKind::Options];

#[test]
fn successful_test_leaves_no_database() {
    for kind in KINDS {
        let (actions, end) = whole(kind, Ok(3), |_| None);
        let mut expected = call(kind);
        expected.extend(removal());
        assert_eq!(actions[actions.len() - expected.len()..], expected[..]);
        assert_eq!(
            end,
            Ok(TestEnd { result: Ok(3), held_pool: false, cleanup_error: None })
        );
    }
}

#[test]
fn failed_test_keeps_its_database() {
    for kind in KINDS {
        let (actions, end) = whole(kind, Err("no"), |_| None);
        let expected = call(kind);
        assert_eq!(actions[actions.len() - expected.len()..], expected[..]);
        assert_eq!(
            end,
            Ok(TestEnd { result: Err("no"), held_pool: false, cleanup_error: None })
        );
    }
}

#[test]
fn held_pool_is_noted() {
    let (_, end) = whole(TestKind::Pool, Ok(1), |action| match action {
        Action::ClosePool { limit_secs: _ } => Some(Event::TimedOut),
        _ => None,
    });
    assert_eq!(end, Ok(TestEnd { result: Ok(1), held_pool: true, cleanup_error: None }));
}

#[test]
fn failed_cleanup_is_only_noted() {
    let drop = removal().remove(1);
    let called = std::cell::Cell::new(false);
    let (actions, end) = whole(TestKind::Options, Ok(1), |action| {
        if *action == Action::Call {
            called.set(true);
        }
        if *action == drop && called.get() {
            Some(Event::Replied(Reply::Failed(lost())))
        } else {
            None
        }
    });
    assert_eq!(actions.last(), Some(&removal().remove(1)));
    assert_eq!(
        end,
        Ok(TestEnd { result: Ok(1), held_pool: false, cleanup_error: Some(lost()) })
    );
}

#[test]
fn test_that_cannot_be_run_fails() {
    let refuse = |refused: Action| {
        move |action: &Action| {
            if *action == refused {
                match action {
                    Action::Ask(_) => Some(Event::Replied(Reply::Failed(lost()))),
                    _ => Some(Event::Refused(lost())),
                }
            } else {
                None
            }
        }
    };
    let kind = TestKind::Connection;
    for (refused, failure, what) in [
        (
            Action::Ask(Command::Acquire),
            TestFailure::Context(lost()),
            "failed to connect to setup test database",
        ),
        (
            Action::Ask(execute(Session::Secondary, "INSERT INTO b VALUES (2)", &[])),
            TestFailure::Setup(SetupError::Fixture { path: "b.sql", error: lost() }),
            "failed to apply test fixture",
        ),
        (Action::OpenPool, TestFailure::Pool(lost()), "failed to connect test pool"),
        (
            Action::TakeConnection,
            TestFailure::Connection(lost()),
            "failed to acquire test pool connection",
        ),
    ] {
        let (_, end) = whole(kind, Ok(1), refuse(refused));
        let e = end.unwrap_err();
        assert_eq!(e, failure);
        assert_eq!(e.what(), what);
    }
    assert_eq!(
        TestFailure::Setup(SetupError::Connect(lost())).what(),
        "failed to connect to test database"
    );
    assert_eq!(
        TestFailure::Setup(SetupError::Migrate(lost())).what(),
        "failed to apply migrations"
    );
    assert_eq!(
        TestFailure::Setup(SetupError::Close(lost())).what(),
        "failed to close setup connection"
    );
}

#[test]
fn events_of_other_actions_are_not_admitted() {
    let run: TestRun<Outcome> = run_test(args(false), TestKind::Pool, host(), false);
    assert!(run.admits(&Event::Replied(Reply::Done)));
    assert!(!run.admits(&Event::Replied(Reply::Number(1))));
    assert!(!run.admits(&Event::Opened));
    assert!(!run.admits(&Event::Returned(Ok(1))));
    assert!(!run.admits(&Event::Closed));
    assert!(!run.admits(&Event::TimedOut));
}

#[test]
fn mysql_offers_the_procedures() {
    assert_eq!(MySql::test_context(&args(false), host(), true).command(), Command::Acquire);
    assert_eq!(MySql::cleanup_test("db").command(), Command::Acquire);
    assert_eq!(
        MySql::cleanup_test_dbs().command(),
        Command::Connect { database: None }
    );
    assert_eq!(MySql::db_name(&args(false)), db_name());
}

#[test]
fn tests_and_templates_are_apart() {
    assert!(db_name().starts_with("_sqlx_test_"));
    assert!(template_db_name(&migrations_hash(a_migrator())).starts_with("_sqlx_template_"));
}
