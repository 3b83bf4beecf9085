//! Getting rid of test databases.

use sqlx_testing::cleanup::{
    cleanup_old_dbs, cleanup_test, cleanup_test_dbs, do_cleanup, OldDbsRun, TestDbsRun,
};
use sqlx_testing::protocol::{Command, Error, Reply, Session, Shape, Turn};

fn execute(session: Session, sql: &str, params: &[&str]) -> Command {
    Command::Execute {
        session,
        sql: sql.to_string(),
        params: params.iter().map(|p| p.to_string()).collect(),
    }
}

fn fetch(session: Session, sql: &str, shape: Shape) -> Command {
    Command::Fetch { session, sql: sql.to_string(), params: vec![], shape }
}

fn in_use() -> Reply {
    Reply::Failed(Error::Database { number: 1010, message: "in use".to_string() })
}

fn lost() -> Error {
    Error::Other("connection lost".to_string())
}

fn names(names: &[&str]) -> Reply {
    Reply::Names(names.iter().map(|n| n.to_string()).collect())
}

fn play_old(script: Vec<(Command, Reply)>) -> Result<(), Error> {
    let mut run: OldDbsRun = cleanup_old_dbs();
    let mut steps = script.into_iter();
    loop {
        let (command, reply) = steps.next().expect("the cleanup goes on");
        assert_eq!(run.command(), command);
        assert!(run.admits(&reply));
        let result = match run.resume(reply) {
            Turn::Ask(next) => {
                run = next;
                continue;
            }
            Turn::Done(()) => Ok(()),
            Turn::Fail(e) => Err(e),
        };
        assert!(steps.next().is_none(), "the cleanup is over");
        return result;
    }
}

fn play_all(script: Vec<(Command, Reply)>) -> Result<Option<usize>, Error> {
    let mut run: TestDbsRun = cleanup_test_dbs();
    let mut steps = script.into_iter();
    loop {
        let (command, reply) = steps.next().expect("the cleanup goes on");
        assert_eq!(run.command(), command);
        assert!(run.admits(&reply));
        let result = match run.resume(reply) {
            Turn::Ask(next) => {
                run = next;
                continue;
            }
            Turn::Done(count) => Ok(count),
            Turn::Fail(e) => Err(e),
        };
        assert!(steps.next().is_none(), "the cleanup is over");
        return result;
    }
}

fn listed(reply: Reply) -> Vec<(Command, Reply)> {
    vec![
        (Command::Connect { database: None }, Reply::Done),
        (
            fetch(Session::Secondary, "select db_name from _sqlx_test_databases", Shape::Names),
            reply,
        ),
    ]
}

fn dropped(name: &str, reply: Reply) -> (Command, Reply) {
    (
        execute(Session::Secondary, &format!("drop database if exists {name}"), &[]),
        reply,
    )
}

#[test]
fn one_test_is_cleaned_up() {
    let run = do_cleanup("db");
    assert_eq!(
        run.command(),
        execute(Session::Primary, "drop database if exists db;", &[])
    );
    let run = match run.resume(Reply::Done) {
        Turn::Ask(run) => run,
        other => panic!("{other:?}"),
    };
    assert_eq!(
        run.command(),
        execute(
            Session::Primary,
            "delete from _sqlx_test_databases where db_name = ?",
            &["db"]
        )
    );
    assert!(matches!(run.resume(Reply::Done), Turn::Done(())));
}

#[test]
fn cleanup_after_a_test_takes_a_connection_first() {
    let run = cleanup_test("db");
    assert_eq!(run.command(), Command::Acquire);
    assert!(!run.admits(&Reply::Number(1)));
    match run.resume(Reply::Done) {
        Turn::Ask(run) => assert_eq!(run.command(), do_cleanup("db").command()),
        other => panic!("{other:?}"),
    }
    assert!(matches!(
        cleanup_test("db").resume(Reply::Failed(lost())),
        Turn::Fail(e) if e == lost()
    ));
    assert!(matches!(
        do_cleanup("db").resume(in_use()),
        Turn::Fail(Error::Database { number: 1010, message: _ })
    ));
}

#[test]
fn free_databases_are_deleted_and_counted() {
    let mut script = listed(names(&["a", "b", "c"]));
    script.push(dropped("a", Reply::Done));
    script.push(dropped("b", in_use()));
    script.push(dropped("c", Reply::Done));
    script.push((
        execute(
            Session::Secondary,
            "delete from _sqlx_test_databases where db_name in (?,?)",
            &["a", "c"],
        ),
        Reply::Done,
    ));
    script.push((Command::Close, Reply::Done));
    assert_eq!(play_all(script), Ok(Some(2)));
}

#[test]
fn closing_may_fail_after_a_cleanup() {
    let mut script = listed(names(&["a"]));
    script.push(dropped("a", Reply::Done));
    script.push((
        execute(
            Session::Secondary,
            "delete from _sqlx_test_databases where db_name in (?)",
            &["a"],
        ),
        Reply::Done,
    ));
    script.push((Command::Close, Reply::Failed(lost())));
    assert_eq!(play_all(script), Ok(Some(1)));
}

#[test]
fn nothing_to_clean_up_gives_no_count() {
    assert_eq!(play_all(listed(names(&[]))), Ok(None));
    let mut script = listed(names(&["a"]));
    script.push(dropped("a", in_use()));
    assert_eq!(play_all(script), Ok(None));
}

#[test]
fn other_errors_end_the_cleanup() {
    assert_eq!(play_all(listed(Reply::Failed(lost()))), Err(lost()));
    let mut script = listed(names(&["a", "b"]));
    script.push(dropped("a", Reply::Failed(lost())));
    assert_eq!(play_all(script), Err(lost()));
    let mut script = listed(names(&["a"]));
    script.truncate(1);
    script[0].1 = Reply::Failed(lost());
    assert_eq!(play_all(script), Err(lost()));
}

fn old_list(reply: Reply) -> (Command, Reply) {
    (
        fetch(Session::Primary, "select db_id from _sqlx_test_databases", Shape::Ids),
        reply,
    )
}

fn drop_old(id: &str, reply: Reply) -> (Command, Reply) {
    (
        execute(
            Session::Primary,
            &format!("drop database if exists _sqlx_test_database_{id}"),
            &[],
        ),
        reply,
    )
}

fn drop_table(reply: Reply) -> (Command, Reply) {
    (
        execute(Session::Primary, "drop table if exists _sqlx_test_databases", &[]),
        reply,
    )
}

#[test]
fn old_databases_are_dropped_with_their_table() {
    assert_eq!(
        play_old(vec![
            old_list(Reply::Ids(vec![7, 12])),
            drop_old("7", in_use()),
            drop_old("12", Reply::Done),
            drop_table(Reply::Done),
        ]),
        Ok(())
    );
    assert_eq!(
        play_old(vec![old_list(Reply::Ids(vec![])), drop_table(Reply::Done)]),
        Ok(())
    );
}

#[test]
fn new_or_missing_table_needs_no_cleanup() {
    for number in [1054, 1146] {
        let refused = Error::Database { number, message: "no".to_string() };
        assert_eq!(play_old(vec![old_list(Reply::Failed(refused))]), Ok(()));
    }
}

#[test]
fn other_errors_end_the_removal_of_old_databases() {
    let refused = || Error::Database { number: 1045, message: "no".to_string() };
    assert_eq!(play_old(vec![old_list(Reply::Failed(refused()))]), Err(refused()));
    assert_eq!(play_old(vec![old_list(Reply::Failed(lost()))]), Err(lost()));
    assert_eq!(
        play_old(vec![
            old_list(Reply::Ids(vec![1, 2])),
            drop_old("1", Reply::Failed(lost())),
        ]),
        Err(lost())
    );
    assert_eq!(
        play_old(vec![
            old_list(Reply::Ids(vec![])),
            drop_table(Reply::Failed(refused())),
        ]),
        Err(refused())
    );
}
