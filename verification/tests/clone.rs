//! Cloning a template.

use sqlx_testing::clone::{clone_database, clone_database_objects, CloneRun};
use sqlx_testing::protocol::{Command, Error, Reply, Session, Shape, Turn};
use sqlx_testing::sql::{
    ForeignKey, LIST_AUTO_INCREMENTS, LIST_EVENTS, LIST_FOREIGN_KEYS, LIST_ROUTINES, LIST_TABLES,
    LIST_TRIGGERS, LIST_VIEWS,
};

fn strings(texts: &[&str]) -> Vec<String> {
    texts.iter().map(|t| t.to_string()).collect()
}

fn pairs(pairs: &[(&str, &str)]) -> Reply {
    Reply::Pairs(pairs.iter().map(|(a, b)| (a.to_string(), b.to_string())).collect())
}

fn names(names: &[&str]) -> Reply {
    Reply::Names(strings(names))
}

/// A statement in the new database.
fn run(sql: &str) -> (Command, Reply) {
    (
        Command::Execute { session: Session::Secondary, sql: sql.to_string(), params: vec![] },
        Reply::Done,
    )
}

fn fails(sql: &str) -> (Command, Reply) {
    (run(sql).0, Reply::Failed(refused()))
}

fn refused() -> Error {
    Error::Database { number: 1146, message: "no such table".to_string() }
}

fn ask(session: Session, sql: &str, params: &[&str], shape: Shape, reply: Reply) -> (Command, Reply) {
    (
        Command::Fetch { session, sql: sql.to_string(), params: strings(params), shape },
        reply,
    )
}

fn list(sql: &str, shape: Shape, reply: Reply) -> (Command, Reply) {
    ask(Session::Primary, sql, &["t"], shape, reply)
}

fn show(kind: &str, name: &str, row: &[&str]) -> (Command, Reply) {
    ask(
        Session::Primary,
        &format!("SHOW CREATE {kind} `t`.`{name}`"),
        &[],
        Shape::Row { columns: row.len() },
        Reply::Row(strings(row)),
    )
}

fn play_from(start: CloneRun, script: Vec<(Command, Reply)>) -> Result<(), Error> {
    let mut run = start;
    let mut steps = script.into_iter();
    loop {
        let (command, reply) = steps.next().expect("the clone goes on");
        assert_eq!(run.command(), command);
        assert!(run.admits(&reply), "{command:?}");
        let result = match run.resume(reply) {
            Turn::Ask(next) => {
                run = next;
                continue;
            }
            Turn::Done(()) => Ok(()),
            Turn::Fail(e) => Err(e),
        };
        assert!(steps.next().is_none(), "the clone is over");
        return result;
    }
}

fn play(script: Vec<(Command, Reply)>) -> Result<(), Error> {
    play_from(clone_database_objects("t", "n"), script)
}

fn connect() -> (Command, Reply) {
    (Command::Connect { database: Some("n".to_string()) }, Reply::Done)
}

fn auto_increments(reply: Reply) -> (Command, Reply) {
    ask(Session::Secondary, LIST_AUTO_INCREMENTS, &["n"], Shape::Pairs, reply)
}

/// What comes before the views, where there is nothing.
fn no_tables() -> Vec<(Command, Reply)> {
    vec![
        connect(),
        list(LIST_TABLES, Shape::Names, names(&[])),
        auto_increments(pairs(&[])),
        list(LIST_FOREIGN_KEYS, Shape::ForeignKeys, Reply::ForeignKeys(vec![])),
    ]
}

/// What comes after the views, where there is nothing.
fn no_more() -> Vec<(Command, Reply)> {
    vec![
        list(LIST_TRIGGERS, Shape::Names, names(&[])),
        list(LIST_ROUTINES, Shape::Pairs, pairs(&[])),
        list(LIST_EVENTS, Shape::Names, names(&[])),
        (Command::Close, Reply::Done),
    ]
}

#[test]
fn empty_template_is_cloned() {
    let mut script = no_tables();
    script.push(list(LIST_VIEWS, Shape::Names, names(&[])));
    script.extend(no_more());
    assert_eq!(play(script), Ok(()));
}

#[test]
fn database_is_created_before_it_is_filled() {
    let mut script = vec![(
        Command::Execute {
            session: Session::Primary,
            sql: "CREATE DATABASE `n`".to_string(),
            params: vec![],
        },
        Reply::Done,
    )];
    script.extend(no_tables());
    script.push(list(LIST_VIEWS, Shape::Names, names(&[])));
    script.extend(no_more());
    assert_eq!(play_from(clone_database("t", "n"), script), Ok(()));
}

#[test]
fn everything_is_copied() {
    let key = ForeignKey {
        constraint_name: "fk".to_string(),
        table_name: "posts".to_string(),
        columns: "user_id".to_string(),
        referenced_table_name: "users".to_string(),
        ref_columns: "id".to_string(),
        delete_rule: "CASCADE".to_string(),
        update_rule: "NO ACTION".to_string(),
    };
    let script = vec![
        connect(),
        list(LIST_TABLES, Shape::Names, names(&["users", "posts"])),
        run("CREATE TABLE `n`.`users` LIKE `t`.`users`"),
        run("INSERT INTO `n`.`users` SELECT * FROM `t`.`users`"),
        run("CREATE TABLE `n`.`posts` LIKE `t`.`posts`"),
        run("INSERT INTO `n`.`posts` SELECT * FROM `t`.`posts`"),
        auto_increments(pairs(&[("users", "id"), ("posts", "no")])),
        ask(
            Session::Secondary,
            "SELECT MAX(`id`) FROM `n`.`users`",
            &[],
            Shape::MaybeNumber,
            Reply::MaybeNumber(Some(41)),
        ),
        run("ALTER TABLE `n`.`users` AUTO_INCREMENT = 42"),
        ask(
            Session::Secondary,
            "SELECT MAX(`no`) FROM `n`.`posts`",
            &[],
            Shape::MaybeNumber,
            Reply::MaybeNumber(None),
        ),
        run("ALTER TABLE `n`.`posts` AUTO_INCREMENT = 1"),
        list(LIST_FOREIGN_KEYS, Shape::ForeignKeys, Reply::ForeignKeys(vec![key])),
        run(
            "ALTER TABLE `n`.`posts` ADD CONSTRAINT `fk` FOREIGN KEY (`user_id`) \
             REFERENCES `users`(`id`) ON DELETE CASCADE ",
        ),
        list(LIST_VIEWS, Shape::Names, names(&["v"])),
        show("VIEW", "v", &["v", "CREATE VIEW `t`.`v` AS SELECT 1", "utf8", "utf8_bin"]),
        run("CREATE VIEW `n`.`v` AS SELECT 1"),
        list(LIST_TRIGGERS, Shape::Names, names(&["g"])),
        show("TRIGGER", "g", &["g", "", "CREATE TRIGGER `t`.`g`", "", "", "", ""]),
        run("CREATE TRIGGER `n`.`g`"),
        list(LIST_ROUTINES, Shape::Pairs, pairs(&[("p", "PROCEDURE"), ("f", "FUNCTION")])),
        show("PROCEDURE", "p", &["p", "", "CREATE PROCEDURE `t`.`p`()", "", "", ""]),
        run("CREATE PROCEDURE `n`.`p`()"),
        show("FUNCTION", "f", &["f", "", "CREATE FUNCTION t.f()", "", "", ""]),
        run("CREATE FUNCTION n.f()"),
        list(LIST_EVENTS, Shape::Names, names(&["e"])),
        show("EVENT", "e", &["e", "", "", "CREATE EVENT `t`.`e`", "", ""]),
        run("CREATE EVENT `n`.`e`"),
        (Command::Close, Reply::Done),
    ];
    assert_eq!(play(script), Ok(()));
}

fn view_rows(views: &[&str]) -> Vec<(Command, Reply)> {
    let mut script = no_tables();
    script.push(list(LIST_VIEWS, Shape::Names, names(views)));
    for view in views {
        let create = format!("CREATE VIEW `t`.`{view}`");
        script.push(show("VIEW", view, &[view, &create, "", ""]));
    }
    script
}

#[test]
fn dependent_views_are_retried_until_they_stand() {
    let mut script = view_rows(&["a", "b", "c"]);
    script.extend([
        fails("CREATE VIEW `n`.`a`"),
        fails("CREATE VIEW `n`.`b`"),
        run("CREATE VIEW `n`.`c`"),
        fails("CREATE VIEW `n`.`a`"),
        run("CREATE VIEW `n`.`b`"),
        run("CREATE VIEW `n`.`a`"),
    ]);
    script.extend(no_more());
    assert_eq!(play(script), Ok(()));
}

#[test]
fn views_that_make_no_progress_end_the_clone() {
    let mut script = view_rows(&["a", "b"]);
    script.extend([
        fails("CREATE VIEW `n`.`a`"),
        fails("CREATE VIEW `n`.`b`"),
        // Once more, for the error itself.
        fails("CREATE VIEW `n`.`a`"),
    ]);
    assert_eq!(play(script), Err(refused()));
}

#[test]
fn failure_ends_the_clone() {
    let mut script = no_tables();
    script.truncate(2);
    script[1].1 = Reply::Failed(refused());
    assert_eq!(play(script), Err(refused()));

    let mut script = no_tables();
    script.truncate(1);
    script[0].1 = Reply::Failed(refused());
    assert_eq!(play(script), Err(refused()));
}

#[test]
fn greatest_number_cannot_be_followed_up() {
    let run = clone_database_objects("t", "n");
    let replies = [Reply::Done, names(&[]), pairs(&[("x", "id")])];
    let mut run = run;
    for reply in replies {
        run = match run.resume(reply) {
            Turn::Ask(next) => next,
            other => panic!("{other:?}"),
        };
    }
    assert!(run.admits(&Reply::MaybeNumber(Some(i64::MAX - 1))));
    assert!(!run.admits(&Reply::MaybeNumber(Some(i64::MAX))));
    assert!(run.admits(&Reply::MaybeNumber(None)));
    assert!(!run.admits(&Reply::Number(1)));
}
