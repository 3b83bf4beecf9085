//! The search for a template.

use sqlx_testing::migrate::{
    migrations_hash, template_db_name, Migration, MigrationType, Migrator,
};
use sqlx_testing::protocol::{Command, Error, Reply, Session, Shape, Turn};
use sqlx_testing::template::{
    get_or_create_template, templates_enabled, TemplateLockGuard, TemplateReport, TemplateRun,
    SQLX_TEST_TEMPLATE,
};

fn migrator() -> Migrator {
    Migrator {
        migrations: vec![Migration {
            version: 1,
            migration_type: MigrationType::Simple,
            checksum: vec![1, 2, 3],
        }],
    }
}

fn hash() -> String {
    migrations_hash(&migrator())
}

fn tpl_name() -> String {
    template_db_name(&hash())
}

fn execute(session: Session, sql: &str, params: &[&str]) -> Command {
    Command::Execute {
        session,
        sql: sql.to_string(),
        params: params.iter().map(|p| p.to_string()).collect(),
    }
}

fn fetch(session: Session, sql: &str, params: &[&str], shape: Shape) -> Command {
    Command::Fetch {
        session,
        sql: sql.to_string(),
        params: params.iter().map(|p| p.to_string()).collect(),
        shape,
    }
}

fn lost() -> Error {
    Error::Other("connection lost".to_string())
}

fn start() -> TemplateRun {
    get_or_create_template(true, &migrator()).expect("templates are enabled")
}

/// Plays a conversation and says how it ended.
fn play(script: Vec<(Command, Reply)>) -> TemplateReport {
    let mut run = start();
    let mut steps = script.into_iter();
    loop {
        let (command, reply) = steps.next().expect("the search goes on");
        assert_eq!(run.command(), command);
        assert!(run.admits(&reply));
        match run.resume(reply) {
            Turn::Ask(next) => run = next,
            Turn::Done(report) => {
                assert!(steps.next().is_none(), "the search is over");
                return report;
            }
            Turn::Fail(e) => panic!("{e:?}"),
        }
    }
}

fn locked() -> Vec<(Command, Reply)> {
    vec![
        (
            fetch(
                Session::Primary,
                "SELECT GET_LOCK(?, 300)",
                &["sqlx_template_lock"],
                Shape::MaybeNumber,
            ),
            Reply::MaybeNumber(Some(1)),
        ),
        (
            execute(
                Session::Primary,
                r#"
        CREATE TABLE IF NOT EXISTS _sqlx_test_templates (
            template_name VARCHAR(255) PRIMARY KEY,
            migrations_hash VARCHAR(64) NOT NULL,
            created_at TIMESTAMP NOT NULL DEFAULT CURRENT_TIMESTAMP,
            last_used_at TIMESTAMP NOT NULL DEFAULT CURRENT_TIMESTAMP ON UPDATE CURRENT_TIMESTAMP,
            UNIQUE KEY (migrations_hash)
        )
        "#,
                &[],
            ),
            Reply::Done,
        ),
    ]
}

fn looked_up(found: Option<&str>) -> (Command, Reply) {
    (
        fetch(
            Session::Primary,
            "SELECT template_name FROM _sqlx_test_templates WHERE migrations_hash = ?",
            &[&hash()],
            Shape::MaybeName,
        ),
        Reply::MaybeName(found.map(|f| f.to_string())),
    )
}

fn created() -> Vec<(Command, Reply)> {
    vec![
        looked_up(None),
        (
            execute(
                Session::Primary,
                &format!("CREATE DATABASE IF NOT EXISTS `{}`", tpl_name()),
                &[],
            ),
            Reply::Done,
        ),
        (Command::Connect { database: Some(tpl_name()) }, Reply::Done),
    ]
}

fn counted(reply: Reply) -> (Command, Reply) {
    (
        fetch(
            Session::Secondary,
            "SELECT COUNT(*) FROM _sqlx_migrations",
            &[],
            Shape::Number,
        ),
        reply,
    )
}

fn release(reply: Reply) -> (Command, Reply) {
    (
        execute(Session::Primary, "SELECT RELEASE_LOCK(?)", &["sqlx_template_lock"]),
        reply,
    )
}

fn registered() -> Vec<(Command, Reply)> {
    vec![
        (Command::Close, Reply::Done),
        (
            execute(
                Session::Primary,
                "INSERT IGNORE INTO _sqlx_test_templates (template_name, migrations_hash) VALUES (?, ?)",
                &[&tpl_name(), &hash()],
            ),
            Reply::Done,
        ),
        release(Reply::Done),
    ]
}

fn touched(found: &str, reply: Reply) -> (Command, Reply) {
    (
        execute(
            Session::Primary,
            "UPDATE _sqlx_test_templates SET last_used_at = CURRENT_TIMESTAMP WHERE template_name = ?",
            &[found],
        ),
        reply,
    )
}

#[test]
fn templates_enabled_returns_false_by_default() {
    assert!(!templates_enabled(None), "templates should be disabled by default");
}

#[test]
fn templates_enabled_returns_true_when_env_set() {
    assert!(templates_enabled(Some("1")), "templates should be enabled when env var is set");
    assert_eq!(SQLX_TEST_TEMPLATE, "SQLX_TEST_TEMPLATE");
}

#[test]
fn templates_enabled_accepts_any_value() {
    // Any value should enable templates
    assert!(templates_enabled(Some("true")));
    assert!(templates_enabled(Some("yes")));
    assert!(templates_enabled(Some("")), "even empty string should enable templates");
}

#[test]
fn no_search_without_templates() {
    assert!(get_or_create_template(false, &migrator()).is_none());
}

#[test]
fn known_template_is_reused() {
    let mut script = locked();
    script.push(looked_up(Some("some_template")));
    script.push(touched("some_template", Reply::Done));
    script.push(release(Reply::Done));
    let report = play(script);
    assert_eq!(report.result, Ok("some_template".to_string()));
    assert_eq!(report.lock, Some(TemplateLockGuard { released: true }));
}

#[test]
fn fresh_template_is_migrated_and_registered() {
    let refused = Reply::Failed(Error::Database { number: 1146, message: "none".to_string() });
    for count in [Reply::Number(0), refused] {
        let mut script = locked();
        script.extend(created());
        script.push(counted(count));
        script.push((Command::Migrate { hash: hash() }, Reply::Done));
        script.extend(registered());
        let report = play(script);
        assert_eq!(report.result, Ok(tpl_name()));
        assert_eq!(report.lock, Some(TemplateLockGuard { released: true }));
    }
}

#[test]
fn leftover_template_is_only_registered() {
    let mut script = locked();
    script.extend(created());
    script.push(counted(Reply::Number(3)));
    script.extend(registered());
    assert_eq!(play(script).result, Ok(tpl_name()));
}

#[test]
fn failed_migrations_are_cleaned_up() {
    let fails = || Reply::Failed(lost());
    for (closed, dropped, given_up) in
        [(Reply::Done, Reply::Done, Reply::Done), (fails(), fails(), fails())]
    {
        let mut script = locked();
        script.extend(created());
        script.push(counted(Reply::Number(0)));
        let bad = Error::Database { number: 1064, message: "bad syntax".to_string() };
        script.push((Command::Migrate { hash: hash() }, Reply::Failed(bad)));
        script.push((Command::Close, closed));
        script.push((
            execute(
                Session::Primary,
                &format!("DROP DATABASE IF EXISTS `{}`", tpl_name()),
                &[],
            ),
            dropped,
        ));
        script.push(release(given_up));
        let report = play(script);
        assert_eq!(
            report.result,
            Err(Error::Protocol(
                "Failed to apply migrations to template: bad syntax".to_string()
            ))
        );
        assert_eq!(report.lock, Some(TemplateLockGuard { released: true }));
    }
}

#[test]
fn lock_that_is_refused_ends_the_search() {
    for (answer, shown) in [
        (Some(0), "Some(0)"),
        (Some(-1), "Some(-1)"),
        (Some(2), "Some(2)"),
        (None, "None"),
    ] {
        let mut script = locked();
        script.truncate(1);
        script[0].1 = Reply::MaybeNumber(answer);
        let report = play(script);
        assert_eq!(
            report.result,
            Err(Error::Protocol(format!(
                "Failed to acquire template lock, GET_LOCK returned: {shown}"
            )))
        );
        assert_eq!(report.lock, None);
    }
}

#[test]
fn lock_that_fails_ends_the_search() {
    let mut script = locked();
    script.truncate(1);
    script[0].1 = Reply::Failed(lost());
    let report = play(script);
    assert_eq!(report.result, Err(lost()));
    assert_eq!(report.lock, None);
}

#[test]
fn failure_under_the_lock_leaves_it_unreleased() {
    let unreleased = Some(TemplateLockGuard { released: false });

    let mut script = locked();
    script[1].1 = Reply::Failed(lost());
    let report = play(script);
    assert_eq!(report.result, Err(lost()));
    assert_eq!(report.lock, unreleased);
    assert!(report.lock.unwrap().left_locked());

    // Each step of making a template, from the lookup to the registration.
    for failing in 2..9 {
        let mut script = locked();
        script.extend(created());
        script.push(counted(Reply::Number(1)));
        script.extend(registered());
        if failing == 5 {
            // A failed count is no failure of the search.
            continue;
        }
        script.truncate(failing + 1);
        script[failing].1 = Reply::Failed(lost());
        let report = play(script);
        assert_eq!(report.result, Err(lost()));
        assert_eq!(report.lock, unreleased);
    }

    let mut script = locked();
    script.push(looked_up(Some("x")));
    script.push(touched("x", Reply::Failed(lost())));
    let report = play(script);
    assert_eq!(report.result, Err(lost()));
    assert_eq!(report.lock, unreleased);
}

#[test]
fn guard_tracks_the_release() {
    let guard = TemplateLockGuard::acquire(Some(1)).unwrap();
    assert!(guard.left_locked());
    assert_eq!(guard.release(Reply::Done), (TemplateLockGuard { released: true }, None));
    assert_eq!(guard.release(Reply::Failed(lost())), (guard, Some(lost())));
    assert!(!guard.release_ignore_errors().left_locked());
}

#[test]
fn replies_of_another_shape_are_not_admitted() {
    let run = start();
    assert!(!run.admits(&Reply::Done));
    assert!(!run.admits(&Reply::Number(1)));
    assert!(run.admits(&Reply::MaybeNumber(None)));
    assert!(run.admits(&Reply::Failed(lost())));
}
