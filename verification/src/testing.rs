//! What a test is given and what it gives back.

use crate::migrate::{self, db_name_of_path, MigrationView, Migrator};
use crate::protocol;
use crate::text::{self, Text};
use vstd::prelude::*;

verus! {

/// SQL that fills a test's database.
#[derive(Debug)]
pub struct TestFixture {
    pub path: &'static str,
    pub contents: &'static str,
}

/// What is known of a test before it runs.
#[derive(Debug)]
pub struct TestArgs {
    pub test_path: &'static str,
    pub migrator: Option<&'static Migrator>,
    pub fixtures: &'static [TestFixture],
}

impl TestArgs {
    /// The migrations to apply, if any.
    pub open spec fn migrations(self) -> Option<Seq<MigrationView>> {
        match self.migrator {
            Some(migrator) => Some(migrator@),
            None => None,
        }
    }

    /// A test without migrations or fixtures.
    pub fn new(test_path: &'static str) -> (r: Self)
        ensures
            r.test_path == test_path,
            r.migrator is None,
            r.fixtures@ == Seq::<TestFixture>::empty(),
    {
        TestArgs { test_path, migrator: None, fixtures: &[] }
    }

    /// Sets the migrations to apply.
    pub fn migrator(&mut self, migrator: &'static Migrator)
        ensures
            *final(self) == (TestArgs { migrator: Some(migrator), ..*old(self) }),
    {
        self.migrator = Some(migrator);
    }

    /// Sets the fixtures to apply.
    pub fn fixtures(&mut self, fixtures: &'static [TestFixture])
        ensures
            *final(self) == (TestArgs { fixtures, ..*old(self) }),
    {
        self.fixtures = fixtures;
    }

    /// Whether a bare function can be run with these arguments: fixtures cannot be applied for
    /// one.
    pub fn suits_bare_function(&self) -> (r: bool)
        ensures
            r == (self.fixtures@.len() == 0),
    {
        self.fixtures.len() == 0
    }
}

/// A function that can be run as a test.
pub trait TestFn {
    type Output;

    fn run_test(self, args: TestArgs) -> Self::Output;
}

/// What a test may return.
pub trait TestTermination {
    /// Whether the test succeeded.
    spec fn succeeded(&self) -> bool;

    /// Whether the test succeeded.
    fn is_success(&self) -> (r: bool)
        ensures
            r == self.succeeded(),
    ;
}

impl TestTermination for () {
    open spec fn succeeded(&self) -> bool {
        true
    }

    fn is_success(&self) -> (r: bool) {
        true
    }
}

impl<T, E> TestTermination for Result<T, E> {
    open spec fn succeeded(&self) -> bool {
        *self is Ok
    }

    fn is_success(&self) -> (r: bool) {
        self.is_ok()
    }
}

/// A kind of database that tests can run on.
pub trait TestSupport {
    /// The making of a test's database.
    type Making;

    /// The cleanup after a test.
    type Cleanup;

    /// The cleanup of all test databases.
    type CleanupAll;

    /// Get parameters to construct a pool suitable for testing.
    ///
    /// `host` is where the master pool connects to, and `templates` whether templates are
    /// enabled. The making of the database ends with those parameters:
    /// * the pool's connections count against those of the master pool, to avoid exceeding the
    ///   connection limit on the database server.
    /// * each invocation results in a fresh temporary database.
    fn test_context(args: &TestArgs, host: ConnectOptions, templates: bool) -> Self::Making;

    /// Clean up after a test.
    fn cleanup_test(db_name: &str) -> Self::Cleanup;

    /// Cleanup any test databases that are no longer in-use.
    ///
    /// The cleanup ends with a count of the databases deleted, if possible.
    fn cleanup_test_dbs() -> Self::CleanupAll;

    /// Generate a unique database name for the given test path.
    fn db_name(args: &TestArgs) -> (r: String)
        ensures
            r@ == migrate::test_name(migrate::path_hash(args.test_path@)),
            r@.len() == 63,
            forall|i: int| 0 <= i < r@.len() ==> migrate::is_name_char(#[trigger] r@[i]),
    {
        db_name_of_path(args.test_path)
    }
}

// ---------------------------------------------------------------------------
// Connections

/// Where connections go to.
#[derive(Debug, PartialEq, Eq)]
pub struct ConnectOptions {
    pub host: String,
    pub database: Option<String>,
}

/// The model of [`ConnectOptions`].
pub struct ConnectOptionsView {
    pub host: Text,
    pub database: Option<Text>,
}

impl View for ConnectOptions {
    type V = ConnectOptionsView;

    open spec fn view(&self) -> ConnectOptionsView {
        ConnectOptionsView { host: self.host@, database: protocol::maybe_text(self.database) }
    }
}

impl ConnectOptions {
    /// The same server, but the database `name`.
    pub fn database(&self, name: &str) -> (r: ConnectOptions)
        ensures
            r@ == (ConnectOptionsView { host: self@.host, database: Some(name@) }),
    {
        ConnectOptions { host: self.host.clone(), database: Some(String::from_str(name)) }
    }
}

/// How the options of a process's first pool and those asked for later contradict each other.
#[derive(Clone, Copy, Debug, PartialEq, Eq, Structural)]
pub enum PoolConflict {
    Host,
    Database,
}

/// The configured URL must not change at runtime: checks the options that are asked for against
/// those of the pool that exists, the host first.
pub fn pool_conflict(existing: &ConnectOptions, asked: &ConnectOptions) -> (r: Option<
    PoolConflict,
>)
    ensures
        r == (if existing@.host != asked@.host {
            Some(PoolConflict::Host)
        } else if existing@.database != asked@.database {
            Some(PoolConflict::Database)
        } else {
            None
        }),
{
    if !text::same_text(existing.host.as_str(), asked.host.as_str()) {
        return Some(PoolConflict::Host);
    }
    let same = match (&existing.database, &asked.database) {
        (Some(a), Some(b)) => text::same_text(a.as_str(), b.as_str()),
        (None, None) => true,
        _ => false,
    };
    if same {
        None
    } else {
        Some(PoolConflict::Database)
    }
}

/// How a pool of connections is kept.
#[derive(Clone, Copy, Debug, PartialEq, Eq, Structural)]
pub struct PoolOptions {
    pub max_connections: u32,
    /// After how many seconds an idle connection is closed, where that is set.
    pub idle_timeout_secs: Option<u64>,
    /// Whether a connection that is given back is closed at once.
    pub close_released: bool,
    /// Whether the pool's connections count against those of the master pool.
    pub counts_against_master: bool,
}

/// The pool that databases are managed with.
pub fn master_pool_options() -> (r: PoolOptions)
    ensures
        r == (PoolOptions {
            max_connections: 20,
            idle_timeout_secs: None,
            close_released: true,
            counts_against_master: false,
        }),
{
    PoolOptions {
        // MySql's normal connection limit is 150 plus 1 superuser connection
        // We don't want to use the whole cap and there may be fuzziness here due to
        // concurrently running tests anyway.
        max_connections: 20,
        idle_timeout_secs: None,
        // Immediately close master connections. I/O streams don't like hopping runtimes.
        close_released: true,
        counts_against_master: false,
    }
}

/// The options of a test's pool.
pub open spec fn test_pool() -> PoolOptions {
    PoolOptions {
        max_connections: 5,
        idle_timeout_secs: Some(1),
        close_released: false,
        counts_against_master: true,
    }
}

/// The pool that a test runs with.
pub fn test_pool_options() -> (r: PoolOptions)
    ensures
        r == test_pool(),
{
    PoolOptions {
        // Don't allow a single test to take all the connections.
        // Most tests shouldn't require more than 5 connections concurrently,
        // or else they're likely doing too much in one test.
        max_connections: 5,
        // Close connections ASAP if left in the idle queue.
        idle_timeout_secs: Some(1),
        close_released: false,
        counts_against_master: true,
    }
}

/// The database that a test runs on.
#[derive(Debug, PartialEq, Eq)]
pub struct TestContext {
    pub pool_opts: PoolOptions,
    pub connect_opts: ConnectOptions,
    pub db_name: String,
    /// Whether this test database was created from a template.
    /// When true, migrations have already been applied and should be skipped.
    pub from_template: bool,
}

/// The model of a [`TestContext`].
pub struct TestContextView {
    pub pool_opts: PoolOptions,
    pub connect_opts: ConnectOptionsView,
    pub db_name: Text,
    pub from_template: bool,
}

impl View for TestContext {
    type V = TestContextView;

    open spec fn view(&self) -> TestContextView {
        TestContextView {
            pool_opts: self.pool_opts,
            connect_opts: self.connect_opts@,
            db_name: self.db_name@,
            from_template: self.from_template,
        }
    }
}

} // verus!
