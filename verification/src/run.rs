//! Running a test: its database is made and filled, the test is called, and the database of a
//! test that succeeds is removed again.

use crate::cleanup::{CleanupRun, CleanupStage, CleanupView};
use crate::context::{self, ContextRun, ContextView, Prepared, PreparedView};
use crate::migrate::{self, migrations_hash, MigrationView};
use crate::mysql::MySql;
use crate::protocol::{
    self, execute_command, Command, CommandView, Error, ErrorView, Reply, ReplyView, Session,
    Turn, TurnView,
};
use crate::template::TemplateLockGuard;
use crate::testing::{self, ConnectOptions, TestArgs, TestFixture, TestSupport, TestTermination};
use crate::text::Text;
use vstd::prelude::*;

verus! {

// ---------------------------------------------------------------------------
// Filling the database

/// Why a test's database could not be set up.
#[derive(Debug, PartialEq, Eq)]
pub enum SetupError {
    Connect(Error),
    Migrate(Error),
    Fixture { path: &'static str, error: Error },
    Close(Error),
}

/// The model of a [`SetupError`].
pub enum SetupErrorView {
    Connect(ErrorView),
    Migrate(ErrorView),
    Fixture { path: Text, error: ErrorView },
    Close(ErrorView),
}

impl View for SetupError {
    type V = SetupErrorView;

    open spec fn view(&self) -> SetupErrorView {
        match self {
            SetupError::Connect(e) => SetupErrorView::Connect(e@),
            SetupError::Migrate(e) => SetupErrorView::Migrate(e@),
            SetupError::Fixture { path, error } => SetupErrorView::Fixture {
                path: path@,
                error: error@,
            },
            SetupError::Close(e) => SetupErrorView::Close(e@),
        }
    }
}

/// How far the setup of a test's database has come.
#[derive(Debug, PartialEq, Eq)]
pub enum SetupStage {
    Connecting,
    /// Apply the migrations with that hash.
    Migrating { hash: String },
    /// Apply the fixture at `index`.
    Filling { index: usize },
    Closing,
}

/// The model of a [`SetupStage`].
pub enum SetupStageView {
    Connecting,
    Migrating { hash: Text },
    Filling { index: int },
    Closing,
}

impl View for SetupStage {
    type V = SetupStageView;

    open spec fn view(&self) -> SetupStageView {
        match self {
            SetupStage::Connecting => SetupStageView::Connecting,
            SetupStage::Migrating { hash } => SetupStageView::Migrating { hash: hash@ },
            SetupStage::Filling { index } => SetupStageView::Filling { index: *index as int },
            SetupStage::Closing => SetupStageView::Closing,
        }
    }
}

/// The setup of a test's database, in progress.
#[derive(Debug)]
pub struct SetupRun {
    database: Option<String>,
    /// The hash of the migrations that are to be applied, if any.
    migrations: Option<String>,
    fixtures: &'static [TestFixture],
    stage: SetupStage,
}

/// The model of a [`SetupRun`].
pub struct SetupView {
    pub database: Option<Text>,
    pub migrations: Option<Text>,
    pub fixtures: Seq<TestFixture>,
    pub stage: SetupStageView,
}

impl View for SetupRun {
    type V = SetupView;

    closed spec fn view(&self) -> SetupView {
        SetupView {
            database: protocol::maybe_text(self.database),
            migrations: protocol::maybe_text(self.migrations),
            fixtures: self.fixtures@,
            stage: self.stage@,
        }
    }
}

/// Where a setup stands after a reply.
#[derive(Debug)]
pub enum SetupTurn {
    Ask(SetupRun),
    Done,
    Fail(SetupError),
}

/// The model of a [`SetupTurn`].
pub enum SetupTurnView {
    Ask(SetupView),
    Done,
    Fail(SetupErrorView),
}

impl View for SetupTurn {
    type V = SetupTurnView;

    open spec fn view(&self) -> SetupTurnView {
        match self {
            SetupTurn::Ask(run) => SetupTurnView::Ask(run@),
            SetupTurn::Done => SetupTurnView::Done,
            SetupTurn::Fail(e) => SetupTurnView::Fail(e@),
        }
    }
}

/// The stage at which the fixture at `index` is applied, where there is one left.
pub open spec fn filling(fixtures: Seq<TestFixture>, index: int) -> SetupStageView {
    if index < fixtures.len() {
        SetupStageView::Filling { index }
    } else {
        SetupStageView::Closing
    }
}

impl SetupView {
    /// The next command.
    pub open spec fn command(self) -> CommandView {
        match self.stage {
            SetupStageView::Connecting => CommandView::Connect { database: self.database },
            SetupStageView::Migrating { hash } => CommandView::Migrate { hash },
            SetupStageView::Filling { index } => protocol::execute(
                Session::Secondary,
                self.fixtures[index].contents@,
            ),
            SetupStageView::Closing => CommandView::Close,
        }
    }

    /// What it means that the next command fails.
    pub open spec fn failure(self, error: ErrorView) -> SetupErrorView {
        match self.stage {
            SetupStageView::Connecting => SetupErrorView::Connect(error),
            SetupStageView::Migrating { hash } => SetupErrorView::Migrate(error),
            SetupStageView::Filling { index } => SetupErrorView::Fixture {
                path: self.fixtures[index].path@,
                error,
            },
            SetupStageView::Closing => SetupErrorView::Close(error),
        }
    }

    /// The setup goes on with `stage`.
    pub open spec fn at(self, stage: SetupStageView) -> SetupTurnView {
        SetupTurnView::Ask(SetupView { stage, ..self })
    }

    /// Where the setup stands after `reply`.
    pub open spec fn next(self, reply: ReplyView) -> SetupTurnView {
        match reply {
            ReplyView::Failed(e) => SetupTurnView::Fail(self.failure(e)),
            _ => match self.stage {
                SetupStageView::Connecting => self.at(
                    match self.migrations {
                        Some(hash) => SetupStageView::Migrating { hash },
                        None => filling(self.fixtures, 0),
                    },
                ),
                SetupStageView::Migrating { hash } => self.at(filling(self.fixtures, 0)),
                SetupStageView::Filling { index } => self.at(filling(self.fixtures, index + 1)),
                SetupStageView::Closing => SetupTurnView::Done,
            },
        }
    }
}

/// The hash of the migrations that are applied to a test's database: those that the test has,
/// unless the database was cloned from a template.
pub open spec fn to_apply(
    migrations: Option<Seq<MigrationView>>,
    from_template: bool,
) -> Option<Text> {
    match migrations {
        Some(migrations) if !from_template => Some(migrate::hash_text(migrations)),
        _ => None,
    }
}

/// Apply a test's migrations and fixtures to its database.
///
/// Migrations are skipped if the database was cloned from a template: they were already applied
/// to the template.
pub fn setup_test_db(copts: &ConnectOptions, args: &TestArgs, from_template: bool) -> (r: SetupRun)
    ensures
        r@ == (SetupView {
            database: copts@.database,
            migrations: to_apply(args.migrations(), from_template),
            fixtures: args.fixtures@,
            stage: SetupStageView::Connecting,
        }),
        r@.migrations is Some <==> args.migrator is Some && !from_template,
        r@.migrations is Some ==> r@.migrations->0 == migrate::hash_text(args.migrator->0@),
{
    let database = match &copts.database {
        Some(name) => Some(name.clone()),
        None => None,
    };
    let migrations = match args.migrator {
        Some(migrator) if !from_template => Some(migrations_hash(migrator)),
        _ => None,
    };
    SetupRun {
        database,
        migrations,
        fixtures: args.fixtures,
        stage: SetupStage::Connecting,
    }
}

fn first_filling(fixtures: &[TestFixture]) -> (r: SetupStage)
    ensures
        r@ == filling(fixtures@, 0),
{
    if fixtures.len() > 0 {
        SetupStage::Filling { index: 0 }
    } else {
        SetupStage::Closing
    }
}

impl SetupRun {
    /// A stage that speaks of a fixture speaks of one that there is.
    #[verifier::type_invariant]
    spec fn in_bounds(self) -> bool {
        self.stage matches SetupStage::Filling { index } ==> index < self.fixtures@.len()
    }

    /// The next command.
    pub fn command(&self) -> (r: Command)
        ensures
            r@ == self@.command(),
    {
        proof {
            use_type_invariant(self);
        }
        match &self.stage {
            SetupStage::Connecting => Command::Connect {
                database: match &self.database {
                    Some(name) => Some(name.clone()),
                    None => None,
                },
            },
            SetupStage::Migrating { hash } => Command::Migrate { hash: hash.clone() },
            SetupStage::Filling { index } => execute_command(
                Session::Secondary,
                String::from_str(self.fixtures[*index].contents),
            ),
            SetupStage::Closing => Command::Close,
        }
    }

    /// Goes on from the reply to the last command.
    pub fn resume(self, reply: Reply) -> (r: SetupTurn)
        requires
            self@.command().answered_by(reply@),
        ensures
            r@ == self@.next(reply@),
    {
        proof {
            use_type_invariant(&self);
        }
        let SetupRun { database, migrations, fixtures, stage } = self;
        let stage = match (stage, reply) {
            (SetupStage::Connecting, Reply::Failed(e)) => {
                return SetupTurn::Fail(SetupError::Connect(e));
            },
            (SetupStage::Migrating { hash: _ }, Reply::Failed(e)) => {
                return SetupTurn::Fail(SetupError::Migrate(e));
            },
            (SetupStage::Filling { index }, Reply::Failed(error)) => {
                return SetupTurn::Fail(
                    SetupError::Fixture { path: fixtures[index].path, error },
                );
            },
            (SetupStage::Closing, Reply::Failed(e)) => {
                return SetupTurn::Fail(SetupError::Close(e));
            },
            (SetupStage::Connecting, _) => match &migrations {
                Some(hash) => SetupStage::Migrating { hash: hash.clone() },
                None => first_filling(fixtures),
            },
            (SetupStage::Migrating { hash: _ }, _) => first_filling(fixtures),
            (SetupStage::Filling { index }, _) => if index < fixtures.len() - 1 {
                SetupStage::Filling { index: index + 1 }
            } else {
                SetupStage::Closing
            },
            (SetupStage::Closing, _) => {
                return SetupTurn::Done;
            },
        };
        SetupTurn::Ask(SetupRun { database, migrations, fixtures, stage })
    }
}

// ---------------------------------------------------------------------------
// The whole of a test

/// What a test's function is called with.
#[derive(Clone, Copy, Debug, PartialEq, Eq, Structural)]
pub enum TestKind {
    /// A pool of connections to its database.
    Pool,
    /// One connection out of such a pool.
    Connection,
    /// The options to open such a pool with.
    Options,
}

/// How many seconds a test's pool has for closing.
pub const CLOSE_LIMIT_SECS: u64 = 10;

/// The next thing to do for a test.
#[derive(Debug, PartialEq, Eq)]
pub enum Action {
    /// Have the database server do something.
    Ask(Command),
    /// Open the test's pool.
    OpenPool,
    /// Take a connection from the test's pool.
    TakeConnection,
    /// Call the test.
    Call,
    /// Close the test's pool, where a limit is set within that many seconds.
    ClosePool { limit_secs: Option<u64> },
}

/// The model of an [`Action`].
pub enum ActionView {
    Ask(CommandView),
    OpenPool,
    TakeConnection,
    Call,
    ClosePool { limit_secs: Option<u64> },
}

impl View for Action {
    type V = ActionView;

    open spec fn view(&self) -> ActionView {
        match self {
            Action::Ask(command) => ActionView::Ask(command@),
            Action::OpenPool => ActionView::OpenPool,
            Action::TakeConnection => ActionView::TakeConnection,
            Action::Call => ActionView::Call,
            Action::ClosePool { limit_secs } => ActionView::ClosePool { limit_secs: *limit_secs },
        }
    }
}

/// What came of an action.
#[derive(Debug, PartialEq, Eq)]
pub enum Event<R> {
    /// What the server replied.
    Replied(Reply),
    /// The pool is open, or the connection was taken.
    Opened,
    /// The pool could not be opened, or no connection taken.
    Refused(Error),
    /// The test returned.
    Returned(R),
    /// The pool was closed.
    Closed,
    /// The pool was not closed within the limit.
    TimedOut,
}

/// The model of an [`Event`].
pub enum EventView<R> {
    Replied(ReplyView),
    Opened,
    Refused(ErrorView),
    Returned(R),
    Closed,
    TimedOut,
}

impl<R> View for Event<R> {
    type V = EventView<R>;

    open spec fn view(&self) -> EventView<R> {
        match self {
            Event::Replied(reply) => EventView::Replied(reply@),
            Event::Opened => EventView::Opened,
            Event::Refused(e) => EventView::Refused(e@),
            Event::Returned(result) => EventView::Returned(*result),
            Event::Closed => EventView::Closed,
            Event::TimedOut => EventView::TimedOut,
        }
    }
}

/// Why a test could not be run.
#[derive(Debug, PartialEq, Eq)]
pub enum TestFailure {
    /// Its database could not be made.
    Context(Error),
    /// Its database could not be set up.
    Setup(SetupError),
    /// Its pool could not be opened.
    Pool(Error),
    /// No connection could be taken from its pool.
    Connection(Error),
}

/// The model of a [`TestFailure`].
pub enum TestFailureView {
    Context(ErrorView),
    Setup(SetupErrorView),
    Pool(ErrorView),
    Connection(ErrorView),
}

impl View for TestFailure {
    type V = TestFailureView;

    open spec fn view(&self) -> TestFailureView {
        match self {
            TestFailure::Context(e) => TestFailureView::Context(e@),
            TestFailure::Setup(e) => TestFailureView::Setup(e@),
            TestFailure::Pool(e) => TestFailureView::Pool(e@),
            TestFailure::Connection(e) => TestFailureView::Connection(e@),
        }
    }
}

impl TestFailureView {
    /// What failed, in words.
    pub open spec fn what(self) -> Text {
        match self {
            TestFailureView::Context(_) => "failed to connect to setup test database"@,
            TestFailureView::Setup(SetupErrorView::Connect(_)) =>
                "failed to connect to test database"@,
            TestFailureView::Setup(SetupErrorView::Migrate(_)) => "failed to apply migrations"@,
            TestFailureView::Setup(SetupErrorView::Fixture { path, error }) =>
                "failed to apply test fixture"@,
            TestFailureView::Setup(SetupErrorView::Close(_)) =>
                "failed to close setup connection"@,
            TestFailureView::Pool(_) => "failed to connect test pool"@,
            TestFailureView::Connection(_) => "failed to acquire test pool connection"@,
        }
    }
}

impl TestFailure {
    /// What failed, in words.
    pub fn what(&self) -> (r: &'static str)
        ensures
            r@ == self@.what(),
    {
        match self {
            TestFailure::Context(_) => "failed to connect to setup test database",
            TestFailure::Setup(SetupError::Connect(_)) => "failed to connect to test database",
            TestFailure::Setup(SetupError::Migrate(_)) => "failed to apply migrations",
            TestFailure::Setup(SetupError::Fixture { path: _, error: _ }) =>
                "failed to apply test fixture",
            TestFailure::Setup(SetupError::Close(_)) => "failed to close setup connection",
            TestFailure::Pool(_) => "failed to connect test pool",
            TestFailure::Connection(_) => "failed to acquire test pool connection",
        }
    }
}

/// A test that was run.
#[derive(Debug, PartialEq, Eq)]
pub struct TestEnd<R> {
    /// What the test returned.
    pub result: R,
    /// Whether the test held onto its pool after exiting.
    pub held_pool: bool,
    /// Why the test's database could not be deleted, if that was tried and failed.
    pub cleanup_error: Option<Error>,
}

/// The model of a [`TestEnd`].
pub struct TestEndView<R> {
    pub result: R,
    pub held_pool: bool,
    pub cleanup_error: Option<ErrorView>,
}

impl<R> View for TestEnd<R> {
    type V = TestEndView<R>;

    open spec fn view(&self) -> TestEndView<R> {
        TestEndView {
            result: self.result,
            held_pool: self.held_pool,
            cleanup_error: match self.cleanup_error {
                Some(e) => Some(e@),
                None => None,
            },
        }
    }
}

/// How far a test has come.
#[derive(Debug)]
pub enum TestStage<R> {
    /// Make its database.
    Preparing(ContextRun),
    /// Fill its database.
    SettingUp(SetupRun),
    OpeningPool,
    TakingConnection,
    Calling,
    /// Wait for the pool that the test had a connection of.
    Draining(R),
    ClosingPool(R),
    /// Delete its database.
    CleaningUp(R, CleanupRun),
}

/// The model of a [`TestStage`].
pub enum TestStageView<R> {
    Preparing(ContextView),
    SettingUp(SetupView),
    OpeningPool,
    TakingConnection,
    Calling,
    Draining(R),
    ClosingPool(R),
    CleaningUp(R, CleanupView),
}

impl<R> View for TestStage<R> {
    type V = TestStageView<R>;

    open spec fn view(&self) -> TestStageView<R> {
        match self {
            TestStage::Preparing(run) => TestStageView::Preparing(run@),
            TestStage::SettingUp(run) => TestStageView::SettingUp(run@),
            TestStage::OpeningPool => TestStageView::OpeningPool,
            TestStage::TakingConnection => TestStageView::TakingConnection,
            TestStage::Calling => TestStageView::Calling,
            TestStage::Draining(result) => TestStageView::Draining(*result),
            TestStage::ClosingPool(result) => TestStageView::ClosingPool(*result),
            TestStage::CleaningUp(result, run) => TestStageView::CleaningUp(*result, run@),
        }
    }
}

/// A test that is being run.
#[derive(Debug)]
pub struct TestRun<R> {
    kind: TestKind,
    args: TestArgs,
    /// The test's database, once it is made.
    prepared: Option<Prepared>,
    held_pool: bool,
    stage: TestStage<R>,
}

/// The model of a [`TestRun`].
pub struct TestView<R> {
    pub kind: TestKind,
    pub test_path: Text,
    pub migrations: Option<Seq<MigrationView>>,
    pub fixtures: Seq<TestFixture>,
    pub prepared: Option<PreparedView>,
    pub held_pool: bool,
    pub stage: TestStageView<R>,
}

impl<R> View for TestRun<R> {
    type V = TestView<R>;

    closed spec fn view(&self) -> TestView<R> {
        TestView {
            kind: self.kind,
            test_path: self.args.test_path@,
            migrations: self.args.migrations(),
            fixtures: self.args.fixtures@,
            prepared: match self.prepared {
                Some(prepared) => Some(prepared@),
                None => None,
            },
            held_pool: self.held_pool,
            stage: self.stage@,
        }
    }
}

/// Where a test stands after an event.
#[derive(Debug)]
pub enum TestTurn<R> {
    Go(TestRun<R>),
    Done(TestEnd<R>),
    Fail(TestFailure),
}

/// The model of a [`TestTurn`].
pub enum TestTurnView<R> {
    Go(TestView<R>),
    Done(TestEndView<R>),
    Fail(TestFailureView),
}

impl<R> View for TestTurn<R> {
    type V = TestTurnView<R>;

    open spec fn view(&self) -> TestTurnView<R> {
        match self {
            TestTurn::Go(run) => TestTurnView::Go(run@),
            TestTurn::Done(end) => TestTurnView::Done(end@),
            TestTurn::Fail(e) => TestTurnView::Fail(e@),
        }
    }
}

impl<R: TestTermination> TestView<R> {
    /// The next action.
    pub open spec fn action(self) -> ActionView {
        match self.stage {
            TestStageView::Preparing(run) => ActionView::Ask(run.command()),
            TestStageView::SettingUp(run) => ActionView::Ask(run.command()),
            TestStageView::OpeningPool => ActionView::OpenPool,
            TestStageView::TakingConnection => ActionView::TakeConnection,
            TestStageView::Calling => ActionView::Call,
            TestStageView::Draining(_) => ActionView::ClosePool { limit_secs: None },
            TestStageView::ClosingPool(_) => ActionView::ClosePool {
                limit_secs: Some(CLOSE_LIMIT_SECS),
            },
            TestStageView::CleaningUp(_, run) => ActionView::Ask(run.command()),
        }
    }

    /// Whether the test can go on from `event`: it is something that can come of the next
    /// action.
    pub open spec fn admits(self, event: EventView<R>) -> bool {
        match (self.stage, event) {
            (TestStageView::Preparing(run), EventView::Replied(reply)) => run.admits(reply),
            (TestStageView::SettingUp(run), EventView::Replied(reply)) =>
                run.command().answered_by(reply),
            (TestStageView::OpeningPool, EventView::Opened) => true,
            (TestStageView::OpeningPool, EventView::Refused(_)) => true,
            (TestStageView::TakingConnection, EventView::Opened) => true,
            (TestStageView::TakingConnection, EventView::Refused(_)) => true,
            (TestStageView::Calling, EventView::Returned(_)) => true,
            (TestStageView::Draining(_), EventView::Closed) => true,
            (TestStageView::ClosingPool(_), EventView::Closed) => true,
            (TestStageView::ClosingPool(_), EventView::TimedOut) => true,
            (TestStageView::CleaningUp(_, run), EventView::Replied(reply)) =>
                run.command().answered_by(reply),
            _ => false,
        }
    }

    /// The test goes on with `stage`.
    pub open spec fn at(self, stage: TestStageView<R>) -> TestTurnView<R> {
        TestTurnView::Go(TestView { stage, ..self })
    }

    /// The test is over.
    pub open spec fn over(self, result: R, cleanup_error: Option<ErrorView>) -> TestTurnView<R> {
        TestTurnView::Done(TestEndView { result, held_pool: self.held_pool, cleanup_error })
    }

    /// The name of the test's database.
    pub open spec fn db_name(self) -> Text {
        migrate::test_name(migrate::path_hash(self.test_path))
    }

    /// Whether the database that was made is the test's own, and the pool's options are those
    /// of a test's pool on it.
    pub open spec fn has_own_database(self) -> bool {
        match self.prepared {
            Some(prepared) => {
                &&& prepared.context.db_name == self.db_name()
                &&& prepared.context.connect_opts.database == Some(self.db_name())
                &&& prepared.context.pool_opts == testing::test_pool()
            },
            None => false,
        }
    }

    /// Whether the database that is being made, or was made, is the test's own.
    pub open spec fn well_formed(self) -> bool {
        match self.stage {
            TestStageView::Preparing(making) => making.db_name == self.db_name(),
            _ => self.has_own_database(),
        }
    }

    /// The database is made: what it takes to fill it is known.
    pub open spec fn made(self, prepared: PreparedView) -> TestTurnView<R> {
        TestTurnView::Go(
            TestView {
                prepared: Some(prepared),
                stage: TestStageView::SettingUp(
                    SetupView {
                        database: prepared.context.connect_opts.database,
                        migrations: to_apply(
                            self.migrations,
                            prepared.context.from_template,
                        ),
                        fixtures: self.fixtures,
                        stage: SetupStageView::Connecting,
                    },
                ),
                ..self
            },
        )
    }

    /// The database is filled: the test is called, with a pool or without.
    pub open spec fn filled(self) -> TestTurnView<R> {
        self.at(
            match self.kind {
                TestKind::Options => TestStageView::Calling,
                _ => TestStageView::OpeningPool,
            },
        )
    }

    /// The test is through: the database of one that succeeded is deleted.
    pub open spec fn finished(self, result: R) -> TestTurnView<R> {
        if result.succeeded() {
            self.at(
                TestStageView::CleaningUp(
                    result,
                    CleanupView { db_name: self.db_name(), stage: CleanupStage::Acquiring },
                ),
            )
        } else {
            self.over(result, None)
        }
    }

    /// Where the test stands after `event`.
    pub open spec fn next(self, event: EventView<R>) -> TestTurnView<R> {
        match (self.stage, event) {
            (TestStageView::Preparing(run), EventView::Replied(reply)) => match run.next(reply) {
                TurnView::Ask(run) => self.at(TestStageView::Preparing(run)),
                TurnView::Done(prepared) => self.made(prepared),
                TurnView::Fail(e) => TestTurnView::Fail(TestFailureView::Context(e)),
            },
            (TestStageView::SettingUp(run), EventView::Replied(reply)) => match run.next(reply) {
                SetupTurnView::Ask(run) => self.at(TestStageView::SettingUp(run)),
                SetupTurnView::Done => self.filled(),
                SetupTurnView::Fail(e) => TestTurnView::Fail(TestFailureView::Setup(e)),
            },
            (TestStageView::OpeningPool, EventView::Opened) => self.at(
                match self.kind {
                    TestKind::Connection => TestStageView::TakingConnection,
                    _ => TestStageView::Calling,
                },
            ),
            (TestStageView::OpeningPool, EventView::Refused(e)) => TestTurnView::Fail(
                TestFailureView::Pool(e),
            ),
            (TestStageView::TakingConnection, EventView::Opened) => self.at(
                TestStageView::Calling,
            ),
            (TestStageView::TakingConnection, EventView::Refused(e)) => TestTurnView::Fail(
                TestFailureView::Connection(e),
            ),
            (TestStageView::Calling, EventView::Returned(result)) => match self.kind {
                TestKind::Pool => self.at(TestStageView::ClosingPool(result)),
                TestKind::Connection => self.at(TestStageView::Draining(result)),
                TestKind::Options => self.finished(result),
            },
            (TestStageView::Draining(result), _) => self.at(TestStageView::ClosingPool(result)),
            (TestStageView::ClosingPool(result), EventView::TimedOut) => TestView {
                held_pool: true,
                ..self
            }.finished(result),
            (TestStageView::ClosingPool(result), _) => self.finished(result),
            (TestStageView::CleaningUp(result, run), EventView::Replied(reply)) => match run.next(
                reply,
            ) {
                TurnView::Ask(run) => self.at(TestStageView::CleaningUp(result, run)),
                TurnView::Done(_) => self.over(result, None),
                TurnView::Fail(e) => self.over(result, Some(e)),
            },
            // Nothing else can come of the next action.
            _ => TestTurnView::Go(self),
        }
    }
}

/// Run a test whose function is of that kind.
///
/// `host` is where the master pool connects to, and `templates` whether templates are enabled.
pub fn run_test<R: TestTermination>(
    args: TestArgs,
    kind: TestKind,
    host: ConnectOptions,
    templates: bool,
) -> (r: TestRun<R>)
    ensures
        r@ == (TestView::<R> {
            kind,
            test_path: args.test_path@,
            migrations: args.migrations(),
            fixtures: args.fixtures@,
            prepared: None,
            held_pool: false,
            stage: TestStageView::Preparing(context::opening(&args, host@, templates)),
        }),
        r@.well_formed(),
        r@.migrations is Some <==> args.migrator is Some,
        r@.migrations is Some ==> r@.migrations->0 == args.migrator->0@,
{
    let stage = TestStage::Preparing(MySql::test_context(&args, host, templates));
    TestRun { kind, args, prepared: None, held_pool: false, stage }
}

impl<R: TestTermination> TestRun<R> {
    /// The next action.
    pub fn action(&self) -> (r: Action)
        ensures
            r@ == self@.action(),
    {
        match &self.stage {
            TestStage::Preparing(run) => Action::Ask(run.command()),
            TestStage::SettingUp(run) => Action::Ask(run.command()),
            TestStage::OpeningPool => Action::OpenPool,
            TestStage::TakingConnection => Action::TakeConnection,
            TestStage::Calling => Action::Call,
            TestStage::Draining(_) => Action::ClosePool { limit_secs: None },
            TestStage::ClosingPool(_) => Action::ClosePool { limit_secs: Some(CLOSE_LIMIT_SECS) },
            TestStage::CleaningUp(_, run) => Action::Ask(run.command()),
        }
    }

    /// Whether the test can go on from `event`.
    pub fn admits(&self, event: &Event<R>) -> (r: bool)
        ensures
            r == self@.admits(event@),
    {
        match (&self.stage, event) {
            (TestStage::Preparing(run), Event::Replied(reply)) => run.admits(reply),
            (TestStage::SettingUp(run), Event::Replied(reply)) => run.command().answered_by(reply),
            (TestStage::OpeningPool, Event::Opened) => true,
            (TestStage::OpeningPool, Event::Refused(_)) => true,
            (TestStage::TakingConnection, Event::Opened) => true,
            (TestStage::TakingConnection, Event::Refused(_)) => true,
            (TestStage::Calling, Event::Returned(_)) => true,
            (TestStage::Draining(_), Event::Closed) => true,
            (TestStage::ClosingPool(_), Event::Closed) => true,
            (TestStage::ClosingPool(_), Event::TimedOut) => true,
            (TestStage::CleaningUp(_, run), Event::Replied(reply)) => run.admits(reply),
            _ => false,
        }
    }

    /// The test's database, once it is made.
    pub fn prepared(&self) -> (r: Option<&Prepared>)
        ensures
            r is Some <==> self@.prepared is Some,
            r matches Some(prepared) ==> prepared@ == self@.prepared->0,
    {
        match &self.prepared {
            Some(prepared) => Some(prepared),
            None => None,
        }
    }

    /// The guard of the template lock, while the database is made and once a search for a
    /// template is over that acquired it.
    pub fn template_lock(&self) -> (r: Option<TemplateLockGuard>)
        ensures
            r == (match self@.stage {
                TestStageView::Preparing(making) => making.lock,
                _ => None,
            }),
    {
        match &self.stage {
            TestStage::Preparing(run) => run.template_lock(),
            _ => None,
        }
    }

    /// The test is through.
    fn finish(self, result: R) -> (r: TestTurn<R>)
        ensures
            r@ == self@.finished(result),
    {
        let TestRun { kind, args, prepared, held_pool, stage: _ } = self;
        if result.is_success() {
            let run = MySql::cleanup_test(MySql::db_name(&args).as_str());
            let stage = TestStage::CleaningUp(result, run);
            TestTurn::Go(TestRun { kind, args, prepared, held_pool, stage })
        } else {
            TestTurn::Done(TestEnd { result, held_pool, cleanup_error: None })
        }
    }

    /// Goes on from what came of the last action.
    pub fn resume(self, event: Event<R>) -> (r: TestTurn<R>)
        requires
            self@.admits(event@),
        ensures
            r@ == self@.next(event@),
    {
        let TestRun { kind, args, prepared, held_pool, stage } = self;
        let (prepared, stage) = match (stage, event) {
            (TestStage::Preparing(run), Event::Replied(reply)) => match run.resume(reply) {
                Turn::Ask(run) => (prepared, TestStage::Preparing(run)),
                Turn::Done(made) => {
                    let run = setup_test_db(
                        &made.context.connect_opts,
                        &args,
                        made.context.from_template,
                    );
                    (Some(made), TestStage::SettingUp(run))
                },
                Turn::Fail(e) => {
                    return TestTurn::Fail(TestFailure::Context(e));
                },
            },
            (TestStage::SettingUp(run), Event::Replied(reply)) => match run.resume(reply) {
                SetupTurn::Ask(run) => (prepared, TestStage::SettingUp(run)),
                SetupTurn::Done => match kind {
                    TestKind::Options => (prepared, TestStage::Calling),
                    _ => (prepared, TestStage::OpeningPool),
                },
                SetupTurn::Fail(e) => {
                    return TestTurn::Fail(TestFailure::Setup(e));
                },
            },
            (TestStage::OpeningPool, Event::Opened) => match kind {
                TestKind::Connection => (prepared, TestStage::TakingConnection),
                _ => (prepared, TestStage::Calling),
            },
            (TestStage::OpeningPool, Event::Refused(e)) => {
                return TestTurn::Fail(TestFailure::Pool(e));
            },
            (TestStage::TakingConnection, Event::Opened) => (prepared, TestStage::Calling),
            (TestStage::TakingConnection, Event::Refused(e)) => {
                return TestTurn::Fail(TestFailure::Connection(e));
            },
            (TestStage::Calling, Event::Returned(result)) => match kind {
                TestKind::Pool => (prepared, TestStage::ClosingPool(result)),
                TestKind::Connection => (prepared, TestStage::Draining(result)),
                TestKind::Options => {
                    let stage = TestStage::Calling;
                    return TestRun { kind, args, prepared, held_pool, stage }.finish(result);
                },
            },
            (TestStage::Draining(result), _) => (prepared, TestStage::ClosingPool(result)),
            (TestStage::ClosingPool(result), Event::TimedOut) => {
                let stage = TestStage::Calling;
                return TestRun { kind, args, prepared, held_pool: true, stage }.finish(result);
            },
            (TestStage::ClosingPool(result), _) => {
                let stage = TestStage::Calling;
                return TestRun { kind, args, prepared, held_pool, stage }.finish(result);
            },
            (TestStage::CleaningUp(result, run), Event::Replied(reply)) => match run.resume(
                reply,
            ) {
                Turn::Ask(run) => (prepared, TestStage::CleaningUp(result, run)),
                Turn::Done(_) => {
                    return TestTurn::Done(TestEnd { result, held_pool, cleanup_error: None });
                },
                Turn::Fail(e) => {
                    return TestTurn::Done(TestEnd { result, held_pool, cleanup_error: Some(e) });
                },
            },
            (stage, _) => (prepared, stage),
        };
        TestTurn::Go(TestRun { kind, args, prepared, held_pool, stage })
    }
}

} // verus!
