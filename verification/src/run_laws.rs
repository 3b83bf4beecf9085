//! What holds of the running of a test as a whole.

use crate::cleanup::{CleanupStage, CleanupView};
use crate::context::{ContextView, PreparedView};
use crate::context_laws;
use crate::migrate::{self, MigrationView};
use crate::protocol::{self, CommandView, ErrorView, Exchange, ReplyView, Session, TurnView};
use crate::run::{
    self, Action, ActionView, Event, EventView, SetupError, SetupErrorView, SetupStageView,
    SetupTurnView, SetupView, TestEnd, TestEndView, TestFailure, TestFailureView, TestKind,
    TestStageView, TestTurnView, TestView,
};
use crate::sql;
use crate::testing::{self, TestFixture, TestTermination};
use crate::text::Text;
use vstd::prelude::*;

verus! {

// ---------------------------------------------------------------------------
// Filling the database

/// Where the setup stands after it asked for each command of `script` in turn and got the reply
/// beside it; `None` where it asks for something else, or cannot go on from a reply.
pub open spec fn setup_played(turn: SetupTurnView, script: Seq<Exchange>) -> Option<SetupTurnView>
    decreases script.len(),
{
    if script.len() == 0 {
        Some(turn)
    } else {
        match turn {
            SetupTurnView::Ask(run) => if run.command() == script[0].command
                && run.command().answered_by(script[0].reply) {
                setup_played(run.next(script[0].reply), script.skip(1))
            } else {
                None
            },
            _ => None,
        }
    }
}

/// A command that succeeds and reads no rows.
pub open spec fn done(command: CommandView) -> Exchange {
    Exchange { command, reply: ReplyView::Done }
}

/// Every fixture is applied, in order.
pub open spec fn fixture_script(fixtures: Seq<TestFixture>) -> Seq<Exchange> {
    Seq::new(
        fixtures.len(),
        |i: int| done(protocol::execute(Session::Secondary, fixtures[i].contents@)),
    )
}

/// The migrations are applied, where that is asked for.
pub open spec fn migration_script(migrations: Option<Text>) -> Seq<Exchange> {
    match migrations {
        Some(hash) => seq![done(CommandView::Migrate { hash })],
        None => Seq::empty(),
    }
}

/// How a database is filled: first the migrations are applied, where they are not there already,
/// then every fixture, in order.
pub open spec fn setup_script(
    database: Option<Text>,
    migrations: Option<Text>,
    fixtures: Seq<TestFixture>,
) -> Seq<Exchange> {
    seq![done(CommandView::Connect { database })] + (migration_script(migrations) + (fixture_script(
        fixtures,
    ) + seq![done(CommandView::Close)]))
}

proof fn lemma_setup_played(run: SetupView, x: Exchange, tail: Seq<Exchange>)
    requires
        run.command() == x.command,
        run.command().answered_by(x.reply),
    ensures
        setup_played(SetupTurnView::Ask(run), seq![x] + tail) == setup_played(
            run.next(x.reply),
            tail,
        ),
{
    assert((seq![x] + tail).skip(1) =~= tail);
}

proof fn lemma_filling(run: SetupView, index: int)
    requires
        0 <= index <= run.fixtures.len(),
        run.stage == run::filling(run.fixtures, index),
    ensures
        setup_played(
            SetupTurnView::Ask(run),
            fixture_script(run.fixtures).skip(index) + seq![done(CommandView::Close)],
        ) == Some(SetupTurnView::Done),
    decreases run.fixtures.len() - index,
{
    let all = fixture_script(run.fixtures);
    let close = seq![done(CommandView::Close)];
    if index < run.fixtures.len() {
        let tail = all.skip(index + 1) + close;
        assert(all.skip(index) + close =~= seq![all[index]] + tail);
        lemma_setup_played(run, all[index], tail);
        lemma_filling(
            SetupView { stage: run::filling(run.fixtures, index + 1), ..run },
            index + 1,
        );
    } else {
        let end = Seq::<Exchange>::empty();
        assert(all.skip(index) + close =~= close + end);
        lemma_setup_played(run, done(CommandView::Close), end);
    }
}

/// Migrations are applied exactly where they are asked for, fixtures after them, in order, each
/// once, and nothing else is done to the database.
pub proof fn law_setup_applies_everything(run: SetupView)
    requires
        run.stage is Connecting,
    ensures
        setup_played(
            SetupTurnView::Ask(run),
            setup_script(run.database, run.migrations, run.fixtures),
        ) == Some(SetupTurnView::Done),
{
    let fill = fixture_script(run.fixtures) + seq![done(CommandView::Close)];
    let rest = migration_script(run.migrations) + fill;
    lemma_setup_played(run, done(CommandView::Connect { database: run.database }), rest);
    let filling = SetupView { stage: run::filling(run.fixtures, 0), ..run };
    assert(fixture_script(run.fixtures).skip(0) =~= fixture_script(run.fixtures));
    lemma_filling(filling, 0);
    match run.migrations {
        Some(hash) => {
            let migrating = SetupView { stage: SetupStageView::Migrating { hash }, ..run };
            lemma_setup_played(migrating, done(CommandView::Migrate { hash }), fill);
        },
        None => {
            assert(rest =~= fill);
        },
    }
}

/// The first thing that fails ends the setup, and the error tells what it was: the connection,
/// the migrations, the fixture that was being applied, by its path, or the closing.
pub proof fn law_setup_stops_at_a_failure(run: SetupView, e: ErrorView)
    ensures
        run.next(ReplyView::Failed(e)) == SetupTurnView::Fail(run.failure(e)),
        run.next(ReplyView::Failed(e)) == SetupTurnView::Fail(
            match run.stage {
                SetupStageView::Connecting => SetupErrorView::Connect(e),
                SetupStageView::Migrating { hash } => SetupErrorView::Migrate(e),
                SetupStageView::Filling { index } => SetupErrorView::Fixture {
                    path: run.fixtures[index].path@,
                    error: e,
                },
                SetupStageView::Closing => SetupErrorView::Close(e),
            },
        ),
{
}

/// How the database of a test is set up, from the test's migrations, however many, and from
/// where the database comes: after connecting, and before the first fixture, the migrations are
/// applied once, by the hash of all of them, exactly where the test has migrations and the
/// database was not cloned from a template.
pub proof fn law_migrations_are_applied_unless_cloned(
    database: Option<Text>,
    migrations: Option<Seq<MigrationView>>,
    from_template: bool,
    fixtures: Seq<TestFixture>,
)
    ensures
        ({
            let start = SetupTurnView::Ask(
                SetupView {
                    database,
                    migrations: run::to_apply(migrations, from_template),
                    fixtures,
                    stage: SetupStageView::Connecting,
                },
            );
            let connect = seq![
                Exchange {
                    command: CommandView::Connect { database },
                    reply: ReplyView::Done,
                },
            ];
            let fill = Seq::new(
                fixtures.len(),
                |i: int|
                    Exchange {
                        command: CommandView::Execute {
                            session: Session::Secondary,
                            sql: fixtures[i].contents@,
                            params: seq![],
                        },
                        reply: ReplyView::Done,
                    },
            );
            let close = seq![Exchange { command: CommandView::Close, reply: ReplyView::Done }];
            &&& migrations is Some && !from_template ==> setup_played(
                start,
                connect + (seq![
                    Exchange {
                        command: CommandView::Migrate { hash: migrate::hash_text(migrations->0) },
                        reply: ReplyView::Done,
                    },
                ] + (fill + close)),
            ) == Some(SetupTurnView::Done)
            &&& migrations is None || from_template ==> setup_played(
                start,
                connect + (fill + close),
            ) == Some(SetupTurnView::Done)
        }),
{
    let applied = run::to_apply(migrations, from_template);
    let start = SetupView {
        database,
        migrations: applied,
        fixtures,
        stage: SetupStageView::Connecting,
    };
    law_setup_applies_everything(start);
    let fill = Seq::new(
        fixtures.len(),
        |i: int|
            Exchange {
                command: CommandView::Execute {
                    session: Session::Secondary,
                    sql: fixtures[i].contents@,
                    params: seq![],
                },
                reply: ReplyView::Done,
            },
    );
    let close = seq![done(CommandView::Close)];
    assert(fixture_script(fixtures) =~= fill);
    if migrations is None || from_template {
        assert(migration_script(applied) + (fill + close) =~= fill + close);
    }
}

// ---------------------------------------------------------------------------
// The whole of a test

/// An action and what came of it.
pub struct Step<R> {
    pub action: ActionView,
    pub event: EventView<R>,
}

/// Where a test stands after each action of `script` was its next in turn and had the event
/// beside it; `None` where its next action is another, or it cannot go on from an event.
pub open spec fn test_played<R: TestTermination>(
    turn: TestTurnView<R>,
    script: Seq<Step<R>>,
) -> Option<TestTurnView<R>>
    decreases script.len(),
{
    if script.len() == 0 {
        Some(turn)
    } else {
        match turn {
            TestTurnView::Go(run) => if run.action() == script[0].action && run.admits(
                script[0].event,
            ) {
                test_played(run.next(script[0].event), script.skip(1))
            } else {
                None
            },
            _ => None,
        }
    }
}

/// A conversation with the server as part of a test.
pub open spec fn asked<R>(script: Seq<Exchange>) -> Seq<Step<R>> {
    script.map_values(
        |x: Exchange|
            Step { action: ActionView::Ask(x.command), event: EventView::Replied(x.reply) },
    )
}

/// How a test of that kind is called and returns, and its pool is closed again.
pub open spec fn call_script<R>(kind: TestKind, result: R) -> Seq<Step<R>> {
    let open = Step { action: ActionView::OpenPool, event: EventView::Opened };
    let take = Step { action: ActionView::TakeConnection, event: EventView::Opened };
    let call = Step { action: ActionView::Call, event: EventView::Returned(result) };
    let drain = Step {
        action: ActionView::ClosePool { limit_secs: None },
        event: EventView::Closed,
    };
    let close = Step {
        action: ActionView::ClosePool { limit_secs: Some(run::CLOSE_LIMIT_SECS) },
        event: EventView::Closed,
    };
    match kind {
        TestKind::Pool => seq![open, call, close],
        TestKind::Connection => seq![open, take, call, drain, close],
        TestKind::Options => seq![call],
    }
}

/// How a database is removed: it is dropped and struck off the list.
pub open spec fn removal_script(db_name: Text) -> Seq<Exchange> {
    seq![
        done(CommandView::Acquire),
        done(protocol::execute(Session::Primary, sql::drop_test(db_name))),
        done(protocol::execute_with(Session::Primary, sql::FORGET_TEST@, db_name)),
    ]
}

proof fn lemma_test_played<R: TestTermination>(run: TestView<R>, x: Step<R>, tail: Seq<Step<R>>)
    requires
        run.action() == x.action,
        run.admits(x.event),
    ensures
        test_played(TestTurnView::Go(run), seq![x] + tail) == test_played(run.next(x.event), tail),
{
    assert((seq![x] + tail).skip(1) =~= tail);
}

/// A script that the making of the database follows to its end, the test follows too.
proof fn lemma_making<R: TestTermination>(
    run: TestView<R>,
    making: ContextView,
    script: Seq<Exchange>,
    prepared: PreparedView,
    tail: Seq<Step<R>>,
)
    requires
        context_laws::played(TurnView::Ask(making), script) == Some(
            TurnView::<ContextView, PreparedView>::Done(prepared),
        ),
    ensures
        test_played(run.at(TestStageView::Preparing(making)), asked(script) + tail)
            == test_played(run.made(prepared), tail),
    decreases script.len(),
{
    reveal_with_fuel(context_laws::played, 2);
    let x = script[0];
    let rest = script.skip(1);
    let step = Step::<R> {
        action: ActionView::Ask(x.command),
        event: EventView::Replied(x.reply),
    };
    assert(asked(script) + tail =~= seq![step] + (asked(rest) + tail));
    let at = TestView { stage: TestStageView::Preparing(making), ..run };
    lemma_test_played(at, step, asked(rest) + tail);
    match making.next(x.reply) {
        TurnView::Ask(next) => {
            lemma_making(run, next, rest, prepared, tail);
        },
        _ => {
            assert(rest.len() == 0);
            assert(asked(rest) + tail =~= tail);
        },
    }
}

/// A script that the setup of the database follows to its end, the test follows too.
proof fn lemma_setup<R: TestTermination>(
    run: TestView<R>,
    setup: SetupView,
    script: Seq<Exchange>,
    tail: Seq<Step<R>>,
)
    requires
        setup_played(SetupTurnView::Ask(setup), script) == Some(SetupTurnView::Done),
    ensures
        test_played(run.at(TestStageView::SettingUp(setup)), asked(script) + tail) == test_played(
            run.filled(),
            tail,
        ),
    decreases script.len(),
{
    reveal_with_fuel(setup_played, 2);
    let x = script[0];
    let rest = script.skip(1);
    let step = Step::<R> {
        action: ActionView::Ask(x.command),
        event: EventView::Replied(x.reply),
    };
    assert(asked(script) + tail =~= seq![step] + (asked(rest) + tail));
    let at = TestView { stage: TestStageView::SettingUp(setup), ..run };
    lemma_test_played(at, step, asked(rest) + tail);
    match setup.next(x.reply) {
        SetupTurnView::Ask(next) => {
            lemma_setup(run, next, rest, tail);
        },
        _ => {
            assert(rest.len() == 0);
            assert(asked(rest) + tail =~= tail);
        },
    }
}

proof fn lemma_call_with_pool<R: TestTermination>(run: TestView<R>, result: R, tail: Seq<Step<R>>)
    requires
        run.kind == TestKind::Pool,
    ensures
        test_played(run.filled(), call_script(run.kind, result) + tail) == test_played(
            run.finished(result),
            tail,
        ),
{
    let script = call_script(run.kind, result);
    let opening = TestView { stage: TestStageView::OpeningPool, ..run };
    let calling = TestView { stage: TestStageView::Calling, ..run };
    let closing = TestView { stage: TestStageView::ClosingPool(result), ..run };
    let t3 = tail;
    let t2 = seq![script[2]] + t3;
    let t1 = seq![script[1]] + t2;
    assert(script + tail =~= seq![script[0]] + t1);
    lemma_test_played(opening, script[0], t1);
    lemma_test_played(calling, script[1], t2);
    lemma_test_played(closing, script[2], t3);
}

proof fn lemma_call_with_connection<R: TestTermination>(run: TestView<R>, result: R, tail: Seq<Step<R>>)
    requires
        run.kind == TestKind::Connection,
    ensures
        test_played(run.filled(), call_script(run.kind, result) + tail) == test_played(
            run.finished(result),
            tail,
        ),
{
    let script = call_script(run.kind, result);
    let opening = TestView { stage: TestStageView::OpeningPool, ..run };
    let taking = TestView { stage: TestStageView::TakingConnection, ..run };
    let calling = TestView { stage: TestStageView::Calling, ..run };
    let draining = TestView { stage: TestStageView::Draining(result), ..run };
    let closing = TestView { stage: TestStageView::ClosingPool(result), ..run };
    let t5 = tail;
    let t4 = seq![script[4]] + t5;
    let t3 = seq![script[3]] + t4;
    let t2 = seq![script[2]] + t3;
    let t1 = seq![script[1]] + t2;
    assert(script + tail =~= seq![script[0]] + t1);
    lemma_test_played(opening, script[0], t1);
    lemma_test_played(taking, script[1], t2);
    lemma_test_played(calling, script[2], t3);
    lemma_test_played(draining, script[3], t4);
    lemma_test_played(closing, script[4], t5);
}

proof fn lemma_call_with_options<R: TestTermination>(run: TestView<R>, result: R, tail: Seq<Step<R>>)
    requires
        run.kind == TestKind::Options,
    ensures
        test_played(run.filled(), call_script(run.kind, result) + tail) == test_played(
            run.finished(result),
            tail,
        ),
{
    let script = call_script(run.kind, result);
    let calling = TestView { stage: TestStageView::Calling, ..run };
    assert(script + tail =~= seq![script[0]] + tail);
    lemma_test_played(calling, script[0], tail);
}

proof fn lemma_call<R: TestTermination>(run: TestView<R>, result: R, tail: Seq<Step<R>>)
    ensures
        test_played(run.filled(), call_script(run.kind, result) + tail) == test_played(
            run.finished(result),
            tail,
        ),
{
    match run.kind {
        TestKind::Pool => {
            lemma_call_with_pool(run, result, tail);
        },
        TestKind::Connection => {
            lemma_call_with_connection(run, result, tail);
        },
        TestKind::Options => {
            lemma_call_with_options(run, result, tail);
        },
    }
}

/// A test is called after its database is made and filled.
proof fn lemma_until_finished<R: TestTermination>(
    run: TestView<R>,
    making: Seq<Exchange>,
    prepared: PreparedView,
    result: R,
    tail: Seq<Step<R>>,
)
    requires
        run.stage is Preparing,
        context_laws::played(TurnView::Ask(run.stage->Preparing_0), making) == Some(
            TurnView::<ContextView, PreparedView>::Done(prepared),
        ),
    ensures
        test_played(
            TestTurnView::Go(run),
            asked(making) + (asked(
                setup_script(
                    prepared.context.connect_opts.database,
                    run::to_apply(run.migrations, prepared.context.from_template),
                    run.fixtures,
                ),
            ) + (call_script(run.kind, result) + tail)),
        ) == test_played(
            TestView { prepared: Some(prepared), ..run }.finished(result),
            tail,
        ),
{
    let migrations = run::to_apply(run.migrations, prepared.context.from_template);
    let database = prepared.context.connect_opts.database;
    let setup = SetupView {
        database,
        migrations,
        fixtures: run.fixtures,
        stage: SetupStageView::Connecting,
    };
    let script = setup_script(database, migrations, run.fixtures);
    let call = call_script(run.kind, result) + tail;
    let made = TestView { prepared: Some(prepared), ..run };
    law_setup_applies_everything(setup);
    lemma_making(run, run.stage->Preparing_0, making, prepared, asked(script) + call);
    lemma_setup(made, setup, script, call);
    lemma_call(made, result, tail);
}

/// From start to end it is the test's own database that is made. Once it is made, what was made
/// stays the same, and so does the test throughout.
pub proof fn law_database_stays_the_tests_own<R: TestTermination>(
    run: TestView<R>,
    event: EventView<R>,
)
    requires
        run.well_formed(),
        run.admits(event),
        run.next(event) is Go,
    ensures
        run.next(event)->Go_0.well_formed(),
        !(run.stage is Preparing) ==> run.next(event)->Go_0.prepared == run.prepared,
        run.db_name() == migrate::test_name(migrate::path_hash(run.test_path)),
        run.next(event)->Go_0.test_path == run.test_path,
        run.next(event)->Go_0.db_name() == run.db_name(),
        run.next(event)->Go_0.migrations == run.migrations,
        run.next(event)->Go_0.fixtures == run.fixtures,
        run.next(event)->Go_0.kind == run.kind,
{
}

/// A test runs on its own database: from the moment that its database is made, and so when its
/// pool is opened and when it is called, the context that it is given bears the name of the
/// test's database, its connections go to that database, and its pool is a test's pool.
pub proof fn law_test_runs_on_its_own_database<R: TestTermination>(run: TestView<R>)
    requires
        run.well_formed(),
        !(run.stage is Preparing),
    ensures
        run.prepared matches Some(prepared) && {
            &&& prepared.context.db_name == run.db_name()
            &&& prepared.context.connect_opts.database == Some(run.db_name())
            &&& prepared.context.pool_opts == testing::test_pool()
        },
{
}

/// Fixtures go to the test's own database and never to a template: the connection that they are
/// applied over is opened to the database that was made for the test, and no template bears
/// that name.
pub proof fn law_setup_goes_to_the_tests_own_database<R: TestTermination>(
    run: TestView<R>,
    reply: ReplyView,
    migrations_hash: Text,
)
    requires
        run.stage is Preparing,
        run.well_formed(),
        run.admits(EventView::Replied(reply)),
        run.stage->Preparing_0.next(reply) is Done,
    ensures
        run.next(EventView::Replied(reply)) is Go,
        ({
            let next = run.next(EventView::Replied(reply))->Go_0;
            &&& next.stage is SettingUp
            &&& next.stage->SettingUp_0.stage is Connecting
            &&& next.stage->SettingUp_0.database == Some(run.db_name())
            &&& run.db_name() != migrate::template_name(migrations_hash)
        }),
{
    context_laws::law_ready_database(run.stage->Preparing_0, reply);
    migrate::law_tests_and_templates_are_apart(
        migrate::path_hash(run.test_path),
        migrations_hash,
    );
}

/// A test that succeeds leaves no database behind. Whatever conversation makes its database,
/// the database is filled, with migrations only where it is no clone of a template, the test is
/// called, and in the end its database is dropped and struck off the list.
pub proof fn law_successful_test_leaves_no_database<R: TestTermination>(
    run: TestView<R>,
    making: Seq<Exchange>,
    prepared: PreparedView,
    result: R,
)
    requires
        run.stage is Preparing,
        !run.held_pool,
        context_laws::played(TurnView::Ask(run.stage->Preparing_0), making) == Some(
            TurnView::<ContextView, PreparedView>::Done(prepared),
        ),
        result.succeeded(),
    ensures
        test_played(
            TestTurnView::Go(run),
            asked(making) + (asked(
                setup_script(
                    prepared.context.connect_opts.database,
                    match run.migrations {
                        Some(migrations) if !prepared.context.from_template => Some(
                            migrate::hash_text(migrations),
                        ),
                        _ => None,
                    },
                    run.fixtures,
                ),
            ) + (call_script(run.kind, result) + asked(removal_script(run.db_name())))),
        ) == Some(
            TestTurnView::Done(TestEndView { result, held_pool: false, cleanup_error: None }),
        ),
{
    let removal = removal_script(run.db_name());
    let s = asked::<R>(removal);
    lemma_until_finished(run, making, prepared, result, s);
    let made = TestView { prepared: Some(prepared), ..run };
    let at = |stage: CleanupStage|
        TestView {
            stage: TestStageView::CleaningUp(
                result,
                CleanupView { db_name: run.db_name(), stage },
            ),
            ..made
        };
    let t3 = Seq::<Step<R>>::empty();
    let t2 = seq![s[2]] + t3;
    let t1 = seq![s[1]] + t2;
    assert(s =~= seq![s[0]] + t1);
    lemma_test_played(at(CleanupStage::Acquiring), s[0], t1);
    lemma_test_played(at(CleanupStage::Dropping), s[1], t2);
    lemma_test_played(at(CleanupStage::Forgetting), s[2], t3);
}

/// A test that does not succeed keeps its database: it is over as soon as it has returned and
/// its pool is closed.
pub proof fn law_failed_test_keeps_its_database<R: TestTermination>(
    run: TestView<R>,
    making: Seq<Exchange>,
    prepared: PreparedView,
    result: R,
)
    requires
        run.stage is Preparing,
        !run.held_pool,
        context_laws::played(TurnView::Ask(run.stage->Preparing_0), making) == Some(
            TurnView::<ContextView, PreparedView>::Done(prepared),
        ),
        !result.succeeded(),
    ensures
        test_played(
            TestTurnView::Go(run),
            asked(making) + (asked(
                setup_script(
                    prepared.context.connect_opts.database,
                    match run.migrations {
                        Some(migrations) if !prepared.context.from_template => Some(
                            migrate::hash_text(migrations),
                        ),
                        _ => None,
                    },
                    run.fixtures,
                ),
            ) + call_script(run.kind, result)),
        ) == Some(
            TestTurnView::Done(TestEndView { result, held_pool: false, cleanup_error: None }),
        ),
{
    let end = Seq::<Step<R>>::empty();
    lemma_until_finished(run, making, prepared, result, end);
    assert(call_script(run.kind, result) + end =~= call_script(run.kind, result));
}

/// What a test returned, once it has.
pub open spec fn returned<R>(stage: TestStageView<R>) -> Option<R> {
    match stage {
        TestStageView::Draining(result) => Some(result),
        TestStageView::ClosingPool(result) => Some(result),
        TestStageView::CleaningUp(result, _) => Some(result),
        _ => None,
    }
}

/// Once a test has returned, nothing is held against it any more: whatever comes of closing its
/// pool and deleting its database, what it returned is handed back.
pub proof fn law_result_is_handed_back<R: TestTermination>(run: TestView<R>, event: EventView<R>)
    requires
        run.admits(event),
        returned(run.stage) is Some,
    ensures
        match run.next(event) {
            TestTurnView::Go(next) => returned(next.stage) == returned(run.stage),
            TestTurnView::Done(end) => Some(end.result) == returned(run.stage),
            TestTurnView::Fail(_) => false,
        },
{
}

/// A database is deleted only after a test that succeeded, and it is the test's own.
pub proof fn law_only_successful_tests_are_cleaned_up<R: TestTermination>(
    run: TestView<R>,
    event: EventView<R>,
)
    requires
        run.admits(event),
        !(run.stage is CleaningUp),
        run.next(event) is Go,
        run.next(event)->Go_0.stage is CleaningUp,
    ensures
        run.next(event)->Go_0.stage->CleaningUp_0.succeeded(),
        run.next(event)->Go_0.stage->CleaningUp_1.db_name == run.db_name(),
{
}

/// A database that was made is filled: over a connection to it, with the test's own fixtures, and
/// with the test's own migrations unless it was cloned from a template.
pub proof fn law_made_database_is_filled<R: TestTermination>(
    run: TestView<R>,
    prepared: PreparedView,
)
    ensures
        run.made(prepared) is Go,
        ({
            let next = run.made(prepared)->Go_0;
            &&& next.prepared == Some(prepared)
            &&& next.stage is SettingUp
            &&& next.stage->SettingUp_0.stage is Connecting
            &&& next.stage->SettingUp_0.database == prepared.context.connect_opts.database
            &&& next.stage->SettingUp_0.fixtures == run.fixtures
            &&& next.stage->SettingUp_0.migrations is Some <==> run.migrations is Some
                && !prepared.context.from_template
            &&& next.stage->SettingUp_0.migrations is Some ==> next.stage->SettingUp_0.migrations->0
                == migrate::hash_text(run.migrations->0)
        }),
{
}

/// What keeps a test from being called is told apart: its database could not be made, or not be
/// filled, its pool could not be opened, or no connection taken from it. Each comes with the
/// error that was met.
pub proof fn law_failures_are_told_apart<R: TestTermination>(
    run: TestView<R>,
    event: EventView<R>,
)
    requires
        run.admits(event),
        run.next(event) is Fail,
    ensures
        match run.next(event)->Fail_0 {
            TestFailureView::Context(e) => run.stage is Preparing && event is Replied
                && run.stage->Preparing_0.next(event->Replied_0) == TurnView::<
                ContextView,
                PreparedView,
            >::Fail(e),
            TestFailureView::Setup(e) => run.stage is SettingUp && event is Replied
                && run.stage->SettingUp_0.next(event->Replied_0) == SetupTurnView::Fail(e),
            TestFailureView::Pool(e) => run.stage is OpeningPool && event == EventView::<
                R,
            >::Refused(e),
            TestFailureView::Connection(e) => run.stage is TakingConnection && event
                == EventView::<R>::Refused(e),
        },
{
}

/// Nothing that fails is passed over before a test is called.
pub proof fn law_failures_keep_a_test_from_being_called<R: TestTermination>(
    run: TestView<R>,
    e: ErrorView,
)
    ensures
        run.stage is OpeningPool || run.stage is TakingConnection ==> run.next(
            EventView::Refused(e),
        ) is Fail,
        run.stage is SettingUp ==> run.next(EventView::Replied(ReplyView::Failed(e))) is Fail,
{
}

/// A test that holds onto its pool is found out: the end of the test says so where its pool was
/// not closed in time, and only there.
pub proof fn law_held_pool_is_noted<R: TestTermination>(run: TestView<R>, event: EventView<R>)
    requires
        run.admits(event),
    ensures
        match run.next(event) {
            TestTurnView::Go(next) => next.held_pool <==> run.held_pool || event is TimedOut,
            TestTurnView::Done(end) => end.held_pool <==> run.held_pool || event is TimedOut,
            TestTurnView::Fail(_) => true,
        },
{
}

/// What comes of deleting a test's database is told: the error where it failed, and none where it
/// succeeded or was not tried.
pub proof fn law_cleanup_error_is_told<R: TestTermination>(run: TestView<R>, event: EventView<R>)
    requires
        run.admits(event),
        run.next(event) is Done,
    ensures
        run.next(event)->Done_0.cleanup_error is Some <==> run.stage is CleaningUp
            && event == EventView::<R>::Replied(ReplyView::Failed(event->Replied_0->Failed_0)),
        run.next(event)->Done_0.cleanup_error is Some ==> run.next(event)->Done_0.cleanup_error->0
            == event->Replied_0->Failed_0,
        !(run.stage is CleaningUp) ==> !run.next(event)->Done_0.result.succeeded(),
{
}

/// What a failure is called.
pub proof fn law_failures_have_their_names(failure: TestFailureView)
    ensures
        failure is Context ==> failure.what() == "failed to connect to setup test database"@,
        failure is Pool ==> failure.what() == "failed to connect test pool"@,
        failure is Connection ==> failure.what() == "failed to acquire test pool connection"@,
        failure is Setup ==> failure.what() == match failure->Setup_0 {
            SetupErrorView::Connect(_) => "failed to connect to test database"@,
            SetupErrorView::Migrate(_) => "failed to apply migrations"@,
            SetupErrorView::Fixture { path, error } => "failed to apply test fixture"@,
            SetupErrorView::Close(_) => "failed to close setup connection"@,
        },
{
}

/// A test succeeded where it returned nothing, or an `Ok`.
pub proof fn law_what_success_is<T, E>(unit: (), result: Result<T, E>)
    ensures
        unit.succeeded(),
        result.succeeded() <==> result is Ok,
{
}

/// What is to be done for a test, and what came of it, is seen whole.
pub proof fn law_actions_and_events_are_seen_whole<R>(action: Action, event: Event<R>)
    ensures
        match action {
            Action::Ask(command) => action@ == ActionView::Ask(command@),
            Action::OpenPool => action@ is OpenPool,
            Action::TakeConnection => action@ is TakeConnection,
            Action::Call => action@ is Call,
            Action::ClosePool { limit_secs } => action@ == (ActionView::ClosePool { limit_secs }),
        },
        match event {
            Event::Replied(reply) => event@ == EventView::<R>::Replied(reply@),
            Event::Opened => event@ is Opened,
            Event::Refused(e) => event@ == EventView::<R>::Refused(e@),
            Event::Returned(result) => event@ == EventView::Returned(result),
            Event::Closed => event@ is Closed,
            Event::TimedOut => event@ is TimedOut,
        },
{
}

/// The end of a test, and what kept one from being called, is seen whole.
pub proof fn law_ends_are_seen_whole<R>(end: TestEnd<R>, failure: TestFailure)
    ensures
        end@.result == end.result,
        end@.held_pool == end.held_pool,
        end@.cleanup_error is Some <==> end.cleanup_error is Some,
        end.cleanup_error is Some ==> end@.cleanup_error->0 == end.cleanup_error->0@,
        match failure {
            TestFailure::Context(e) => failure@ == TestFailureView::Context(e@),
            TestFailure::Setup(SetupError::Connect(e)) => failure@ == TestFailureView::Setup(
                SetupErrorView::Connect(e@),
            ),
            TestFailure::Setup(SetupError::Migrate(e)) => failure@ == TestFailureView::Setup(
                SetupErrorView::Migrate(e@),
            ),
            TestFailure::Setup(SetupError::Fixture { path, error }) => failure@
                == TestFailureView::Setup(
                SetupErrorView::Fixture { path: path@, error: error@ },
            ),
            TestFailure::Setup(SetupError::Close(e)) => failure@ == TestFailureView::Setup(
                SetupErrorView::Close(e@),
            ),
            TestFailure::Pool(e) => failure@ == TestFailureView::Pool(e@),
            TestFailure::Connection(e) => failure@ == TestFailureView::Connection(e@),
        },
{
}

} // verus!
