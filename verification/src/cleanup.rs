//! Getting rid of test databases.

use crate::protocol::{
    self, execute_command, execute_with_command, fetch_command, Command, CommandView, Error,
    ErrorView, Exchange, Reply, ReplyView, Session, Shape, Turn, TurnView,
};
use crate::sql;
use crate::text::{self, Text};
use vstd::prelude::*;

verus! {

// ---------------------------------------------------------------------------
// The database of one test

/// How far the cleanup of one test's database has come.
#[derive(Clone, Copy, Debug, PartialEq, Eq, Structural)]
pub enum CleanupStage {
    /// Take a connection from the master pool.
    Acquiring,
    /// Drop the database.
    Dropping,
    /// Strike it off the list.
    Forgetting,
}

/// The cleanup of one test's database, in progress.
#[derive(Debug)]
pub struct CleanupRun {
    db_name: String,
    stage: CleanupStage,
}

/// The model of a [`CleanupRun`].
pub struct CleanupView {
    pub db_name: Text,
    pub stage: CleanupStage,
}

impl View for CleanupRun {
    type V = CleanupView;

    closed spec fn view(&self) -> CleanupView {
        CleanupView { db_name: self.db_name@, stage: self.stage }
    }
}

impl CleanupView {
    /// The next command.
    pub open spec fn command(self) -> CommandView {
        match self.stage {
            CleanupStage::Acquiring => CommandView::Acquire,
            CleanupStage::Dropping => protocol::execute(
                Session::Primary,
                sql::drop_test(self.db_name),
            ),
            CleanupStage::Forgetting => protocol::execute_with(
                Session::Primary,
                sql::FORGET_TEST@,
                self.db_name,
            ),
        }
    }

    /// Where the cleanup stands after `reply`: one step after the other, until one fails.
    pub open spec fn next(self, reply: ReplyView) -> TurnView<CleanupView, ()> {
        match (self.stage, reply) {
            (_, ReplyView::Failed(e)) => TurnView::Fail(e),
            (CleanupStage::Acquiring, _) => TurnView::Ask(
                CleanupView { stage: CleanupStage::Dropping, ..self },
            ),
            (CleanupStage::Dropping, _) => TurnView::Ask(
                CleanupView { stage: CleanupStage::Forgetting, ..self },
            ),
            (CleanupStage::Forgetting, _) => TurnView::Done(()),
        }
    }
}

/// Drop the database of a test and strike it off the list, over the primary connection.
pub fn do_cleanup(db_name: &str) -> (r: CleanupRun)
    ensures
        r@ == (CleanupView { db_name: db_name@, stage: CleanupStage::Dropping }),
{
    CleanupRun { db_name: String::from_str(db_name), stage: CleanupStage::Dropping }
}

/// Clean up after a test: like [`do_cleanup`], over a connection taken for it.
pub fn cleanup_test(db_name: &str) -> (r: CleanupRun)
    ensures
        r@ == (CleanupView { db_name: db_name@, stage: CleanupStage::Acquiring }),
{
    CleanupRun { db_name: String::from_str(db_name), stage: CleanupStage::Acquiring }
}

impl CleanupRun {
    /// The next command.
    pub fn command(&self) -> (r: Command)
        ensures
            r@ == self@.command(),
    {
        match self.stage {
            CleanupStage::Acquiring => Command::Acquire,
            CleanupStage::Dropping => execute_command(
                Session::Primary,
                sql::drop_test_sql(self.db_name.as_str()),
            ),
            CleanupStage::Forgetting => execute_with_command(
                Session::Primary,
                sql::FORGET_TEST,
                self.db_name.as_str(),
            ),
        }
    }

    /// Whether the cleanup can go on from `reply`.
    pub fn admits(&self, reply: &Reply) -> (r: bool)
        ensures
            r == self@.command().answered_by(reply@),
    {
        self.command().answered_by(reply)
    }

    /// Goes on from the reply to the last command.
    pub fn resume(self, reply: Reply) -> (r: Turn<CleanupRun, ()>)
        requires
            self@.command().answered_by(reply@),
        ensures
            r@ == self@.next(reply@),
    {
        let CleanupRun { db_name, stage } = self;
        match (stage, reply) {
            (_, Reply::Failed(e)) => Turn::Fail(e),
            (CleanupStage::Acquiring, _) => Turn::Ask(
                CleanupRun { db_name, stage: CleanupStage::Dropping },
            ),
            (CleanupStage::Dropping, _) => Turn::Ask(
                CleanupRun { db_name, stage: CleanupStage::Forgetting },
            ),
            (CleanupStage::Forgetting, _) => Turn::Done(()),
        }
    }
}

// ---------------------------------------------------------------------------
// Databases named by a number

/// The error number for a column that does not exist:
/// <https://dev.mysql.com/doc/mysql-errors/8.0/en/server-error-reference.html#error_er_bad_field_error>
pub const BAD_FIELD_ERROR: u16 = 1054;

/// The error number for a table that does not exist:
/// <https://dev.mysql.com/doc/mysql-errors/8.0/en/server-error-reference.html#error_er_no_such_table>
pub const NO_SUCH_TABLE: u16 = 1146;

/// How far the removal of old-style test databases has come.
#[derive(Debug)]
pub enum OldDbsRun {
    Listing,
    Dropping { id: u64, left: Vec<u64> },
    DroppingTable,
}

/// The model of an [`OldDbsRun`].
pub enum OldDbsView {
    Listing,
    Dropping { id: u64, left: Seq<u64> },
    DroppingTable,
}

impl View for OldDbsRun {
    type V = OldDbsView;

    open spec fn view(&self) -> OldDbsView {
        match self {
            OldDbsRun::Listing => OldDbsView::Listing,
            OldDbsRun::Dropping { id, left } => OldDbsView::Dropping { id: *id, left: left@ },
            OldDbsRun::DroppingTable => OldDbsView::DroppingTable,
        }
    }
}

/// The removal goes on with the databases `ids`, and in the end with their table.
pub open spec fn old_dbs_left(ids: Seq<u64>) -> OldDbsView {
    if ids.len() > 0 {
        OldDbsView::Dropping { id: ids[0], left: ids.skip(1) }
    } else {
        OldDbsView::DroppingTable
    }
}

impl OldDbsView {
    /// The next command.
    pub open spec fn command(self) -> CommandView {
        match self {
            OldDbsView::Listing => protocol::fetch(
                Session::Primary,
                sql::LIST_OLD_TESTS@,
                Shape::Ids,
            ),
            OldDbsView::Dropping { id, left } => protocol::execute(
                Session::Primary,
                sql::drop_old(id),
            ),
            OldDbsView::DroppingTable => protocol::execute(
                Session::Primary,
                sql::DROP_TESTS_TABLE@,
            ),
        }
    }

    /// Where the removal stands after `reply`.
    pub open spec fn next(self, reply: ReplyView) -> TurnView<OldDbsView, ()> {
        match (self, reply) {
            (OldDbsView::Listing, ReplyView::Ids(ids)) => TurnView::Ask(old_dbs_left(ids)),
            // The table has already been migrated, or there is none: no cleanup needed.
            (
                OldDbsView::Listing,
                ReplyView::Failed(ErrorView::Database { number, message }),
            ) if number == BAD_FIELD_ERROR || number == NO_SUCH_TABLE => TurnView::Done(()),
            // A database error just means the database is still in use.
            (
                OldDbsView::Dropping { id, left },
                ReplyView::Failed(ErrorView::Database { number, message }),
            ) => TurnView::Ask(old_dbs_left(left)),
            (_, ReplyView::Failed(e)) => TurnView::Fail(e),
            (OldDbsView::Dropping { id, left }, _) => TurnView::Ask(old_dbs_left(left)),
            (OldDbsView::DroppingTable, _) => TurnView::Done(()),
            // Nothing else is an answer.
            _ => TurnView::Ask(self),
        }
    }
}

/// Remove the databases of a table of tests in the old style, and the table itself.
pub fn cleanup_old_dbs() -> (r: OldDbsRun)
    ensures
        r@ == OldDbsView::Listing,
{
    OldDbsRun::Listing
}

fn go_on_with(mut ids: Vec<u64>) -> (r: OldDbsRun)
    ensures
        r@ == old_dbs_left(ids@),
{
    if ids.len() > 0 {
        let ghost all = ids@;
        let id = ids.remove(0);
        assert(ids@ =~= all.skip(1));
        OldDbsRun::Dropping { id, left: ids }
    } else {
        OldDbsRun::DroppingTable
    }
}

impl OldDbsRun {
    /// The next command.
    pub fn command(&self) -> (r: Command)
        ensures
            r@ == self@.command(),
    {
        match self {
            OldDbsRun::Listing => fetch_command(
                Session::Primary,
                String::from_str(sql::LIST_OLD_TESTS),
                Shape::Ids,
            ),
            OldDbsRun::Dropping { id, left: _ } => execute_command(
                Session::Primary,
                sql::drop_old_sql(*id),
            ),
            OldDbsRun::DroppingTable => execute_command(
                Session::Primary,
                String::from_str(sql::DROP_TESTS_TABLE),
            ),
        }
    }

    /// Whether the removal can go on from `reply`.
    pub fn admits(&self, reply: &Reply) -> (r: bool)
        ensures
            r == self@.command().answered_by(reply@),
    {
        self.command().answered_by(reply)
    }

    /// Goes on from the reply to the last command.
    pub fn resume(self, reply: Reply) -> (r: Turn<OldDbsRun, ()>)
        requires
            self@.command().answered_by(reply@),
        ensures
            r@ == self@.next(reply@),
    {
        match (self, reply) {
            (OldDbsRun::Listing, Reply::Ids(ids)) => Turn::Ask(go_on_with(ids)),
            (OldDbsRun::Listing, Reply::Failed(Error::Database { number, message })) => {
                if number == BAD_FIELD_ERROR || number == NO_SUCH_TABLE {
                    Turn::Done(())
                } else {
                    Turn::Fail(Error::Database { number, message })
                }
            },
            (
                OldDbsRun::Dropping { id: _, left },
                Reply::Failed(Error::Database { number: _, message: _ }),
            ) => Turn::Ask(go_on_with(left)),
            (_, Reply::Failed(e)) => Turn::Fail(e),
            (OldDbsRun::Dropping { id: _, left }, _) => Turn::Ask(go_on_with(left)),
            (OldDbsRun::DroppingTable, _) => Turn::Done(()),
            (run, _) => Turn::Ask(run),
        }
    }
}

// ---------------------------------------------------------------------------
// All databases on the list

/// How far the cleanup of all test databases has come.
#[derive(Debug)]
pub enum TestDbsRun {
    Connecting,
    Listing,
    /// Drop a database; `deleted` are dropped.
    Dropping { db_name: String, left: Vec<String>, deleted: Vec<String> },
    /// Strike the dropped databases off the list.
    Forgetting { deleted: Vec<String> },
    Closing { count: usize },
}

/// The model of a [`TestDbsRun`].
pub enum TestDbsView {
    Connecting,
    Listing,
    Dropping { db_name: Text, left: Seq<Text>, deleted: Seq<Text> },
    Forgetting { deleted: Seq<Text> },
    Closing { count: usize },
}

impl View for TestDbsRun {
    type V = TestDbsView;

    open spec fn view(&self) -> TestDbsView {
        match self {
            TestDbsRun::Connecting => TestDbsView::Connecting,
            TestDbsRun::Listing => TestDbsView::Listing,
            TestDbsRun::Dropping { db_name, left, deleted } => TestDbsView::Dropping {
                db_name: db_name@,
                left: text::texts(left@),
                deleted: text::texts(deleted@),
            },
            TestDbsRun::Forgetting { deleted } => TestDbsView::Forgetting {
                deleted: text::texts(deleted@),
            },
            TestDbsRun::Closing { count } => TestDbsView::Closing { count: *count },
        }
    }
}

/// The cleanup goes on with the databases `left`; `deleted` are dropped. Where none could be
/// dropped there is nothing to strike off the list.
pub open spec fn test_dbs_left(left: Seq<Text>, deleted: Seq<Text>) -> TurnView<
    TestDbsView,
    Option<usize>,
> {
    if left.len() > 0 {
        TurnView::Ask(
            TestDbsView::Dropping { db_name: left[0], left: left.skip(1), deleted },
        )
    } else if deleted.len() > 0 {
        TurnView::Ask(TestDbsView::Forgetting { deleted })
    } else {
        TurnView::Done(None)
    }
}

impl TestDbsView {
    /// The next command.
    pub open spec fn command(self) -> CommandView {
        match self {
            TestDbsView::Connecting => CommandView::Connect { database: None },
            TestDbsView::Listing => protocol::fetch(
                Session::Secondary,
                sql::LIST_TESTS@,
                Shape::Names,
            ),
            TestDbsView::Dropping { db_name, left, deleted } => protocol::execute(
                Session::Secondary,
                sql::drop_listed(db_name),
            ),
            TestDbsView::Forgetting { deleted } => CommandView::Execute {
                session: Session::Secondary,
                sql: sql::forget_listed(deleted.len()),
                params: deleted,
            },
            TestDbsView::Closing { count } => CommandView::Close,
        }
    }

    /// Where the cleanup stands after `reply`. In the end it tells how many databases were
    /// deleted, if any.
    pub open spec fn next(self, reply: ReplyView) -> TurnView<TestDbsView, Option<usize>> {
        match (self, reply) {
            // Closing may fail: the work is done.
            (TestDbsView::Closing { count }, _) => TurnView::Done(Some(count)),
            // A database error just means the database is still in use.
            (
                TestDbsView::Dropping { db_name, left, deleted },
                ReplyView::Failed(ErrorView::Database { number, message }),
            ) => test_dbs_left(left, deleted),
            (_, ReplyView::Failed(e)) => TurnView::Fail(e),
            (TestDbsView::Connecting, _) => TurnView::Ask(TestDbsView::Listing),
            (TestDbsView::Listing, ReplyView::Names(names)) => test_dbs_left(
                names,
                Seq::empty(),
            ),
            (TestDbsView::Dropping { db_name, left, deleted }, _) => test_dbs_left(
                left,
                deleted.push(db_name),
            ),
            (TestDbsView::Forgetting { deleted }, _) => TurnView::Ask(
                TestDbsView::Closing { count: deleted.len() as usize },
            ),
            // Nothing else is an answer.
            _ => TurnView::Ask(self),
        }
    }
}

/// Cleanup any test databases that are no longer in-use.
///
/// In the end it gives a count of the databases deleted, if any.
pub fn cleanup_test_dbs() -> (r: TestDbsRun)
    ensures
        r@ == TestDbsView::Connecting,
{
    TestDbsRun::Connecting
}

fn go_on_with_names(mut left: Vec<String>, deleted: Vec<String>) -> (r: Turn<
    TestDbsRun,
    Option<usize>,
>)
    ensures
        r@ == test_dbs_left(text::texts(left@), text::texts(deleted@)),
{
    if left.len() > 0 {
        let ghost all = left@;
        let db_name = left.remove(0);
        assert(text::texts(left@) =~= text::texts(all).skip(1));
        Turn::Ask(TestDbsRun::Dropping { db_name, left, deleted })
    } else if deleted.len() > 0 {
        Turn::Ask(TestDbsRun::Forgetting { deleted })
    } else {
        Turn::Done(None)
    }
}

fn copies(names: &Vec<String>) -> (r: Vec<String>)
    ensures
        text::texts(r@) == text::texts(names@),
{
    let mut r: Vec<String> = Vec::new();
    let mut i: usize = 0;
    while i < names.len()
        invariant
            i <= names@.len(),
            text::texts(r@) == text::texts(names@.take(i as int)),
        decreases names@.len() - i,
    {
        let ghost before = r@;
        r.push(names[i].clone());
        assert(text::texts(r@) =~= text::texts(before).push(names@[i as int]@));
        assert(text::texts(names@.take(i + 1)) =~= text::texts(names@.take(i as int)).push(
            names@[i as int]@,
        ));
        i += 1;
    }
    assert(names@.take(i as int) =~= names@);
    r
}

impl TestDbsRun {
    /// The next command.
    pub fn command(&self) -> (r: Command)
        ensures
            r@ == self@.command(),
    {
        match self {
            TestDbsRun::Connecting => Command::Connect { database: None },
            TestDbsRun::Listing => fetch_command(
                Session::Secondary,
                String::from_str(sql::LIST_TESTS),
                Shape::Names,
            ),
            TestDbsRun::Dropping { db_name, left: _, deleted: _ } => execute_command(
                Session::Secondary,
                sql::drop_listed_sql(db_name.as_str()),
            ),
            TestDbsRun::Forgetting { deleted } => Command::Execute {
                session: Session::Secondary,
                sql: sql::forget_listed_sql(deleted.len()),
                params: copies(deleted),
            },
            TestDbsRun::Closing { count: _ } => Command::Close,
        }
    }

    /// Whether the cleanup can go on from `reply`.
    pub fn admits(&self, reply: &Reply) -> (r: bool)
        ensures
            r == self@.command().answered_by(reply@),
    {
        self.command().answered_by(reply)
    }

    /// Goes on from the reply to the last command.
    pub fn resume(self, reply: Reply) -> (r: Turn<TestDbsRun, Option<usize>>)
        requires
            self@.command().answered_by(reply@),
        ensures
            r@ == self@.next(reply@),
    {
        match (self, reply) {
            (TestDbsRun::Closing { count }, _) => Turn::Done(Some(count)),
            (
                TestDbsRun::Dropping { db_name: _, left, deleted },
                Reply::Failed(Error::Database { number: _, message: _ }),
            ) => go_on_with_names(left, deleted),
            (_, Reply::Failed(e)) => Turn::Fail(e),
            (TestDbsRun::Connecting, _) => Turn::Ask(TestDbsRun::Listing),
            (TestDbsRun::Listing, Reply::Names(names)) => {
                let deleted: Vec<String> = Vec::new();
                assert(text::texts(deleted@) =~= Seq::empty());
                go_on_with_names(names, deleted)
            },
            (TestDbsRun::Dropping { db_name, left, deleted }, _) => {
                let mut deleted = deleted;
                let ghost before = deleted@;
                deleted.push(db_name);
                assert(text::texts(deleted@) =~= text::texts(before).push(db_name@));
                go_on_with_names(left, deleted)
            },
            (TestDbsRun::Forgetting { deleted }, _) => Turn::Ask(
                TestDbsRun::Closing { count: deleted.len() },
            ),
            (run, _) => Turn::Ask(run),
        }
    }
}

// ---------------------------------------------------------------------------
// What holds of the cleanups as a whole

/// Where the cleanup of all test databases stands after it asked for each command of `script`
/// in turn and got the reply beside it; `None` where it asks for something else, or the reply
/// is no answer.
pub open spec fn test_dbs_played(
    turn: TurnView<TestDbsView, Option<usize>>,
    script: Seq<Exchange>,
) -> Option<TurnView<TestDbsView, Option<usize>>>
    decreases script.len(),
{
    if script.len() == 0 {
        Some(turn)
    } else {
        match turn {
            TurnView::Ask(run) => if run.command() == script[0].command
                && run.command().answered_by(script[0].reply) {
                test_dbs_played(run.next(script[0].reply), script.skip(1))
            } else {
                None
            },
            _ => None,
        }
    }
}

/// The attempt to drop a database, over `session`: refused with a database error where the
/// database is still in use.
pub open spec fn drop_attempt(session: Session, sql: Text, in_use: Option<ErrorView>) -> Exchange {
    Exchange {
        command: protocol::execute(session, sql),
        reply: match in_use {
            Some(e) => ReplyView::Failed(e),
            None => ReplyView::Done,
        },
    }
}

/// The attempts to drop each of `names`, given which of them are in use.
pub open spec fn drop_attempts(
    names: Seq<Text>,
    in_use: spec_fn(Text) -> Option<ErrorView>,
) -> Seq<Exchange> {
    names.map_values(
        |name: Text| drop_attempt(Session::Secondary, sql::drop_listed(name), in_use(name)),
    )
}

/// The names of `names` that are not in use, in order.
pub open spec fn free_names(
    names: Seq<Text>,
    in_use: spec_fn(Text) -> Option<ErrorView>,
) -> Seq<Text>
    decreases names.len(),
{
    if names.len() == 0 {
        Seq::empty()
    } else if in_use(names[0]) is None {
        seq![names[0]] + free_names(names.skip(1), in_use)
    } else {
        free_names(names.skip(1), in_use)
    }
}

proof fn lemma_test_dbs_played(run: TestDbsView, x: Exchange, tail: Seq<Exchange>)
    requires
        run.command() == x.command,
        run.command().answered_by(x.reply),
    ensures
        test_dbs_played(TurnView::Ask(run), seq![x] + tail) == test_dbs_played(
            run.next(x.reply),
            tail,
        ),
{
    assert((seq![x] + tail).skip(1) =~= tail);
}

proof fn lemma_drop_attempts(
    left: Seq<Text>,
    deleted: Seq<Text>,
    in_use: spec_fn(Text) -> Option<ErrorView>,
    tail: Seq<Exchange>,
)
    requires
        forall|name: Text| #[trigger] in_use(name) matches Some(e) ==> e is Database,
    ensures
        test_dbs_played(test_dbs_left(left, deleted), drop_attempts(left, in_use) + tail)
            == test_dbs_played(
            test_dbs_left(Seq::empty(), deleted + free_names(left, in_use)),
            tail,
        ),
    decreases left.len(),
{
    if left.len() == 0 {
        assert(left =~= Seq::empty());
        assert(drop_attempts(left, in_use) + tail =~= tail);
        assert(deleted + free_names(left, in_use) =~= deleted);
    } else {
        let name = left[0];
        let rest = left.skip(1);
        let x = drop_attempt(Session::Secondary, sql::drop_listed(name), in_use(name));
        let script = drop_attempts(rest, in_use) + tail;
        assert(drop_attempts(left, in_use) + tail =~= seq![x] + script);
        lemma_test_dbs_played(
            TestDbsView::Dropping { db_name: name, left: rest, deleted },
            x,
            script,
        );
        if in_use(name) is None {
            lemma_drop_attempts(rest, deleted.push(name), in_use, tail);
            assert(deleted.push(name) + free_names(rest, in_use) =~= deleted + free_names(
                left,
                in_use,
            ));
        } else {
            lemma_drop_attempts(rest, deleted, in_use, tail);
        }
    }
}

/// The cleanup tries to drop every database on the list once, in order. Those that are in use
/// stay, and stay on the list; all others are struck off it, and their count is the result.
/// Where none is free the list is left alone and there is no count.
pub proof fn law_free_databases_are_deleted(
    names: Seq<Text>,
    in_use: spec_fn(Text) -> Option<ErrorView>,
    closed: ReplyView,
)
    requires
        forall|name: Text| #[trigger] in_use(name) matches Some(e) ==> e is Database,
        closed is Done || closed is Failed,
    ensures
        ({
            let free = free_names(names, in_use);
            let start = TurnView::<TestDbsView, Option<usize>>::Ask(TestDbsView::Connecting);
            let attempts = seq![
                Exchange {
                    command: CommandView::Connect { database: None },
                    reply: ReplyView::Done,
                },
                Exchange {
                    command: protocol::fetch(Session::Secondary, sql::LIST_TESTS@, Shape::Names),
                    reply: ReplyView::Names(names),
                },
            ] + drop_attempts(names, in_use);
            &&& free.len() == 0 ==> test_dbs_played(start, attempts) == Some(
                TurnView::<TestDbsView, Option<usize>>::Done(None),
            )
            &&& free.len() > 0 ==> test_dbs_played(
                start,
                attempts + seq![
                    Exchange {
                        command: CommandView::Execute {
                            session: Session::Secondary,
                            sql: sql::forget_listed(free.len()),
                            params: free,
                        },
                        reply: ReplyView::Done,
                    },
                    Exchange { command: CommandView::Close, reply: closed },
                ],
            ) == Some(
                TurnView::<TestDbsView, Option<usize>>::Done(Some(free.len() as usize)),
            )
        }),
{
    let free = free_names(names, in_use);
    let none = Seq::<Text>::empty();
    let end = Seq::<Exchange>::empty();
    let x = Exchange {
        command: CommandView::Connect { database: None },
        reply: ReplyView::Done,
    };
    let y = Exchange {
        command: protocol::fetch(Session::Secondary, sql::LIST_TESTS@, Shape::Names),
        reply: ReplyView::Names(names),
    };
    let z = Exchange {
        command: CommandView::Execute {
            session: Session::Secondary,
            sql: sql::forget_listed(free.len()),
            params: free,
        },
        reply: ReplyView::Done,
    };
    let w = Exchange { command: CommandView::Close, reply: closed };
    let drops = drop_attempts(names, in_use);
    assert(none + free =~= free);
    if free.len() == 0 {
        assert(seq![x, y] + drops =~= seq![x] + (seq![y] + (drops + end)));
        lemma_test_dbs_played(TestDbsView::Connecting, x, seq![y] + (drops + end));
        lemma_test_dbs_played(TestDbsView::Listing, y, drops + end);
        lemma_drop_attempts(names, none, in_use, end);
    } else {
        let tail = seq![z] + (seq![w] + end);
        assert(seq![x, y] + drops + seq![z, w] =~= seq![x] + (seq![y] + (drops + tail)));
        lemma_test_dbs_played(TestDbsView::Connecting, x, seq![y] + (drops + tail));
        lemma_test_dbs_played(TestDbsView::Listing, y, drops + tail);
        lemma_drop_attempts(names, none, in_use, tail);
        lemma_test_dbs_played(TestDbsView::Forgetting { deleted: free }, z, seq![w] + end);
        lemma_test_dbs_played(TestDbsView::Closing { count: free.len() as usize }, w, end);
    }
}

/// Where the removal of old-style databases stands after it asked for each command of `script`
/// in turn and got the reply beside it.
pub open spec fn old_dbs_played(
    turn: TurnView<OldDbsView, ()>,
    script: Seq<Exchange>,
) -> Option<TurnView<OldDbsView, ()>>
    decreases script.len(),
{
    if script.len() == 0 {
        Some(turn)
    } else {
        match turn {
            TurnView::Ask(run) => if run.command() == script[0].command
                && run.command().answered_by(script[0].reply) {
                old_dbs_played(run.next(script[0].reply), script.skip(1))
            } else {
                None
            },
            _ => None,
        }
    }
}

/// The attempts to drop the databases of `ids`, given which of them are in use.
pub open spec fn old_drop_attempts(
    ids: Seq<u64>,
    in_use: spec_fn(u64) -> Option<ErrorView>,
) -> Seq<Exchange> {
    ids.map_values(|id: u64| drop_attempt(Session::Primary, sql::drop_old(id), in_use(id)))
}

proof fn lemma_old_dbs_played(run: OldDbsView, x: Exchange, tail: Seq<Exchange>)
    requires
        run.command() == x.command,
        run.command().answered_by(x.reply),
    ensures
        old_dbs_played(TurnView::Ask(run), seq![x] + tail) == old_dbs_played(
            run.next(x.reply),
            tail,
        ),
{
    assert((seq![x] + tail).skip(1) =~= tail);
}

proof fn lemma_old_drop_attempts(
    ids: Seq<u64>,
    in_use: spec_fn(u64) -> Option<ErrorView>,
    tail: Seq<Exchange>,
)
    requires
        forall|id: u64| #[trigger] in_use(id) matches Some(e) ==> e is Database,
    ensures
        old_dbs_played(TurnView::Ask(old_dbs_left(ids)), old_drop_attempts(ids, in_use) + tail)
            == old_dbs_played(TurnView::Ask(OldDbsView::DroppingTable), tail),
    decreases ids.len(),
{
    if ids.len() == 0 {
        assert(old_drop_attempts(ids, in_use) + tail =~= tail);
    } else {
        let id = ids[0];
        let x = drop_attempt(Session::Primary, sql::drop_old(id), in_use(id));
        let script = old_drop_attempts(ids.skip(1), in_use) + tail;
        assert(old_drop_attempts(ids, in_use) + tail =~= seq![x] + script);
        lemma_old_dbs_played(OldDbsView::Dropping { id, left: ids.skip(1) }, x, script);
        lemma_old_drop_attempts(ids.skip(1), in_use, tail);
    }
}

/// A table of tests in the old style goes away with its databases: each is tried once, one that
/// is in use does not stop the rest, and the table is dropped in the end.
pub proof fn law_old_databases_are_dropped(
    ids: Seq<u64>,
    in_use: spec_fn(u64) -> Option<ErrorView>,
)
    requires
        forall|id: u64| #[trigger] in_use(id) matches Some(e) ==> e is Database,
    ensures
        old_dbs_played(
            TurnView::Ask(OldDbsView::Listing),
            seq![
                Exchange {
                    command: protocol::fetch(Session::Primary, sql::LIST_OLD_TESTS@, Shape::Ids),
                    reply: ReplyView::Ids(ids),
                },
            ] + old_drop_attempts(ids, in_use) + seq![
                Exchange {
                    command: protocol::execute(Session::Primary, sql::DROP_TESTS_TABLE@),
                    reply: ReplyView::Done,
                },
            ],
        ) == Some(TurnView::<OldDbsView, ()>::Done(())),
{
    let x = Exchange {
        command: protocol::fetch(Session::Primary, sql::LIST_OLD_TESTS@, Shape::Ids),
        reply: ReplyView::Ids(ids),
    };
    let y = Exchange {
        command: protocol::execute(Session::Primary, sql::DROP_TESTS_TABLE@),
        reply: ReplyView::Done,
    };
    let end = Seq::<Exchange>::empty();
    let drops = old_drop_attempts(ids, in_use);
    assert(seq![x] + drops + seq![y] =~= seq![x] + (drops + (seq![y] + end)));
    lemma_old_dbs_played(OldDbsView::Listing, x, drops + (seq![y] + end));
    lemma_old_drop_attempts(ids, in_use, seq![y] + end);
    lemma_old_dbs_played(OldDbsView::DroppingTable, y, end);
}

/// A table of tests in the new style, or none at all, is left alone: the column or the table
/// is missing, and that is the end of it.
pub proof fn law_new_table_is_left_alone(number: u16, message: Text)
    requires
        number == BAD_FIELD_ERROR || number == NO_SUCH_TABLE,
    ensures
        OldDbsView::Listing.next(ReplyView::Failed(ErrorView::Database { number, message }))
            == TurnView::<OldDbsView, ()>::Done(()),
{
}

/// The database of one test is dropped and struck off the list, over a connection taken for it,
/// and the first step that fails ends it with its error.
pub proof fn law_one_database_is_removed(db_name: Text, e: ErrorView)
    ensures
        ({
            let acquiring = CleanupView { db_name, stage: CleanupStage::Acquiring };
            let dropping = CleanupView { db_name, stage: CleanupStage::Dropping };
            let forgetting = CleanupView { db_name, stage: CleanupStage::Forgetting };
            &&& acquiring.command() is Acquire
            &&& acquiring.next(ReplyView::Done) == TurnView::<CleanupView, ()>::Ask(dropping)
            &&& dropping.command() == (CommandView::Execute {
                session: Session::Primary,
                sql: "drop database if exists "@ + db_name + ";"@,
                params: seq![],
            })
            &&& dropping.next(ReplyView::Done) == TurnView::<CleanupView, ()>::Ask(forgetting)
            &&& forgetting.command() == (CommandView::Execute {
                session: Session::Primary,
                sql: "delete from _sqlx_test_databases where db_name = ?"@,
                params: seq![db_name],
            })
            &&& forgetting.next(ReplyView::Done) == TurnView::<CleanupView, ()>::Done(())
            &&& acquiring.next(ReplyView::Failed(e)) == TurnView::<CleanupView, ()>::Fail(e)
            &&& dropping.next(ReplyView::Failed(e)) == TurnView::<CleanupView, ()>::Fail(e)
            &&& forgetting.next(ReplyView::Failed(e)) == TurnView::<CleanupView, ()>::Fail(e)
        }),
{
}

/// Only a database that is in use, or a list that needs no cleanup, is passed over: any other
/// failure ends the removal of old-style test databases with its error.
pub proof fn law_other_failures_end_the_removal(run: OldDbsView, e: ErrorView)
    requires
        run is Listing ==> !(e is Database && (e->number == 1054 || e->number == 1146)),
        run is Dropping ==> !(e is Database),
    ensures
        run.next(ReplyView::Failed(e)) == TurnView::<OldDbsView, ()>::Fail(e),
{
}

/// Only a database that is in use is passed over: any other failure before the end of the work
/// ends the cleanup with its error.
pub proof fn law_other_failures_end_the_cleanup(run: TestDbsView, e: ErrorView)
    requires
        run is Dropping ==> !(e is Database),
        !(run is Closing),
    ensures
        run.next(ReplyView::Failed(e)) == TurnView::<TestDbsView, Option<usize>>::Fail(e),
{
}

} // verus!
