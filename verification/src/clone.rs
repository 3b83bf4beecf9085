//! Cloning a template database: tables with their data, auto-increment counters, foreign
//! keys, views, triggers, routines and events.
//!
//! A clone is an agenda of [`Task`]s. Each task is one command; the reply to it puts the
//! tasks that follow from it in front of those that are left.

use crate::protocol::{
    self, execute_command, fetch_command, fetch_with_command, Command, CommandView, Error,
    ErrorView, Reply, ReplyView, Session, Shape, Turn, TurnView,
};
use crate::refs::{self, replace_database_refs};
use crate::sql::{self, ForeignKey, ForeignKeyView};
use crate::text::{self, Text};
use vstd::prelude::*;

verus! {

/// One step of a clone.
#[derive(Debug)]
pub enum Task {
    CreateDatabase,
    Connect,
    ListTables,
    /// Copy a table's structure (indexes, defaults, but not foreign keys).
    CreateTable { table: String },
    /// Copy a table's rows.
    FillTable { table: String },
    ListCounters,
    /// Read the largest value in an auto-increment column.
    ReadCounter { table: String, column: String },
    /// Let a table's counter go on after its largest value.
    SetCounter { table: String, next: i64 },
    ListKeys,
    AddKey { key: ForeignKey },
    ListViews,
    /// Read the statement of `view`, then those of `left`; `statements` are read.
    ReadView { view: String, left: Vec<String>, statements: Vec<String> },
    /// Try to create a view, then those of `left`. Of the `size` views of this round, those of
    /// `failed` could not be created.
    CreateView { statement: String, left: Vec<String>, failed: Vec<String>, size: usize },
    /// Try a view once more, for the error, after a round in which every view failed.
    ConfirmView { statement: String },
    ListTriggers,
    ReadTrigger { name: String },
    ListRoutines,
    ReadRoutine { name: String, routine_type: String },
    ListEvents,
    ReadEvent { name: String },
    /// Create a trigger, a routine or an event.
    Create { statement: String },
    Close,
}

/// The model of a [`Task`].
pub enum TaskView {
    CreateDatabase,
    Connect,
    ListTables,
    CreateTable { table: Text },
    FillTable { table: Text },
    ListCounters,
    ReadCounter { table: Text, column: Text },
    SetCounter { table: Text, next: int },
    ListKeys,
    AddKey { key: ForeignKeyView },
    ListViews,
    ReadView { view: Text, left: Seq<Text>, statements: Seq<Text> },
    CreateView { statement: Text, left: Seq<Text>, failed: Seq<Text>, size: nat },
    ConfirmView { statement: Text },
    ListTriggers,
    ReadTrigger { name: Text },
    ListRoutines,
    ReadRoutine { name: Text, routine_type: Text },
    ListEvents,
    ReadEvent { name: Text },
    Create { statement: Text },
    Close,
}

impl View for Task {
    type V = TaskView;

    open spec fn view(&self) -> TaskView {
        match self {
            Task::CreateDatabase => TaskView::CreateDatabase,
            Task::Connect => TaskView::Connect,
            Task::ListTables => TaskView::ListTables,
            Task::CreateTable { table } => TaskView::CreateTable { table: table@ },
            Task::FillTable { table } => TaskView::FillTable { table: table@ },
            Task::ListCounters => TaskView::ListCounters,
            Task::ReadCounter { table, column } => TaskView::ReadCounter {
                table: table@,
                column: column@,
            },
            Task::SetCounter { table, next } => TaskView::SetCounter {
                table: table@,
                next: *next as int,
            },
            Task::ListKeys => TaskView::ListKeys,
            Task::AddKey { key } => TaskView::AddKey { key: key@ },
            Task::ListViews => TaskView::ListViews,
            Task::ReadView { view, left, statements } => TaskView::ReadView {
                view: view@,
                left: text::texts(left@),
                statements: text::texts(statements@),
            },
            Task::CreateView { statement, left, failed, size } => TaskView::CreateView {
                statement: statement@,
                left: text::texts(left@),
                failed: text::texts(failed@),
                size: *size as nat,
            },
            Task::ConfirmView { statement } => TaskView::ConfirmView { statement: statement@ },
            Task::ListTriggers => TaskView::ListTriggers,
            Task::ReadTrigger { name } => TaskView::ReadTrigger { name: name@ },
            Task::ListRoutines => TaskView::ListRoutines,
            Task::ReadRoutine { name, routine_type } => TaskView::ReadRoutine {
                name: name@,
                routine_type: routine_type@,
            },
            Task::ListEvents => TaskView::ListEvents,
            Task::ReadEvent { name } => TaskView::ReadEvent { name: name@ },
            Task::Create { statement } => TaskView::Create { statement: statement@ },
            Task::Close => TaskView::Close,
        }
    }
}

// ---------------------------------------------------------------------------
// What a task asks for and what follows from the reply

/// The tasks that copy `tables`, one table after the other.
pub open spec fn table_tasks(tables: Seq<Text>) -> Seq<TaskView>
    decreases tables.len(),
{
    if tables.len() == 0 {
        Seq::empty()
    } else {
        seq![
            TaskView::CreateTable { table: tables[0] },
            TaskView::FillTable { table: tables[0] },
        ] + table_tasks(tables.skip(1))
    }
}

/// The tasks that adjust `counters`, each a table and its auto-increment column.
pub open spec fn counter_tasks(counters: Seq<(Text, Text)>) -> Seq<TaskView> {
    counters.map_values(|c: (Text, Text)| TaskView::ReadCounter { table: c.0, column: c.1 })
}

pub open spec fn key_tasks(keys: Seq<ForeignKeyView>) -> Seq<TaskView> {
    keys.map_values(|k: ForeignKeyView| TaskView::AddKey { key: k })
}

/// The tasks that read the statements of `views` after `statements`, then create them all.
pub open spec fn reading_tasks(views: Seq<Text>, statements: Seq<Text>) -> Seq<TaskView> {
    if views.len() > 0 {
        seq![TaskView::ReadView { view: views[0], left: views.skip(1), statements }]
    } else {
        round_tasks(statements)
    }
}

/// The tasks of a round that tries to create each view of `statements`.
pub open spec fn round_tasks(statements: Seq<Text>) -> Seq<TaskView> {
    if statements.len() > 0 {
        seq![
            TaskView::CreateView {
                statement: statements[0],
                left: statements.skip(1),
                failed: Seq::empty(),
                size: statements.len(),
            },
        ]
    } else {
        Seq::empty()
    }
}

/// The tasks that go on with a round of `size` views, `left` of which are still to try and
/// `failed` of which failed. After a round the views that failed are tried again, unless that
/// would make no progress because all of them failed.
pub open spec fn round_goes_on(left: Seq<Text>, failed: Seq<Text>, size: nat) -> Seq<TaskView> {
    if left.len() > 0 {
        seq![TaskView::CreateView { statement: left[0], left: left.skip(1), failed, size }]
    } else if failed.len() > 0 && failed.len() == size {
        seq![TaskView::ConfirmView { statement: failed[0] }]
    } else {
        round_tasks(failed)
    }
}

pub open spec fn trigger_tasks(names: Seq<Text>) -> Seq<TaskView> {
    names.map_values(|n: Text| TaskView::ReadTrigger { name: n })
}

pub open spec fn routine_tasks(routines: Seq<(Text, Text)>) -> Seq<TaskView> {
    routines.map_values(|r: (Text, Text)| TaskView::ReadRoutine { name: r.0, routine_type: r.1 })
}

pub open spec fn event_tasks(names: Seq<Text>) -> Seq<TaskView> {
    names.map_values(|n: Text| TaskView::ReadEvent { name: n })
}

/// The value after the largest one in a column, or 1 for an empty table.
pub open spec fn next_counter(max: Option<i64>) -> int {
    match max {
        Some(n) => n + 1,
        None => 1,
    }
}

/// The tasks of cloning everything in a database that exists.
pub open spec fn object_tasks() -> Seq<TaskView> {
    seq![
        TaskView::Connect,
        TaskView::ListTables,
        TaskView::ListCounters,
        TaskView::ListKeys,
        TaskView::ListViews,
        TaskView::ListTriggers,
        TaskView::ListRoutines,
        TaskView::ListEvents,
        TaskView::Close,
    ]
}

impl TaskView {
    /// The command of the task. What is read of the template is read over the primary
    /// connection; the new database is written over the secondary one.
    pub open spec fn command(self, template: Text, new_db: Text) -> CommandView {
        match self {
            TaskView::CreateDatabase => protocol::execute(
                Session::Primary,
                sql::create_clone(new_db),
            ),
            TaskView::Connect => CommandView::Connect { database: Some(new_db) },
            TaskView::ListTables => protocol::fetch_with(
                Session::Primary,
                sql::LIST_TABLES@,
                template,
                Shape::Names,
            ),
            TaskView::CreateTable { table } => protocol::execute(
                Session::Secondary,
                sql::create_table(new_db, template, table),
            ),
            TaskView::FillTable { table } => protocol::execute(
                Session::Secondary,
                sql::fill_table(new_db, template, table),
            ),
            TaskView::ListCounters => protocol::fetch_with(
                Session::Secondary,
                sql::LIST_AUTO_INCREMENTS@,
                new_db,
                Shape::Pairs,
            ),
            TaskView::ReadCounter { table, column } => protocol::fetch(
                Session::Secondary,
                sql::max_of_column(new_db, table, column),
                Shape::MaybeNumber,
            ),
            TaskView::SetCounter { table, next } => protocol::execute(
                Session::Secondary,
                sql::set_auto_increment(new_db, table, next),
            ),
            TaskView::ListKeys => protocol::fetch_with(
                Session::Primary,
                sql::LIST_FOREIGN_KEYS@,
                template,
                Shape::ForeignKeys,
            ),
            TaskView::AddKey { key } => protocol::execute(
                Session::Secondary,
                sql::add_foreign_key(new_db, key),
            ),
            TaskView::ListViews => protocol::fetch_with(
                Session::Primary,
                sql::LIST_VIEWS@,
                template,
                Shape::Names,
            ),
            TaskView::ReadView { view, left, statements } => protocol::fetch(
                Session::Primary,
                sql::show_create("VIEW"@, template, view),
                Shape::Row { columns: 4 },
            ),
            TaskView::CreateView { statement, left, failed, size } => protocol::execute(
                Session::Secondary,
                statement,
            ),
            TaskView::ConfirmView { statement } => protocol::execute(Session::Secondary, statement),
            TaskView::ListTriggers => protocol::fetch_with(
                Session::Primary,
                sql::LIST_TRIGGERS@,
                template,
                Shape::Names,
            ),
            TaskView::ReadTrigger { name } => protocol::fetch(
                Session::Primary,
                sql::show_create("TRIGGER"@, template, name),
                Shape::Row { columns: 7 },
            ),
            TaskView::ListRoutines => protocol::fetch_with(
                Session::Primary,
                sql::LIST_ROUTINES@,
                template,
                Shape::Pairs,
            ),
            TaskView::ReadRoutine { name, routine_type } => protocol::fetch(
                Session::Primary,
                sql::show_create(sql::routine_kind(routine_type), template, name),
                Shape::Row { columns: 6 },
            ),
            TaskView::ListEvents => protocol::fetch_with(
                Session::Primary,
                sql::LIST_EVENTS@,
                template,
                Shape::Names,
            ),
            TaskView::ReadEvent { name } => protocol::fetch(
                Session::Primary,
                sql::show_create("EVENT"@, template, name),
                Shape::Row { columns: 6 },
            ),
            TaskView::Create { statement } => protocol::execute(Session::Secondary, statement),
            TaskView::Close => CommandView::Close,
        }
    }

    /// Whether the task can go on from `reply`: the reply answers its command, the number
    /// after the largest one of a column exists, and a view that is tried once more for its
    /// error fails once more.
    pub open spec fn admits(self, template: Text, new_db: Text, reply: ReplyView) -> bool {
        &&& self.command(template, new_db).answered_by(reply)
        &&& self is ReadCounter ==> reply != ReplyView::MaybeNumber(Some(i64::MAX))
        &&& self is ConfirmView ==> reply is Failed
    }

    /// What follows from a success.
    pub open spec fn followed_by(self, template: Text, new_db: Text, reply: ReplyView) -> Seq<
        TaskView,
    > {
        match (self, reply) {
            (TaskView::ListTables, ReplyView::Names(tables)) => table_tasks(tables),
            (TaskView::ListCounters, ReplyView::Pairs(counters)) => counter_tasks(counters),
            (TaskView::ReadCounter { table, column }, ReplyView::MaybeNumber(max)) => seq![
                TaskView::SetCounter { table, next: next_counter(max) },
            ],
            (TaskView::ListKeys, ReplyView::ForeignKeys(keys)) => key_tasks(keys),
            (TaskView::ListViews, ReplyView::Names(views)) => reading_tasks(views, Seq::empty()),
            (TaskView::ReadView { view, left, statements }, ReplyView::Row(row)) => reading_tasks(
                left,
                statements.push(refs::redirected(row[1], template, new_db)),
            ),
            (TaskView::CreateView { statement, left, failed, size }, _) => round_goes_on(
                left,
                failed,
                size,
            ),
            (TaskView::ListTriggers, ReplyView::Names(names)) => trigger_tasks(names),
            (TaskView::ListRoutines, ReplyView::Pairs(routines)) => routine_tasks(routines),
            (TaskView::ListEvents, ReplyView::Names(names)) => event_tasks(names),
            (TaskView::ReadTrigger { name }, ReplyView::Row(row)) => seq![
                TaskView::Create { statement: refs::redirected(row[2], template, new_db) },
            ],
            (TaskView::ReadRoutine { name, routine_type }, ReplyView::Row(row)) => seq![
                TaskView::Create { statement: refs::redirected(row[2], template, new_db) },
            ],
            (TaskView::ReadEvent { name }, ReplyView::Row(row)) => seq![
                TaskView::Create { statement: refs::redirected(row[3], template, new_db) },
            ],
            _ => Seq::empty(),
        }
    }

    /// What follows from a reply: more tasks, or the end with an error. Only the creation of a
    /// view may fail without ending the clone: it is tried again later.
    pub open spec fn outcome(self, template: Text, new_db: Text, reply: ReplyView) -> Result<
        Seq<TaskView>,
        ErrorView,
    > {
        match (self, reply) {
            (
                TaskView::CreateView { statement, left, failed, size },
                ReplyView::Failed(_),
            ) => Ok(round_goes_on(left, failed.push(statement), size)),
            (_, ReplyView::Failed(e)) => Err(e),
            _ => Ok(self.followed_by(template, new_db, reply)),
        }
    }
}

// ---------------------------------------------------------------------------
// The procedure

/// A clone in progress: the task whose command is next, and the tasks after it.
#[derive(Debug)]
pub struct CloneRun {
    template: String,
    new_db: String,
    task: Task,
    /// The tasks after `task`, the last one first.
    later: Vec<Task>,
}

/// The model of a [`CloneRun`].
pub struct CloneView {
    pub template: Text,
    pub new_db: Text,
    pub task: TaskView,
    /// The tasks after `task`, in order.
    pub later: Seq<TaskView>,
}

/// The tasks of a stack, the top first.
pub open spec fn unstacked(stack: Seq<Task>) -> Seq<TaskView> {
    Seq::new(stack.len(), |i: int| stack[stack.len() - 1 - i]@)
}

impl View for CloneRun {
    type V = CloneView;

    closed spec fn view(&self) -> CloneView {
        CloneView {
            template: self.template@,
            new_db: self.new_db@,
            task: self.task@,
            later: unstacked(self.later@),
        }
    }
}

/// Where a clone stands that has `tasks` to do.
pub open spec fn clone_at(template: Text, new_db: Text, tasks: Seq<TaskView>) -> TurnView<
    CloneView,
    (),
> {
    if tasks.len() == 0 {
        TurnView::Done(())
    } else {
        TurnView::Ask(CloneView { template, new_db, task: tasks[0], later: tasks.skip(1) })
    }
}

impl CloneView {
    /// The next command.
    pub open spec fn command(self) -> CommandView {
        self.task.command(self.template, self.new_db)
    }

    /// Whether the clone can go on from `reply`.
    pub open spec fn admits(self, reply: ReplyView) -> bool {
        self.task.admits(self.template, self.new_db, reply)
    }

    /// Where the clone stands after `reply`.
    pub open spec fn next(self, reply: ReplyView) -> TurnView<CloneView, ()> {
        match self.task.outcome(self.template, self.new_db, reply) {
            Ok(more) => clone_at(self.template, self.new_db, more + self.later),
            Err(e) => TurnView::Fail(e),
        }
    }
}

// ---------------------------------------------------------------------------
// Stacks of tasks

proof fn lemma_unstacked_push(stack: Seq<Task>, top: Task)
    ensures
        unstacked(stack.push(top)) == seq![top@] + unstacked(stack),
{
    assert(unstacked(stack.push(top)) =~= seq![top@] + unstacked(stack));
}

proof fn lemma_unstacked_add(below: Seq<Task>, above: Seq<Task>)
    ensures
        unstacked(below + above) == unstacked(above) + unstacked(below),
{
    assert(unstacked(below + above) =~= unstacked(above) + unstacked(below));
}

fn single(task: Task) -> (r: Vec<Task>)
    ensures
        unstacked(r@) == seq![task@],
{
    let mut r: Vec<Task> = Vec::new();
    r.push(task);
    assert(unstacked(r@) =~= seq![task@]);
    r
}

fn none() -> (r: Vec<Task>)
    ensures
        unstacked(r@) == Seq::<TaskView>::empty(),
{
    let r: Vec<Task> = Vec::new();
    assert(unstacked(r@) =~= Seq::empty());
    r
}

fn stack_tables(mut tables: Vec<String>) -> (r: Vec<Task>)
    ensures
        unstacked(r@) == table_tasks(text::texts(tables@)),
{
    let ghost all = text::texts(tables@);
    let mut r: Vec<Task> = none();
    assert(all.skip(all.len() as int) =~= Seq::empty());
    while tables.len() > 0
        invariant
            tables@.len() <= all.len(),
            text::texts(tables@) == all.take(tables@.len() as int),
            unstacked(r@) == table_tasks(all.skip(tables@.len() as int)),
        decreases tables@.len(),
    {
        let ghost n = tables@.len() as int;
        assert(text::texts(tables@)[n - 1] == tables@[n - 1]@);
        if let Some(table) = tables.pop() {
            let ghost fill = Task::FillTable { table };
            let again = table.clone();
            proof {
                let rest = all.skip(n - 1);
                assert(rest[0] == table@);
                assert(rest.skip(1) =~= all.skip(n));
                assert(table_tasks(rest) =~= seq![TaskView::CreateTable { table: table@ }] + (seq![
                    TaskView::FillTable { table: table@ },
                ] + table_tasks(all.skip(n))));
                assert(text::texts(tables@) =~= all.take(n - 1)) by {
                    assert forall|i: int| 0 <= i < n - 1 implies text::texts(tables@)[i]
                        == all.take(n - 1)[i] by {
                        assert(all.take(n)[i] == all[i]);
                    }
                }
            }
            let ghost stack = r@;
            r.push(Task::FillTable { table });
            r.push(Task::CreateTable { table: again });
            proof {
                lemma_unstacked_push(stack, fill);
                lemma_unstacked_push(stack.push(fill), Task::CreateTable { table: again });
            }
        }
    }
    assert(all.skip(0) =~= all);
    r
}

fn stack_counters(mut items: Vec<(String, String)>) -> (r: Vec<Task>)
    ensures
        unstacked(r@) == counter_tasks(protocol::text_pairs(items@)),
{
    let ghost all = protocol::text_pairs(items@);
    let mut r: Vec<Task> = none();
    assert(counter_tasks(all.skip(all.len() as int)) =~= Seq::empty());
    while items.len() > 0
        invariant
            items@.len() <= all.len(),
            protocol::text_pairs(items@) == all.take(items@.len() as int),
            unstacked(r@) == counter_tasks(all.skip(items@.len() as int)),
        decreases items@.len(),
    {
        let ghost n = items@.len() as int;
        assert(protocol::text_pairs(items@)[n - 1] == (items@[n - 1].0@, items@[n - 1].1@));
        if let Some((table, column)) = items.pop() {
            proof {
                assert(all[n - 1] == (table@, column@));
                assert(counter_tasks(all.skip(n - 1)) =~= seq![TaskView::ReadCounter { table: table@, column: column@ }] + counter_tasks(
                    all.skip(n),
                ));
                assert(protocol::text_pairs(items@) =~= all.take(n - 1)) by {
                    assert forall|i: int| 0 <= i < n - 1 implies protocol::text_pairs(items@)[i]
                        == all.take(n - 1)[i] by {
                        assert(all.take(n)[i] == all[i]);
                    }
                }
                lemma_unstacked_push(r@, Task::ReadCounter { table, column });
            }
            r.push(Task::ReadCounter { table, column });
        }
    }
    assert(all.skip(0) =~= all);
    r
}

fn stack_keys(mut items: Vec<ForeignKey>) -> (r: Vec<Task>)
    ensures
        unstacked(r@) == key_tasks(protocol::key_views(items@)),
{
    let ghost all = protocol::key_views(items@);
    let mut r: Vec<Task> = none();
    assert(key_tasks(all.skip(all.len() as int)) =~= Seq::empty());
    while items.len() > 0
        invariant
            items@.len() <= all.len(),
            protocol::key_views(items@) == all.take(items@.len() as int),
            unstacked(r@) == key_tasks(all.skip(items@.len() as int)),
        decreases items@.len(),
    {
        let ghost n = items@.len() as int;
        assert(protocol::key_views(items@)[n - 1] == items@[n - 1]@);
        if let Some(key) = items.pop() {
            proof {
                assert(all[n - 1] == key@);
                assert(key_tasks(all.skip(n - 1)) =~= seq![TaskView::AddKey { key: key@ }] + key_tasks(
                    all.skip(n),
                ));
                assert(protocol::key_views(items@) =~= all.take(n - 1)) by {
                    assert forall|i: int| 0 <= i < n - 1 implies protocol::key_views(items@)[i]
                        == all.take(n - 1)[i] by {
                        assert(all.take(n)[i] == all[i]);
                    }
                }
                lemma_unstacked_push(r@, Task::AddKey { key });
            }
            r.push(Task::AddKey { key });
        }
    }
    assert(all.skip(0) =~= all);
    r
}

fn stack_triggers(mut items: Vec<String>) -> (r: Vec<Task>)
    ensures
        unstacked(r@) == trigger_tasks(text::texts(items@)),
{
    let ghost all = text::texts(items@);
    let mut r: Vec<Task> = none();
    assert(trigger_tasks(all.skip(all.len() as int)) =~= Seq::empty());
    while items.len() > 0
        invariant
            items@.len() <= all.len(),
            text::texts(items@) == all.take(items@.len() as int),
            unstacked(r@) == trigger_tasks(all.skip(items@.len() as int)),
        decreases items@.len(),
    {
        let ghost n = items@.len() as int;
        assert(text::texts(items@)[n - 1] == items@[n - 1]@);
        if let Some(name) = items.pop() {
            proof {
                assert(all[n - 1] == name@);
                assert(trigger_tasks(all.skip(n - 1)) =~= seq![TaskView::ReadTrigger { name: name@ }] + trigger_tasks(
                    all.skip(n),
                ));
                assert(text::texts(items@) =~= all.take(n - 1)) by {
                    assert forall|i: int| 0 <= i < n - 1 implies text::texts(items@)[i]
                        == all.take(n - 1)[i] by {
                        assert(all.take(n)[i] == all[i]);
                    }
                }
                lemma_unstacked_push(r@, Task::ReadTrigger { name });
            }
            r.push(Task::ReadTrigger { name });
        }
    }
    assert(all.skip(0) =~= all);
    r
}

fn stack_routines(mut items: Vec<(String, String)>) -> (r: Vec<Task>)
    ensures
        unstacked(r@) == routine_tasks(protocol::text_pairs(items@)),
{
    let ghost all = protocol::text_pairs(items@);
    let mut r: Vec<Task> = none();
    assert(routine_tasks(all.skip(all.len() as int)) =~= Seq::empty());
    while items.len() > 0
        invariant
            items@.len() <= all.len(),
            protocol::text_pairs(items@) == all.take(items@.len() as int),
            unstacked(r@) == routine_tasks(all.skip(items@.len() as int)),
        decreases items@.len(),
    {
        let ghost n = items@.len() as int;
        assert(protocol::text_pairs(items@)[n - 1] == (items@[n - 1].0@, items@[n - 1].1@));
        if let Some((name, routine_type)) = items.pop() {
            proof {
                assert(all[n - 1] == (name@, routine_type@));
                assert(routine_tasks(all.skip(n - 1)) =~= seq![TaskView::ReadRoutine { name: name@, routine_type: routine_type@ }] + routine_tasks(
                    all.skip(n),
                ));
                assert(protocol::text_pairs(items@) =~= all.take(n - 1)) by {
                    assert forall|i: int| 0 <= i < n - 1 implies protocol::text_pairs(items@)[i]
                        == all.take(n - 1)[i] by {
                        assert(all.take(n)[i] == all[i]);
                    }
                }
                lemma_unstacked_push(r@, Task::ReadRoutine { name, routine_type });
            }
            r.push(Task::ReadRoutine { name, routine_type });
        }
    }
    assert(all.skip(0) =~= all);
    r
}

fn stack_events(mut items: Vec<String>) -> (r: Vec<Task>)
    ensures
        unstacked(r@) == event_tasks(text::texts(items@)),
{
    let ghost all = text::texts(items@);
    let mut r: Vec<Task> = none();
    assert(event_tasks(all.skip(all.len() as int)) =~= Seq::empty());
    while items.len() > 0
        invariant
            items@.len() <= all.len(),
            text::texts(items@) == all.take(items@.len() as int),
            unstacked(r@) == event_tasks(all.skip(items@.len() as int)),
        decreases items@.len(),
    {
        let ghost n = items@.len() as int;
        assert(text::texts(items@)[n - 1] == items@[n - 1]@);
        if let Some(name) = items.pop() {
            proof {
                assert(all[n - 1] == name@);
                assert(event_tasks(all.skip(n - 1)) =~= seq![TaskView::ReadEvent { name: name@ }] + event_tasks(
                    all.skip(n),
                ));
                assert(text::texts(items@) =~= all.take(n - 1)) by {
                    assert forall|i: int| 0 <= i < n - 1 implies text::texts(items@)[i]
                        == all.take(n - 1)[i] by {
                        assert(all.take(n)[i] == all[i]);
                    }
                }
                lemma_unstacked_push(r@, Task::ReadEvent { name });
            }
            r.push(Task::ReadEvent { name });
        }
    }
    assert(all.skip(0) =~= all);
    r
}

/// Takes the first of `items`.
fn take_first(items: &mut Vec<String>) -> (r: String)
    requires
        old(items)@.len() > 0,
    ensures
        r@ == text::texts(old(items)@)[0],
        text::texts(final(items)@) == text::texts(old(items)@).skip(1),
{
    let r = items.remove(0);
    assert(text::texts(items@) =~= text::texts(old(items)@).skip(1));
    r
}

fn stack_round(mut statements: Vec<String>) -> (r: Vec<Task>)
    ensures
        unstacked(r@) == round_tasks(text::texts(statements@)),
{
    let size = statements.len();
    if size > 0 {
        let statement = take_first(&mut statements);
        let failed: Vec<String> = Vec::new();
        assert(text::texts(failed@) =~= Seq::empty());
        single(Task::CreateView { statement, left: statements, failed, size })
    } else {
        none()
    }
}

fn stack_reading(mut views: Vec<String>, statements: Vec<String>) -> (r: Vec<Task>)
    ensures
        unstacked(r@) == reading_tasks(text::texts(views@), text::texts(statements@)),
{
    if views.len() > 0 {
        let view = take_first(&mut views);
        single(Task::ReadView { view, left: views, statements })
    } else {
        stack_round(statements)
    }
}

fn stack_rest_of_round(mut left: Vec<String>, mut failed: Vec<String>, size: usize) -> (r: Vec<
    Task,
>)
    ensures
        unstacked(r@) == round_goes_on(text::texts(left@), text::texts(failed@), size as nat),
{
    if left.len() > 0 {
        let statement = take_first(&mut left);
        single(Task::CreateView { statement, left, failed, size })
    } else if failed.len() > 0 && failed.len() == size {
        // No progress: this round would fail forever
        let statement = take_first(&mut failed);
        single(Task::ConfirmView { statement })
    } else {
        stack_round(failed)
    }
}

impl Task {
    /// The command of the task.
    fn command(&self, template: &str, new_db: &str) -> (r: Command)
        ensures
            r@ == self@.command(template@, new_db@),
    {
        match self {
            Task::CreateDatabase => execute_command(
                Session::Primary,
                sql::create_clone_sql(new_db),
            ),
            Task::Connect => Command::Connect { database: Some(String::from_str(new_db)) },
            Task::ListTables => fetch_with_command(
                Session::Primary,
                sql::LIST_TABLES,
                template,
                Shape::Names,
            ),
            Task::CreateTable { table } => execute_command(
                Session::Secondary,
                sql::create_table_sql(new_db, template, table.as_str()),
            ),
            Task::FillTable { table } => execute_command(
                Session::Secondary,
                sql::fill_table_sql(new_db, template, table.as_str()),
            ),
            Task::ListCounters => fetch_with_command(
                Session::Secondary,
                sql::LIST_AUTO_INCREMENTS,
                new_db,
                Shape::Pairs,
            ),
            Task::ReadCounter { table, column } => fetch_command(
                Session::Secondary,
                sql::max_of_column_sql(new_db, table.as_str(), column.as_str()),
                Shape::MaybeNumber,
            ),
            Task::SetCounter { table, next } => execute_command(
                Session::Secondary,
                sql::set_auto_increment_sql(new_db, table.as_str(), *next),
            ),
            Task::ListKeys => fetch_with_command(
                Session::Primary,
                sql::LIST_FOREIGN_KEYS,
                template,
                Shape::ForeignKeys,
            ),
            Task::AddKey { key } => execute_command(
                Session::Secondary,
                sql::add_foreign_key_sql(new_db, key),
            ),
            Task::ListViews => fetch_with_command(
                Session::Primary,
                sql::LIST_VIEWS,
                template,
                Shape::Names,
            ),
            // SHOW CREATE VIEW returns: View, Create View, character_set_client,
            // collation_connection
            Task::ReadView { view, left: _, statements: _ } => fetch_command(
                Session::Primary,
                sql::show_create_sql("VIEW", template, view.as_str()),
                Shape::Row { columns: 4 },
            ),
            Task::CreateView { statement, left: _, failed: _, size: _ } => execute_command(
                Session::Secondary,
                statement.clone(),
            ),
            Task::ConfirmView { statement } => execute_command(
                Session::Secondary,
                statement.clone(),
            ),
            Task::ListTriggers => fetch_with_command(
                Session::Primary,
                sql::LIST_TRIGGERS,
                template,
                Shape::Names,
            ),
            // SHOW CREATE TRIGGER returns: Trigger, sql_mode, SQL Original Statement, ...
            Task::ReadTrigger { name } => fetch_command(
                Session::Primary,
                sql::show_create_sql("TRIGGER", template, name.as_str()),
                Shape::Row { columns: 7 },
            ),
            Task::ListRoutines => fetch_with_command(
                Session::Primary,
                sql::LIST_ROUTINES,
                template,
                Shape::Pairs,
            ),
            // SHOW CREATE PROCEDURE/FUNCTION returns: Name, sql_mode, Create ..., ...
            Task::ReadRoutine { name, routine_type } => fetch_command(
                Session::Primary,
                sql::show_create_sql(
                    sql::routine_kind_of(routine_type.as_str()),
                    template,
                    name.as_str(),
                ),
                Shape::Row { columns: 6 },
            ),
            Task::ListEvents => fetch_with_command(
                Session::Primary,
                sql::LIST_EVENTS,
                template,
                Shape::Names,
            ),
            // SHOW CREATE EVENT returns: Event, sql_mode, time_zone, Create Event, ...
            Task::ReadEvent { name } => fetch_command(
                Session::Primary,
                sql::show_create_sql("EVENT", template, name.as_str()),
                Shape::Row { columns: 6 },
            ),
            Task::Create { statement } => execute_command(Session::Secondary, statement.clone()),
            Task::Close => Command::Close,
        }
    }

    /// Whether the task can go on from `reply`.
    fn admits(&self, template: &str, new_db: &str, reply: &Reply) -> (r: bool)
        ensures
            r == self@.admits(template@, new_db@, reply@),
    {
        if !self.command(template, new_db).answered_by(reply) {
            return false;
        }
        match (self, reply) {
            (
                Task::ReadCounter { table: _, column: _ },
                Reply::MaybeNumber(Some(n)),
            ) => *n != i64::MAX,
            (Task::ConfirmView { statement: _ }, Reply::Failed(_)) => true,
            (Task::ConfirmView { statement: _ }, _) => false,
            _ => true,
        }
    }

    /// The tasks that follow from `reply`, the last one first, or the error that ends the
    /// clone.
    fn outcome(self, template: &str, new_db: &str, reply: Reply) -> (r: Result<Vec<Task>, Error>)
        requires
            self@.admits(template@, new_db@, reply@),
        ensures
            match r {
                Ok(more) => self@.outcome(template@, new_db@, reply@) == Ok::<
                    Seq<TaskView>,
                    ErrorView,
                >(unstacked(more@)),
                Err(e) => self@.outcome(template@, new_db@, reply@) == Err::<
                    Seq<TaskView>,
                    ErrorView,
                >(e@),
            },
    {
        match (self, reply) {
            (Task::CreateView { statement, left, failed, size }, Reply::Failed(_)) => {
                // Failed, likely due to missing dependency - will retry
                let mut failed = failed;
                let ghost before = failed@;
                failed.push(statement);
                assert(text::texts(failed@) =~= text::texts(before).push(statement@));
                Ok(stack_rest_of_round(left, failed, size))
            },
            (_, Reply::Failed(e)) => Err(e),
            (Task::ListTables, Reply::Names(tables)) => Ok(stack_tables(tables)),
            (Task::ListCounters, Reply::Pairs(counters)) => Ok(stack_counters(counters)),
            (Task::ReadCounter { table, column: _ }, Reply::MaybeNumber(max)) => {
                // Set AUTO_INCREMENT to max + 1 (or 1 if table is empty)
                let next: i64 = match max {
                    Some(n) => n + 1,
                    None => 1,
                };
                Ok(single(Task::SetCounter { table, next }))
            },
            (Task::ListKeys, Reply::ForeignKeys(keys)) => Ok(stack_keys(keys)),
            (Task::ListViews, Reply::Names(views)) => {
                let statements: Vec<String> = Vec::new();
                assert(text::texts(statements@) =~= Seq::empty());
                Ok(stack_reading(views, statements))
            },
            (Task::ReadView { view: _, left, statements }, Reply::Row(row)) => {
                let mut statements = statements;
                let ghost before = statements@;
                let statement = replace_database_refs(row[1].as_str(), template, new_db);
                statements.push(statement);
                assert(text::texts(statements@) =~= text::texts(before).push(statement@));
                Ok(stack_reading(left, statements))
            },
            (Task::CreateView { statement: _, left, failed, size }, _) => Ok(
                stack_rest_of_round(left, failed, size),
            ),
            (Task::ListTriggers, Reply::Names(names)) => Ok(stack_triggers(names)),
            (Task::ListRoutines, Reply::Pairs(routines)) => Ok(stack_routines(routines)),
            (Task::ListEvents, Reply::Names(names)) => Ok(stack_events(names)),
            (Task::ReadTrigger { name: _ }, Reply::Row(row)) => {
                // The CREATE TRIGGER statement is in column 2 (index 2)
                let statement = replace_database_refs(row[2].as_str(), template, new_db);
                Ok(single(Task::Create { statement }))
            },
            (Task::ReadRoutine { name: _, routine_type: _ }, Reply::Row(row)) => {
                // The CREATE statement is in column 2 (index 2)
                let statement = replace_database_refs(row[2].as_str(), template, new_db);
                Ok(single(Task::Create { statement }))
            },
            (Task::ReadEvent { name: _ }, Reply::Row(row)) => {
                // The CREATE EVENT statement is in column 3 (index 3)
                let statement = replace_database_refs(row[3].as_str(), template, new_db);
                Ok(single(Task::Create { statement }))
            },
            _ => Ok(none()),
        }
    }
}

/// The tasks of [`object_tasks`] after the first, the last one first.
fn stack_objects() -> (r: Vec<Task>)
    ensures
        unstacked(r@) == object_tasks().skip(1),
{
    let mut r: Vec<Task> = Vec::new();
    r.push(Task::Close);
    r.push(Task::ListEvents);
    r.push(Task::ListRoutines);
    r.push(Task::ListTriggers);
    r.push(Task::ListViews);
    r.push(Task::ListKeys);
    r.push(Task::ListCounters);
    r.push(Task::ListTables);
    assert(unstacked(r@) =~= object_tasks().skip(1));
    r
}

/// Clone a template database to a new test database.
///
/// First, the new empty database is created; then all database objects are cloned into it.
pub fn clone_database(template_name: &str, new_db_name: &str) -> (r: CloneRun)
    ensures
        r@ == (CloneView {
            template: template_name@,
            new_db: new_db_name@,
            task: TaskView::CreateDatabase,
            later: object_tasks(),
        }),
{
    let mut later = stack_objects();
    proof {
        lemma_unstacked_push(later@, Task::Connect);
        assert(seq![TaskView::Connect] + object_tasks().skip(1) =~= object_tasks());
    }
    later.push(Task::Connect);
    CloneRun {
        template: String::from_str(template_name),
        new_db: String::from_str(new_db_name),
        task: Task::CreateDatabase,
        later,
    }
}

/// Clone all database objects from template to new database.
/// Copies: tables (with data), foreign keys, views, triggers, routines (procedures/functions),
/// and events.
pub fn clone_database_objects(template_name: &str, new_db_name: &str) -> (r: CloneRun)
    ensures
        r@ == (CloneView {
            template: template_name@,
            new_db: new_db_name@,
            task: TaskView::Connect,
            later: object_tasks().skip(1),
        }),
{
    CloneRun {
        template: String::from_str(template_name),
        new_db: String::from_str(new_db_name),
        task: Task::Connect,
        later: stack_objects(),
    }
}

impl CloneRun {
    /// The next command.
    pub fn command(&self) -> (r: Command)
        ensures
            r@ == self@.command(),
    {
        self.task.command(self.template.as_str(), self.new_db.as_str())
    }

    /// Whether the clone can go on from `reply`.
    pub fn admits(&self, reply: &Reply) -> (r: bool)
        ensures
            r == self@.admits(reply@),
    {
        self.task.admits(self.template.as_str(), self.new_db.as_str(), reply)
    }

    /// Goes on from the reply to the last command.
    pub fn resume(self, reply: Reply) -> (r: Turn<CloneRun, ()>)
        requires
            self@.admits(reply@),
        ensures
            r@ == self@.next(reply@),
    {
        let CloneRun { template, new_db, task, mut later } = self;
        match task.outcome(template.as_str(), new_db.as_str(), reply) {
            Err(e) => Turn::Fail(e),
            Ok(mut more) => {
                proof {
                    lemma_unstacked_add(later@, more@);
                }
                later.append(&mut more);
                let ghost all = later@;
                match later.pop() {
                    None => Turn::Done(()),
                    Some(task) => {
                        proof {
                            assert(all =~= later@.push(task));
                            lemma_unstacked_push(later@, task);
                            assert(unstacked(all).skip(1) =~= unstacked(later@));
                        }
                        Turn::Ask(CloneRun { template, new_db, task, later })
                    },
                }
            },
        }
    }
}

} // verus!
