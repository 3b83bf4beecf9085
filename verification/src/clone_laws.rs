//! What holds of a clone as a whole.

use crate::clone::{self, CloneView, TaskView};
use crate::protocol::{
    self, CommandView, ErrorView, Exchange, ReplyView, Session, Shape, TurnView,
};
use crate::refs;
use crate::sql::{self, ForeignKeyView};
use crate::text::Text;
use vstd::prelude::*;

verus! {

/// Where a clone stands after it asked for each command of `script` in turn and got the reply
/// beside it; `None` where it asks for something else, or cannot go on from a reply.
pub open spec fn played(turn: TurnView<CloneView, ()>, script: Seq<Exchange>) -> Option<
    TurnView<CloneView, ()>,
>
    decreases script.len(),
{
    if script.len() == 0 {
        Some(turn)
    } else {
        match turn {
            TurnView::Ask(run) => if run.command() == script[0].command && run.admits(
                script[0].reply,
            ) {
                played(run.next(script[0].reply), script.skip(1))
            } else {
                None
            },
            _ => None,
        }
    }
}

/// What a database holds, as the server describes it.
pub struct Catalogue {
    pub tables: Seq<Text>,
    /// Tables and columns that count up, with the largest value.
    pub counters: Seq<(Text, Text, Option<i64>)>,
    pub keys: Seq<ForeignKeyView>,
    /// Views with the row that `SHOW CREATE VIEW` gives.
    pub views: Seq<(Text, Seq<Text>)>,
    /// Triggers with the row that `SHOW CREATE TRIGGER` gives.
    pub triggers: Seq<(Text, Seq<Text>)>,
    /// Routines with their type and the row that `SHOW CREATE` gives.
    pub routines: Seq<(Text, Text, Seq<Text>)>,
    /// Events with the row that `SHOW CREATE EVENT` gives.
    pub events: Seq<(Text, Seq<Text>)>,
}

impl Catalogue {
    /// Whether every row has the number of columns that the server gives it, and every counter
    /// can go on.
    pub open spec fn well_formed(self) -> bool {
        &&& forall|i: int|
            0 <= i < self.counters.len() ==> (#[trigger] self.counters[i]).2 != Some(i64::MAX)
        &&& forall|i: int| 0 <= i < self.views.len() ==> (#[trigger] self.views[i]).1.len() == 4
        &&& forall|i: int|
            0 <= i < self.triggers.len() ==> (#[trigger] self.triggers[i]).1.len() == 7
        &&& forall|i: int|
            0 <= i < self.routines.len() ==> (#[trigger] self.routines[i]).2.len() == 6
        &&& forall|i: int| 0 <= i < self.events.len() ==> (#[trigger] self.events[i]).1.len() == 6
    }
}

/// A statement that runs in the new database.
pub open spec fn ran(sql: Text) -> Exchange {
    Exchange { command: protocol::execute(Session::Secondary, sql), reply: ReplyView::Done }
}

/// A query whose rows tell what the template holds.
pub open spec fn listed(sql: Text, template: Text, reply: ReplyView, shape: Shape) -> Exchange {
    Exchange { command: protocol::fetch_with(Session::Primary, sql, template, shape), reply }
}

/// A `SHOW CREATE` query.
pub open spec fn shown(kind: Text, template: Text, name: Text, row: Seq<Text>) -> Exchange {
    Exchange {
        command: protocol::fetch(
            Session::Primary,
            sql::show_create(kind, template, name),
            Shape::Row { columns: row.len() as usize },
        ),
        reply: ReplyView::Row(row),
    }
}

/// Every table is created, then filled.
pub open spec fn tables_script(t: Text, n: Text, tables: Seq<Text>) -> Seq<Exchange>
    decreases tables.len(),
{
    if tables.len() == 0 {
        Seq::empty()
    } else {
        seq![
            ran(sql::create_table(n, t, tables[0])),
            ran(sql::fill_table(n, t, tables[0])),
        ] + tables_script(t, n, tables.skip(1))
    }
}

/// Every counter is set to the value after the largest.
pub open spec fn counters_script(n: Text, counters: Seq<(Text, Text, Option<i64>)>) -> Seq<Exchange>
    decreases counters.len(),
{
    if counters.len() == 0 {
        Seq::empty()
    } else {
        let c = counters[0];
        seq![
            Exchange {
                command: protocol::fetch(
                    Session::Secondary,
                    sql::max_of_column(n, c.0, c.1),
                    Shape::MaybeNumber,
                ),
                reply: ReplyView::MaybeNumber(c.2),
            },
            ran(
                sql::set_auto_increment(
                    n,
                    c.0,
                    match c.2 {
                        Some(max) => max + 1,
                        None => 1,
                    },
                ),
            ),
        ] + counters_script(n, counters.skip(1))
    }
}

/// Every foreign key is added.
pub open spec fn keys_script(n: Text, keys: Seq<ForeignKeyView>) -> Seq<Exchange> {
    keys.map_values(|k: ForeignKeyView| ran(sql::add_foreign_key(n, k)))
}

/// The statement of every view is read.
pub open spec fn reading_script(t: Text, views: Seq<(Text, Seq<Text>)>) -> Seq<Exchange> {
    views.map_values(|v: (Text, Seq<Text>)| shown("VIEW"@, t, v.0, v.1))
}

/// The statements that create the views in the new database.
pub open spec fn view_statements(t: Text, n: Text, views: Seq<(Text, Seq<Text>)>) -> Seq<Text> {
    views.map_values(|v: (Text, Seq<Text>)| refs::redirected(v.1[1], t, n))
}

/// Every view is created.
pub open spec fn views_script(statements: Seq<Text>) -> Seq<Exchange> {
    statements.map_values(|s: Text| ran(s))
}

/// Every trigger is read, then created.
pub open spec fn triggers_script(t: Text, n: Text, triggers: Seq<(Text, Seq<Text>)>) -> Seq<
    Exchange,
>
    decreases triggers.len(),
{
    if triggers.len() == 0 {
        Seq::empty()
    } else {
        let x = triggers[0];
        seq![
            shown("TRIGGER"@, t, x.0, x.1),
            ran(refs::redirected(x.1[2], t, n)),
        ] + triggers_script(t, n, triggers.skip(1))
    }
}

/// Every routine is read, then created.
pub open spec fn routines_script(t: Text, n: Text, routines: Seq<(Text, Text, Seq<Text>)>) -> Seq<
    Exchange,
>
    decreases routines.len(),
{
    if routines.len() == 0 {
        Seq::empty()
    } else {
        let x = routines[0];
        seq![
            shown(sql::routine_kind(x.1), t, x.0, x.2),
            ran(refs::redirected(x.2[2], t, n)),
        ] + routines_script(t, n, routines.skip(1))
    }
}

/// Every event is read, then created.
pub open spec fn events_script(t: Text, n: Text, events: Seq<(Text, Seq<Text>)>) -> Seq<Exchange>
    decreases events.len(),
{
    if events.len() == 0 {
        Seq::empty()
    } else {
        let x = events[0];
        seq![
            shown("EVENT"@, t, x.0, x.1),
            ran(refs::redirected(x.1[3], t, n)),
        ] + events_script(t, n, events.skip(1))
    }
}

/// The whole conversation of cloning a template that holds `c`, where nothing fails.
pub open spec fn clone_script(t: Text, n: Text, c: Catalogue) -> Seq<Exchange> {
    seq![
        Exchange {
            command: CommandView::Connect { database: Some(n) },
            reply: ReplyView::Done,
        },
    ]
        + (seq![listed(sql::LIST_TABLES@, t, ReplyView::Names(c.tables), Shape::Names)]
        + tables_script(t, n, c.tables)
        + (seq![
        Exchange {
            command: protocol::fetch_with(
                Session::Secondary,
                sql::LIST_AUTO_INCREMENTS@,
                n,
                Shape::Pairs,
            ),
            reply: ReplyView::Pairs(
                c.counters.map_values(|x: (Text, Text, Option<i64>)| (x.0, x.1)),
            ),
        },
    ] + counters_script(n, c.counters)
        + (seq![
        listed(
            sql::LIST_FOREIGN_KEYS@,
            t,
            ReplyView::ForeignKeys(c.keys),
            Shape::ForeignKeys,
        ),
    ] + keys_script(n, c.keys)
        + (seq![
        listed(
            sql::LIST_VIEWS@,
            t,
            ReplyView::Names(c.views.map_values(|x: (Text, Seq<Text>)| x.0)),
            Shape::Names,
        ),
    ] + (reading_script(t, c.views) + views_script(view_statements(t, n, c.views)))
        + (seq![
        listed(
            sql::LIST_TRIGGERS@,
            t,
            ReplyView::Names(c.triggers.map_values(|x: (Text, Seq<Text>)| x.0)),
            Shape::Names,
        ),
    ] + triggers_script(t, n, c.triggers)
        + (seq![
        listed(
            sql::LIST_ROUTINES@,
            t,
            ReplyView::Pairs(
                c.routines.map_values(|x: (Text, Text, Seq<Text>)| (x.0, x.1)),
            ),
            Shape::Pairs,
        ),
    ] + routines_script(t, n, c.routines)
        + (seq![
        listed(
            sql::LIST_EVENTS@,
            t,
            ReplyView::Names(c.events.map_values(|x: (Text, Seq<Text>)| x.0)),
            Shape::Names,
        ),
    ] + events_script(t, n, c.events)
        + seq![Exchange { command: CommandView::Close, reply: ReplyView::Done }])))))))
}

// ---------------------------------------------------------------------------
// Playing a script part by part

/// The first task of an agenda meets the first exchange of a script.
proof fn lemma_first(
    t: Text,
    n: Text,
    task: TaskView,
    rest: Seq<TaskView>,
    x: Exchange,
    tail: Seq<Exchange>,
)
    requires
        task.command(t, n) == x.command,
        task.admits(t, n, x.reply),
        task.outcome(t, n, x.reply) is Ok,
    ensures
        played(clone::clone_at(t, n, seq![task] + rest), seq![x] + tail) == played(
            clone::clone_at(t, n, task.outcome(t, n, x.reply)->Ok_0 + rest),
            tail,
        ),
{
    let tasks = seq![task] + rest;
    assert(tasks.skip(1) =~= rest);
    assert((seq![x] + tail).skip(1) =~= tail);
}

proof fn lemma_tables(
    t: Text,
    n: Text,
    tables: Seq<Text>,
    rest: Seq<TaskView>,
    tail: Seq<Exchange>,
)
    ensures
        played(
            clone::clone_at(t, n, clone::table_tasks(tables) + rest),
            tables_script(t, n, tables) + tail,
        ) == played(clone::clone_at(t, n, rest), tail),
    decreases tables.len(),
{
    if tables.len() == 0 {
        assert(clone::table_tasks(tables) + rest =~= rest);
        assert(tables_script(t, n, tables) + tail =~= tail);
    } else {
        let create = TaskView::CreateTable { table: tables[0] };
        let fill = TaskView::FillTable { table: tables[0] };
        let x = ran(sql::create_table(n, t, tables[0]));
        let y = ran(sql::fill_table(n, t, tables[0]));
        let more = clone::table_tasks(tables.skip(1)) + rest;
        let script = tables_script(t, n, tables.skip(1)) + tail;
        assert(clone::table_tasks(tables) + rest =~= seq![create] + (seq![fill] + more));
        assert(tables_script(t, n, tables) + tail =~= seq![x] + (seq![y] + script));
        lemma_first(t, n, create, seq![fill] + more, x, seq![y] + script);
        assert(Seq::<TaskView>::empty() + (seq![fill] + more) =~= seq![fill] + more);
        lemma_first(t, n, fill, more, y, script);
        assert(Seq::<TaskView>::empty() + more =~= more);
        lemma_tables(t, n, tables.skip(1), rest, tail);
    }
}

/// A task that asks for one thing and is followed by one task that runs a statement.
proof fn lemma_two(
    t: Text,
    n: Text,
    read: TaskView,
    write: TaskView,
    rest: Seq<TaskView>,
    x: Exchange,
    y: Exchange,
    tail: Seq<Exchange>,
)
    requires
        read.command(t, n) == x.command,
        read.admits(t, n, x.reply),
        read.outcome(t, n, x.reply) == Ok::<Seq<TaskView>, ErrorView>(seq![write]),
        write.command(t, n) == y.command,
        write.admits(t, n, y.reply),
        write.outcome(t, n, y.reply) == Ok::<Seq<TaskView>, ErrorView>(Seq::empty()),
    ensures
        played(clone::clone_at(t, n, seq![read] + rest), seq![x] + (seq![y] + tail)) == played(
            clone::clone_at(t, n, rest),
            tail,
        ),
{
    lemma_first(t, n, read, rest, x, seq![y] + tail);
    lemma_first(t, n, write, rest, y, tail);
    assert(Seq::<TaskView>::empty() + rest =~= rest);
}

proof fn lemma_counters(
    t: Text,
    n: Text,
    counters: Seq<(Text, Text, Option<i64>)>,
    rest: Seq<TaskView>,
    tail: Seq<Exchange>,
)
    requires
        forall|i: int| 0 <= i < counters.len() ==> (#[trigger] counters[i]).2 != Some(i64::MAX),
    ensures
        played(
            clone::clone_at(
                t,
                n,
                clone::counter_tasks(
                    counters.map_values(|x: (Text, Text, Option<i64>)| (x.0, x.1)),
                ) + rest,
            ),
            counters_script(n, counters) + tail,
        ) == played(clone::clone_at(t, n, rest), tail),
    decreases counters.len(),
{
    let f = |x: (Text, Text, Option<i64>)| (x.0, x.1);
    let tasks = clone::counter_tasks(counters.map_values(f));
    if counters.len() == 0 {
        assert(tasks + rest =~= rest);
        assert(counters_script(n, counters) + tail =~= tail);
    } else {
        let c = counters[0];
        let read = TaskView::ReadCounter { table: c.0, column: c.1 };
        let write = TaskView::SetCounter { table: c.0, next: clone::next_counter(c.2) };
        let x = counters_script(n, counters)[0];
        let y = counters_script(n, counters)[1];
        let more = clone::counter_tasks(counters.skip(1).map_values(f)) + rest;
        let script = counters_script(n, counters.skip(1)) + tail;
        assert(tasks + rest =~= seq![read] + more);
        assert(counters_script(n, counters) + tail =~= seq![x] + (seq![y] + script));
        lemma_two(t, n, read, write, more, x, y, script);
        lemma_counters(t, n, counters.skip(1), rest, tail);
    }
}

proof fn lemma_keys(
    t: Text,
    n: Text,
    keys: Seq<ForeignKeyView>,
    rest: Seq<TaskView>,
    tail: Seq<Exchange>,
)
    ensures
        played(
            clone::clone_at(t, n, clone::key_tasks(keys) + rest),
            keys_script(n, keys) + tail,
        ) == played(clone::clone_at(t, n, rest), tail),
    decreases keys.len(),
{
    if keys.len() == 0 {
        assert(clone::key_tasks(keys) + rest =~= rest);
        assert(keys_script(n, keys) + tail =~= tail);
    } else {
        let add = TaskView::AddKey { key: keys[0] };
        let x = ran(sql::add_foreign_key(n, keys[0]));
        let more = clone::key_tasks(keys.skip(1)) + rest;
        let script = keys_script(n, keys.skip(1)) + tail;
        assert(clone::key_tasks(keys) + rest =~= seq![add] + more);
        assert(keys_script(n, keys) + tail =~= seq![x] + script);
        lemma_first(t, n, add, more, x, script);
        assert(Seq::<TaskView>::empty() + more =~= more);
        lemma_keys(t, n, keys.skip(1), rest, tail);
    }
}

proof fn lemma_reading(
    t: Text,
    n: Text,
    views: Seq<(Text, Seq<Text>)>,
    statements: Seq<Text>,
    rest: Seq<TaskView>,
    tail: Seq<Exchange>,
)
    requires
        forall|i: int| 0 <= i < views.len() ==> (#[trigger] views[i]).1.len() == 4,
    ensures
        played(
            clone::clone_at(
                t,
                n,
                clone::reading_tasks(
                    views.map_values(|x: (Text, Seq<Text>)| x.0),
                    statements,
                ) + rest,
            ),
            reading_script(t, views) + tail,
        ) == played(
            clone::clone_at(
                t,
                n,
                clone::round_tasks(statements + view_statements(t, n, views)) + rest,
            ),
            tail,
        ),
    decreases views.len(),
{
    let f = |x: (Text, Seq<Text>)| x.0;
    let names = views.map_values(f);
    if views.len() == 0 {
        assert(reading_script(t, views) + tail =~= tail);
        assert(statements + view_statements(t, n, views) =~= statements);
    } else {
        let v = views[0];
        let left = views.skip(1);
        assert(names.skip(1) =~= left.map_values(f));
        let read = TaskView::ReadView { view: v.0, left: left.map_values(f), statements };
        let x = shown("VIEW"@, t, v.0, v.1);
        let read_now = statements.push(refs::redirected(v.1[1], t, n));
        let script = reading_script(t, left) + tail;
        assert(reading_script(t, views) + tail =~= seq![x] + script);
        lemma_first(t, n, read, rest, x, script);
        lemma_reading(t, n, left, read_now, rest, tail);
        assert(statements + view_statements(t, n, views) =~= read_now + view_statements(
            t,
            n,
            left,
        ));
    }
}

proof fn lemma_round(
    t: Text,
    n: Text,
    left: Seq<Text>,
    size: nat,
    rest: Seq<TaskView>,
    tail: Seq<Exchange>,
)
    requires
        size > 0,
    ensures
        played(
            clone::clone_at(t, n, clone::round_goes_on(left, Seq::empty(), size) + rest),
            views_script(left) + tail,
        ) == played(clone::clone_at(t, n, rest), tail),
    decreases left.len(),
{
    let none = Seq::<Text>::empty();
    if left.len() == 0 {
        assert(clone::round_goes_on(left, none, size) + rest =~= rest);
        assert(views_script(left) + tail =~= tail);
    } else {
        let create = TaskView::CreateView {
            statement: left[0],
            left: left.skip(1),
            failed: none,
            size,
        };
        let x = ran(left[0]);
        let script = views_script(left.skip(1)) + tail;
        assert(views_script(left) + tail =~= seq![x] + script);
        lemma_first(t, n, create, rest, x, script);
        lemma_round(t, n, left.skip(1), size, rest, tail);
    }
}

proof fn lemma_views(
    t: Text,
    n: Text,
    views: Seq<(Text, Seq<Text>)>,
    rest: Seq<TaskView>,
    tail: Seq<Exchange>,
)
    requires
        forall|i: int| 0 <= i < views.len() ==> (#[trigger] views[i]).1.len() == 4,
    ensures
        played(
            clone::clone_at(
                t,
                n,
                clone::reading_tasks(
                    views.map_values(|x: (Text, Seq<Text>)| x.0),
                    Seq::empty(),
                ) + rest,
            ),
            reading_script(t, views) + views_script(view_statements(t, n, views)) + tail,
        ) == played(clone::clone_at(t, n, rest), tail),
{
    let none = Seq::<Text>::empty();
    let statements = view_statements(t, n, views);
    let script = views_script(statements) + tail;
    assert(reading_script(t, views) + views_script(statements) + tail =~= reading_script(t, views)
        + script);
    lemma_reading(t, n, views, none, rest, script);
    assert(none + statements =~= statements);
    if statements.len() == 0 {
        assert(clone::round_tasks(statements) + rest =~= rest);
        assert(script =~= tail);
    } else {
        lemma_round(t, n, statements, statements.len(), rest, tail);
    }
}

proof fn lemma_triggers(
    t: Text,
    n: Text,
    triggers: Seq<(Text, Seq<Text>)>,
    rest: Seq<TaskView>,
    tail: Seq<Exchange>,
)
    requires
        forall|i: int| 0 <= i < triggers.len() ==> (#[trigger] triggers[i]).1.len() == 7,
    ensures
        played(
            clone::clone_at(
                t,
                n,
                clone::trigger_tasks(triggers.map_values(|x: (Text, Seq<Text>)| x.0)) + rest,
            ),
            triggers_script(t, n, triggers) + tail,
        ) == played(clone::clone_at(t, n, rest), tail),
    decreases triggers.len(),
{
    let f = |x: (Text, Seq<Text>)| x.0;
    let tasks = clone::trigger_tasks(triggers.map_values(f));
    if triggers.len() == 0 {
        assert(tasks + rest =~= rest);
        assert(triggers_script(t, n, triggers) + tail =~= tail);
    } else {
        let o = triggers[0];
        let read = TaskView::ReadTrigger { name: o.0 };
        let write = TaskView::Create { statement: refs::redirected(o.1[2], t, n) };
        let x = triggers_script(t, n, triggers)[0];
        let y = triggers_script(t, n, triggers)[1];
        let more = clone::trigger_tasks(triggers.skip(1).map_values(f)) + rest;
        let script = triggers_script(t, n, triggers.skip(1)) + tail;
        assert(tasks + rest =~= seq![read] + more);
        assert(triggers_script(t, n, triggers) + tail =~= seq![x] + (seq![y] + script));
        lemma_two(t, n, read, write, more, x, y, script);
        lemma_triggers(t, n, triggers.skip(1), rest, tail);
    }
}

proof fn lemma_routines(
    t: Text,
    n: Text,
    routines: Seq<(Text, Text, Seq<Text>)>,
    rest: Seq<TaskView>,
    tail: Seq<Exchange>,
)
    requires
        forall|i: int| 0 <= i < routines.len() ==> (#[trigger] routines[i]).2.len() == 6,
    ensures
        played(
            clone::clone_at(
                t,
                n,
                clone::routine_tasks(
                    routines.map_values(|x: (Text, Text, Seq<Text>)| (x.0, x.1)),
                ) + rest,
            ),
            routines_script(t, n, routines) + tail,
        ) == played(clone::clone_at(t, n, rest), tail),
    decreases routines.len(),
{
    let f = |x: (Text, Text, Seq<Text>)| (x.0, x.1);
    let tasks = clone::routine_tasks(routines.map_values(f));
    if routines.len() == 0 {
        assert(tasks + rest =~= rest);
        assert(routines_script(t, n, routines) + tail =~= tail);
    } else {
        let o = routines[0];
        let read = TaskView::ReadRoutine { name: o.0, routine_type: o.1 };
        let write = TaskView::Create { statement: refs::redirected(o.2[2], t, n) };
        let x = routines_script(t, n, routines)[0];
        let y = routines_script(t, n, routines)[1];
        let more = clone::routine_tasks(routines.skip(1).map_values(f)) + rest;
        let script = routines_script(t, n, routines.skip(1)) + tail;
        assert(tasks + rest =~= seq![read] + more);
        assert(routines_script(t, n, routines) + tail =~= seq![x] + (seq![y] + script));
        lemma_two(t, n, read, write, more, x, y, script);
        lemma_routines(t, n, routines.skip(1), rest, tail);
    }
}

proof fn lemma_events(
    t: Text,
    n: Text,
    events: Seq<(Text, Seq<Text>)>,
    rest: Seq<TaskView>,
    tail: Seq<Exchange>,
)
    requires
        forall|i: int| 0 <= i < events.len() ==> (#[trigger] events[i]).1.len() == 6,
    ensures
        played(
            clone::clone_at(
                t,
                n,
                clone::event_tasks(events.map_values(|x: (Text, Seq<Text>)| x.0)) + rest,
            ),
            events_script(t, n, events) + tail,
        ) == played(clone::clone_at(t, n, rest), tail),
    decreases events.len(),
{
    let f = |x: (Text, Seq<Text>)| x.0;
    let tasks = clone::event_tasks(events.map_values(f));
    if events.len() == 0 {
        assert(tasks + rest =~= rest);
        assert(events_script(t, n, events) + tail =~= tail);
    } else {
        let o = events[0];
        let read = TaskView::ReadEvent { name: o.0 };
        let write = TaskView::Create { statement: refs::redirected(o.1[3], t, n) };
        let x = events_script(t, n, events)[0];
        let y = events_script(t, n, events)[1];
        let more = clone::event_tasks(events.skip(1).map_values(f)) + rest;
        let script = events_script(t, n, events.skip(1)) + tail;
        assert(tasks + rest =~= seq![read] + more);
        assert(events_script(t, n, events) + tail =~= seq![x] + (seq![y] + script));
        lemma_two(t, n, read, write, more, x, y, script);
        lemma_events(t, n, events.skip(1), rest, tail);
    }
}

/// A clone copies everything: told what the template holds, and refused nothing, it opens the
/// new database, creates and fills every table, sets every counter to the value after its
/// largest one, adds every foreign key, creates every view, trigger, routine and event with
/// the references to the template pointed at the new database, closes the new database, and is
/// done.
pub proof fn law_clone_copies_everything(t: Text, n: Text, c: Catalogue)
    requires
        c.well_formed(),
    ensures
        played(clone::clone_at(t, n, clone::object_tasks()), clone_script(t, n, c)) == Some(
            TurnView::<CloneView, ()>::Done(()),
        ),
{
    let close = seq![Exchange { command: CommandView::Close, reply: ReplyView::Done }];
    let event_names = c.events.map_values(|x: (Text, Seq<Text>)| x.0);
    let x_events = listed(sql::LIST_EVENTS@, t, ReplyView::Names(event_names), Shape::Names);
    let s_events = events_script(t, n, c.events) + close;
    let a_events = seq![TaskView::Close];

    let routine_names = c.routines.map_values(|x: (Text, Text, Seq<Text>)| (x.0, x.1));
    let x_routines = listed(
        sql::LIST_ROUTINES@,
        t,
        ReplyView::Pairs(routine_names),
        Shape::Pairs,
    );
    let t_routines = seq![x_events] + events_script(t, n, c.events) + close;
    let a_routines = seq![TaskView::ListEvents] + a_events;

    let trigger_names = c.triggers.map_values(|x: (Text, Seq<Text>)| x.0);
    let x_triggers = listed(sql::LIST_TRIGGERS@, t, ReplyView::Names(trigger_names), Shape::Names);
    let t_triggers = seq![x_routines] + routines_script(t, n, c.routines) + t_routines;
    let a_triggers = seq![TaskView::ListRoutines] + a_routines;

    let view_names = c.views.map_values(|x: (Text, Seq<Text>)| x.0);
    let x_views = listed(sql::LIST_VIEWS@, t, ReplyView::Names(view_names), Shape::Names);
    let t_views = seq![x_triggers] + triggers_script(t, n, c.triggers) + t_triggers;
    let a_views = seq![TaskView::ListTriggers] + a_triggers;
    let s_views = reading_script(t, c.views) + views_script(view_statements(t, n, c.views));

    let x_keys = listed(
        sql::LIST_FOREIGN_KEYS@,
        t,
        ReplyView::ForeignKeys(c.keys),
        Shape::ForeignKeys,
    );
    let t_keys = seq![x_views] + s_views + t_views;
    let a_keys = seq![TaskView::ListViews] + a_views;

    let counter_names = c.counters.map_values(|x: (Text, Text, Option<i64>)| (x.0, x.1));
    let x_counters = Exchange {
        command: protocol::fetch_with(
            Session::Secondary,
            sql::LIST_AUTO_INCREMENTS@,
            n,
            Shape::Pairs,
        ),
        reply: ReplyView::Pairs(counter_names),
    };
    let t_counters = seq![x_keys] + keys_script(n, c.keys) + t_keys;
    let a_counters = seq![TaskView::ListKeys] + a_keys;

    let x_tables = listed(sql::LIST_TABLES@, t, ReplyView::Names(c.tables), Shape::Names);
    let t_tables = seq![x_counters] + counters_script(n, c.counters) + t_counters;
    let a_tables = seq![TaskView::ListCounters] + a_counters;

    let x_connect = Exchange {
        command: CommandView::Connect { database: Some(n) },
        reply: ReplyView::Done,
    };
    let t_connect = seq![x_tables] + tables_script(t, n, c.tables) + t_tables;
    let a_connect = seq![TaskView::ListTables] + a_tables;

    assert(clone_script(t, n, c) == seq![x_connect] + t_connect);
    assert(clone::object_tasks() =~= seq![TaskView::Connect] + a_connect);
    lemma_first(t, n, TaskView::Connect, a_connect, x_connect, t_connect);
    assert(Seq::<TaskView>::empty() + a_connect =~= a_connect);

    assert(t_connect =~= seq![x_tables] + (tables_script(t, n, c.tables) + t_tables));
    lemma_first(
        t,
        n,
        TaskView::ListTables,
        a_tables,
        x_tables,
        tables_script(t, n, c.tables) + t_tables,
    );
    lemma_tables(t, n, c.tables, a_tables, t_tables);

    assert(t_tables =~= seq![x_counters] + (counters_script(n, c.counters) + t_counters));
    lemma_first(
        t,
        n,
        TaskView::ListCounters,
        a_counters,
        x_counters,
        counters_script(n, c.counters) + t_counters,
    );
    lemma_counters(t, n, c.counters, a_counters, t_counters);

    assert(t_counters =~= seq![x_keys] + (keys_script(n, c.keys) + t_keys));
    lemma_first(t, n, TaskView::ListKeys, a_keys, x_keys, keys_script(n, c.keys) + t_keys);
    lemma_keys(t, n, c.keys, a_keys, t_keys);

    assert(t_keys =~= seq![x_views] + (s_views + t_views));
    lemma_first(t, n, TaskView::ListViews, a_views, x_views, s_views + t_views);
    lemma_views(t, n, c.views, a_views, t_views);

    assert(t_views =~= seq![x_triggers] + (triggers_script(t, n, c.triggers) + t_triggers));
    lemma_first(
        t,
        n,
        TaskView::ListTriggers,
        a_triggers,
        x_triggers,
        triggers_script(t, n, c.triggers) + t_triggers,
    );
    lemma_triggers(t, n, c.triggers, a_triggers, t_triggers);

    assert(t_triggers =~= seq![x_routines] + (routines_script(t, n, c.routines) + t_routines));
    lemma_first(
        t,
        n,
        TaskView::ListRoutines,
        a_routines,
        x_routines,
        routines_script(t, n, c.routines) + t_routines,
    );
    lemma_routines(t, n, c.routines, a_routines, t_routines);

    assert(t_routines =~= seq![x_events] + s_events);
    lemma_first(t, n, TaskView::ListEvents, a_events, x_events, s_events);
    lemma_events(t, n, c.events, a_events, close);

    let nothing = Seq::<TaskView>::empty();
    assert(a_events =~= seq![TaskView::Close] + nothing);
    assert(close =~= seq![close[0]] + Seq::<Exchange>::empty());
    lemma_first(t, n, TaskView::Close, nothing, close[0], Seq::empty());
    assert(nothing + nothing =~= nothing);
}

/// Cloning into a database that does not exist yet creates it, then copies everything.
pub proof fn law_clone_creates_its_database(run: CloneView, c: Catalogue)
    requires
        c.well_formed(),
        run.task == TaskView::CreateDatabase,
        run.later == clone::object_tasks(),
    ensures
        played(
            TurnView::Ask(run),
            seq![
                Exchange {
                    command: protocol::execute(Session::Primary, sql::create_clone(run.new_db)),
                    reply: ReplyView::Done,
                },
            ] + clone_script(run.template, run.new_db, c),
        ) == Some(TurnView::<CloneView, ()>::Done(())),
{
    let t = run.template;
    let n = run.new_db;
    let x = Exchange {
        command: protocol::execute(Session::Primary, sql::create_clone(n)),
        reply: ReplyView::Done,
    };
    let tasks = seq![TaskView::CreateDatabase] + clone::object_tasks();
    assert(tasks.skip(1) =~= clone::object_tasks());
    assert(clone::clone_at(t, n, tasks) == TurnView::<CloneView, ()>::Ask(run));
    lemma_first(
        t,
        n,
        TaskView::CreateDatabase,
        clone::object_tasks(),
        x,
        clone_script(t, n, c),
    );
    assert(Seq::<TaskView>::empty() + clone::object_tasks() =~= clone::object_tasks());
    law_clone_copies_everything(t, n, c);
}

/// A failure ends the clone with the error that the server gave, unless it was a view's
/// creation that failed.
pub proof fn law_failure_ends_the_clone(run: CloneView, e: ErrorView)
    requires
        !(run.task is CreateView),
    ensures
        run.admits(ReplyView::Failed(e)),
        run.next(ReplyView::Failed(e)) == TurnView::<CloneView, ()>::Fail(e),
{
}

/// Whether `sql` starts with `verb` and then speaks of a table of `db`.
pub open spec fn is_about_table_of(sql: Text, verb: Text, db: Text) -> bool {
    (verb + ("`"@ + db + "`.`"@)).is_prefix_of(sql)
}

/// The template is only read. Over the connection that it is read with, no statement runs but
/// the one that creates the new database. The other connection is opened to the new database;
/// over it, every statement that creates a table, copies rows, sets a counter or adds a foreign
/// key is about a table of the new database, and every other statement is the creation of a
/// view, a trigger, a routine or an event.
pub proof fn law_template_is_only_read(run: CloneView)
    ensures
        run.command() matches CommandView::Connect { database } ==> database == Some(run.new_db),
        run.command() matches CommandView::Execute { session, sql, params } ==> match session {
            Session::Primary => sql == sql::create_clone(run.new_db),
            Session::Secondary => match run.task {
                TaskView::CreateTable { table } => is_about_table_of(
                    sql,
                    "CREATE TABLE "@,
                    run.new_db,
                ),
                TaskView::FillTable { table } => is_about_table_of(
                    sql,
                    "INSERT INTO "@,
                    run.new_db,
                ),
                TaskView::SetCounter { table, next } => is_about_table_of(
                    sql,
                    "ALTER TABLE "@,
                    run.new_db,
                ),
                TaskView::AddKey { key } => is_about_table_of(sql, "ALTER TABLE "@, run.new_db),
                TaskView::CreateView { statement, left, failed, size } => sql == statement,
                TaskView::ConfirmView { statement } => sql == statement,
                TaskView::Create { statement } => sql == statement,
                _ => false,
            },
        },
{
    if let CommandView::Execute { session, sql, params } = run.command() {
        if session == Session::Secondary {
            let name = "`"@ + run.new_db + "`.`"@;
            let create = "CREATE TABLE "@ + name;
            let insert = "INSERT INTO "@ + name;
            let alter = "ALTER TABLE "@ + name;
            match run.task {
                TaskView::CreateTable { table } => {
                    assert(create =~= sql.subrange(0, create.len() as int));
                },
                TaskView::FillTable { table } => {
                    assert(insert =~= sql.subrange(0, insert.len() as int));
                },
                TaskView::SetCounter { table, next } => {
                    assert(alter =~= sql.subrange(0, alter.len() as int));
                },
                TaskView::AddKey { key } => {
                    assert(alter =~= sql.subrange(0, alter.len() as int));
                },
                _ => {},
            }
        }
    }
}

// ---------------------------------------------------------------------------
// Views that depend on each other

/// How a server treats the creation of a view: whether it succeeds, given the views that were
/// created before, and the error where it does not.
pub struct ViewServer {
    pub creates: spec_fn(Seq<Text>, Text) -> bool,
    pub error: spec_fn(Seq<Text>, Text) -> ErrorView,
}

impl ViewServer {
    /// The attempt to create `statement` after `created`.
    pub open spec fn attempt(self, created: Seq<Text>, statement: Text) -> Exchange {
        Exchange {
            command: protocol::execute(Session::Secondary, statement),
            reply: if (self.creates)(created, statement) {
                ReplyView::Done
            } else {
                ReplyView::Failed((self.error)(created, statement))
            },
        }
    }
}

/// What has become of the views after all attempts.
pub struct Settled {
    /// The views that were created, in order.
    pub created: Seq<Text>,
    /// The views that could not be created.
    pub stuck: Seq<Text>,
    /// The attempts that were made.
    pub attempts: Seq<Exchange>,
}

/// What becomes of a round of `size` views, of which `left` are still to try, `failed` failed,
/// and `created` are there already. A round starts over with the views that failed as long as
/// it created one.
pub open spec fn settled(
    server: ViewServer,
    left: Seq<Text>,
    failed: Seq<Text>,
    size: nat,
    created: Seq<Text>,
) -> Settled
    decreases size, left.len(),
{
    if left.len() > 0 {
        let view = left[0];
        let rest = if (server.creates)(created, view) {
            settled(server, left.skip(1), failed, size, created.push(view))
        } else {
            settled(server, left.skip(1), failed.push(view), size, created)
        };
        Settled { attempts: seq![server.attempt(created, view)] + rest.attempts, ..rest }
    } else if failed.len() > 0 && failed.len() < size {
        settled(server, failed, Seq::empty(), failed.len(), created)
    } else {
        Settled { created, stuck: failed, attempts: Seq::empty() }
    }
}

/// What becomes of `statements`, a template's views.
pub open spec fn views_settled(server: ViewServer, statements: Seq<Text>) -> Settled {
    settled(server, statements, Seq::empty(), statements.len(), Seq::empty())
}

proof fn lemma_views_settle(
    t: Text,
    n: Text,
    server: ViewServer,
    left: Seq<Text>,
    failed: Seq<Text>,
    size: nat,
    created: Seq<Text>,
    rest: Seq<TaskView>,
    tail: Seq<Exchange>,
)
    requires
        left.len() + failed.len() <= size,
    ensures
        ({
            let s = settled(server, left, failed, size, created);
            played(
                clone::clone_at(t, n, clone::round_goes_on(left, failed, size) + rest),
                s.attempts + tail,
            ) == played(
                clone::clone_at(
                    t,
                    n,
                    (if s.stuck.len() > 0 {
                        seq![TaskView::ConfirmView { statement: s.stuck[0] }]
                    } else {
                        Seq::empty()
                    }) + rest,
                ),
                tail,
            )
        }),
    decreases size, left.len(),
{
    if left.len() > 0 {
        let view = left[0];
        let x = server.attempt(created, view);
        let task = TaskView::CreateView { statement: view, left: left.skip(1), failed, size };
        let s = settled(server, left, failed, size, created);
        if (server.creates)(created, view) {
            let r = settled(server, left.skip(1), failed, size, created.push(view));
            assert(s.attempts + tail =~= seq![x] + (r.attempts + tail));
            lemma_first(t, n, task, rest, x, r.attempts + tail);
            lemma_views_settle(
                t,
                n,
                server,
                left.skip(1),
                failed,
                size,
                created.push(view),
                rest,
                tail,
            );
        } else {
            let r = settled(server, left.skip(1), failed.push(view), size, created);
            assert(s.attempts + tail =~= seq![x] + (r.attempts + tail));
            lemma_first(t, n, task, rest, x, r.attempts + tail);
            lemma_views_settle(
                t,
                n,
                server,
                left.skip(1),
                failed.push(view),
                size,
                created,
                rest,
                tail,
            );
        }
    } else if failed.len() > 0 && failed.len() < size {
        lemma_views_settle(
            t,
            n,
            server,
            failed,
            Seq::empty(),
            failed.len(),
            created,
            rest,
            tail,
        );
    } else {
        assert(Seq::<Exchange>::empty() + tail =~= tail);
    }
}

/// Views are retried until they settle: the clone makes exactly the attempts of
/// [`views_settled`]. Where every view was created it goes on with the tasks that are left;
/// where some are stuck it tries the first of them once more and fails with the error that
/// comes of it.
pub proof fn law_views_are_retried(
    t: Text,
    n: Text,
    server: ViewServer,
    statements: Seq<Text>,
    rest: Seq<TaskView>,
    e: ErrorView,
)
    ensures
        ({
            let s = views_settled(server, statements);
            let start = clone::clone_at(t, n, clone::round_tasks(statements) + rest);
            &&& s.stuck.len() == 0 ==> played(start, s.attempts) == Some(
                clone::clone_at(t, n, rest),
            )
            &&& s.stuck.len() > 0 ==> played(
                start,
                s.attempts.push(
                    Exchange {
                        command: protocol::execute(Session::Secondary, s.stuck[0]),
                        reply: ReplyView::Failed(e),
                    },
                ),
            ) == Some(TurnView::<CloneView, ()>::Fail(e))
        }),
{
    let s = views_settled(server, statements);
    let none = Seq::<Text>::empty();
    assert(clone::round_goes_on(statements, none, statements.len()) == clone::round_tasks(
        statements,
    ));
    if s.stuck.len() == 0 {
        lemma_views_settle(
            t,
            n,
            server,
            statements,
            none,
            statements.len(),
            none,
            rest,
            Seq::empty(),
        );
        assert(s.attempts + Seq::<Exchange>::empty() =~= s.attempts);
        assert(Seq::<TaskView>::empty() + rest =~= rest);
    } else {
        let x = Exchange {
            command: protocol::execute(Session::Secondary, s.stuck[0]),
            reply: ReplyView::Failed(e),
        };
        lemma_views_settle(
            t,
            n,
            server,
            statements,
            none,
            statements.len(),
            none,
            rest,
            seq![x],
        );
        assert(s.attempts + seq![x] =~= s.attempts.push(x));
        let tasks = seq![TaskView::ConfirmView { statement: s.stuck[0] }] + rest;
        assert(tasks[0] == TaskView::ConfirmView { statement: s.stuck[0] });
        reveal_with_fuel(played, 2);
    }
}

proof fn lemma_settled(
    server: ViewServer,
    left: Seq<Text>,
    failed: Seq<Text>,
    size: nat,
    created: Seq<Text>,
)
    requires
        left.len() + failed.len() <= size,
        left.len() + failed.len() == size ==> forall|i: int|
            0 <= i < failed.len() ==> !(server.creates)(created, #[trigger] failed[i]),
    ensures
        ({
            let s = settled(server, left, failed, size, created);
            &&& s.created.to_multiset().add(s.stuck.to_multiset()) == created.to_multiset().add(
                failed.to_multiset(),
            ).add(left.to_multiset())
            &&& forall|i: int|
                0 <= i < s.stuck.len() ==> !(server.creates)(s.created, #[trigger] s.stuck[i])
        }),
    decreases size, left.len(),
{
    broadcast use vstd::seq_lib::group_to_multiset_ensures;

    if left.len() > 0 {
        let view = left[0];
        assert(left =~= seq![view] + left.skip(1));
        assert(left.to_multiset() =~= left.skip(1).to_multiset().insert(view)) by {
            assert(left.skip(1) =~= left.remove(0));
        }
        if (server.creates)(created, view) {
            lemma_settled(server, left.skip(1), failed, size, created.push(view));
        } else {
            lemma_settled(server, left.skip(1), failed.push(view), size, created);
        }
        let s = settled(server, left, failed, size, created);
        assert(s.created.to_multiset().add(s.stuck.to_multiset()) =~= created.to_multiset().add(
            failed.to_multiset(),
        ).add(left.to_multiset()));
    } else if failed.len() > 0 && failed.len() < size {
        lemma_settled(server, failed, Seq::empty(), failed.len(), created);
        assert(created.to_multiset().add(Seq::<Text>::empty().to_multiset()).add(
            failed.to_multiset(),
        ) =~= created.to_multiset().add(failed.to_multiset()).add(left.to_multiset())) by {
            assert(left =~= Seq::empty());
        }
    } else {
        assert(left =~= Seq::empty());
        assert(created.to_multiset().add(failed.to_multiset()) =~= created.to_multiset().add(
            failed.to_multiset(),
        ).add(left.to_multiset()));
    }
}

/// No view is lost or created twice: each was created or is stuck, and a view is stuck only
/// where the server refuses it with all that could be created in place.
pub proof fn law_views_settle(server: ViewServer, statements: Seq<Text>)
    ensures
        ({
            let s = views_settled(server, statements);
            &&& s.created.to_multiset().add(s.stuck.to_multiset()) == statements.to_multiset()
            &&& forall|i: int|
                0 <= i < s.stuck.len() ==> !(server.creates)(s.created, #[trigger] s.stuck[i])
        }),
{
    broadcast use vstd::seq_lib::group_to_multiset_ensures;

    let none = Seq::<Text>::empty();
    lemma_settled(server, statements, none, statements.len(), none);
    assert(none.to_multiset().add(none.to_multiset()).add(statements.to_multiset())
        =~= statements.to_multiset());
}

proof fn lemma_attempts(
    server: ViewServer,
    left: Seq<Text>,
    failed: Seq<Text>,
    size: nat,
    created: Seq<Text>,
)
    requires
        left.len() + failed.len() <= size,
    ensures
        2 * settled(server, left, failed, size, created).attempts.len() <= 2 * left.len() + size * (
        size - 1),
    decreases size, left.len(),
{
    assert(size * (size - 1) >= 0) by (nonlinear_arith)
        requires
            size >= 0,
    ;
    if left.len() > 0 {
        if (server.creates)(created, left[0]) {
            lemma_attempts(server, left.skip(1), failed, size, created.push(left[0]));
        } else {
            lemma_attempts(server, left.skip(1), failed.push(left[0]), size, created);
        }
    } else if failed.len() > 0 && failed.len() < size {
        let m = failed.len();
        lemma_attempts(server, failed, Seq::empty(), m, created);
        assert(2 * m + m * (m - 1) <= size * (size - 1)) by (nonlinear_arith)
            requires
                0 < m < size,
        ;
    }
}

/// The retries come to an end: `n` views take at most `n * (n + 1) / 2` attempts, which is what
/// `n` rounds, each with one view less, can make.
pub proof fn law_view_attempts_are_bounded(server: ViewServer, statements: Seq<Text>)
    ensures
        views_settled(server, statements).attempts.len() <= statements.len() * (statements.len() + 1)
            / 2,
{
    let n = statements.len();
    lemma_attempts(server, statements, Seq::empty(), n, Seq::empty());
    assert(2 * n + n * (n - 1) == n * (n + 1)) by (nonlinear_arith);
}

/// The position of a text with the least rank.
proof fn lemma_least(views: Seq<Text>, rank: spec_fn(Text) -> nat) -> (least: int)
    requires
        views.len() > 0,
    ensures
        0 <= least < views.len(),
        forall|i: int| 0 <= i < views.len() ==> rank(views[least]) <= rank(#[trigger] views[i]),
    decreases views.len(),
{
    if views.len() == 1 {
        0
    } else {
        let before = lemma_least(views.drop_last(), rank);
        let last = views.len() - 1;
        assert forall|i: int| 0 <= i < last implies rank(views[before]) <= rank(
            #[trigger] views[i],
        ) by {
            assert(views.drop_last()[i] == views[i]);
        }
        if rank(views[last]) < rank(views[before]) {
            last
        } else {
            before
        }
    }
}

/// Views that depend on each other are cloned whatever the order in which they are listed: if
/// no view depends on itself, directly or through others (so that views can be ranked above
/// those they depend on), and the server creates a view once all views of lower rank are
/// there, then none is stuck.
pub proof fn law_dependent_views_are_created(
    server: ViewServer,
    statements: Seq<Text>,
    rank: spec_fn(Text) -> nat,
)
    requires
        forall|created: Seq<Text>, view: Text|
            statements.contains(view) && (forall|u: Text|
                statements.contains(u) && rank(u) < rank(view) ==> created.contains(u))
                ==> #[trigger] (server.creates)(created, view),
    ensures
        views_settled(server, statements).stuck.len() == 0,
        views_settled(server, statements).created.to_multiset() == statements.to_multiset(),
{
    broadcast use vstd::seq_lib::group_to_multiset_ensures;

    let s = views_settled(server, statements);
    law_views_settle(server, statements);
    if s.stuck.len() > 0 {
        let least: int = lemma_least(s.stuck, rank);
        let view = s.stuck[least];
        assert(s.stuck.contains(view));
        assert(statements.to_multiset().contains(view));
        assert forall|u: Text| statements.contains(u) && rank(u) < rank(view) implies
            s.created.contains(u) by {
            assert(statements.to_multiset().contains(u));
            if s.stuck.contains(u) {
                let i = choose|i: int| 0 <= i < s.stuck.len() && s.stuck[i] == u;
                assert(rank(view) <= rank(s.stuck[i]));
            }
            assert(!s.stuck.to_multiset().contains(u));
            assert(s.created.to_multiset().contains(u));
        }
        assert((server.creates)(s.created, view));
    } else {
        assert(s.stuck =~= Seq::empty());
        assert(s.created.to_multiset().add(s.stuck.to_multiset()) =~= s.created.to_multiset());
    }
}

// ---------------------------------------------------------------------------
// What follows from what the server tells

/// All tasks of a clone, the one at hand first.
pub open spec fn agenda(run: CloneView) -> Seq<TaskView> {
    seq![run.task] + run.later
}

proof fn lemma_table_tasks(tables: Seq<Text>)
    ensures
        clone::table_tasks(tables).len() == 2 * tables.len(),
        forall|i: int|
            0 <= i < tables.len() ==> {
                &&& clone::table_tasks(tables)[2 * i] == (TaskView::CreateTable {
                    table: #[trigger] tables[i],
                })
                &&& clone::table_tasks(tables)[2 * i + 1] == (TaskView::FillTable {
                    table: tables[i],
                })
            },
    decreases tables.len(),
{
    if tables.len() > 0 {
        let rest = tables.skip(1);
        lemma_table_tasks(rest);
        assert forall|i: int| 0 <= i < tables.len() implies {
            &&& clone::table_tasks(tables)[2 * i] == (TaskView::CreateTable {
                table: #[trigger] tables[i],
            })
            &&& clone::table_tasks(tables)[2 * i + 1] == (TaskView::FillTable { table: tables[i] })
        } by {
            if i > 0 {
                assert(rest[i - 1] == tables[i]);
                assert(clone::table_tasks(tables)[2 * i] == clone::table_tasks(rest)[2 * (i - 1)]);
                assert(clone::table_tasks(tables)[2 * i + 1] == clone::table_tasks(rest)[2 * (i
                    - 1) + 1]);
            }
        }
    }
}

/// Every table that the server lists is created and then filled, in order, before anything else.
pub proof fn law_every_table_is_copied(run: CloneView, tables: Seq<Text>)
    requires
        run.task is ListTables,
        tables.len() > 0,
    ensures
        run.next(ReplyView::Names(tables)) is Ask,
        ({
            let next = run.next(ReplyView::Names(tables))->Ask_0;
            &&& next.template == run.template
            &&& next.new_db == run.new_db
            &&& agenda(next).len() == 2 * tables.len() + run.later.len()
            &&& forall|i: int|
                0 <= i < tables.len() ==> {
                    &&& agenda(next)[2 * i] == (TaskView::CreateTable {
                        table: #[trigger] tables[i],
                    })
                    &&& agenda(next)[2 * i + 1] == (TaskView::FillTable { table: tables[i] })
                }
            &&& agenda(next).skip(2 * tables.len() as int) == run.later
        }),
{
    lemma_table_tasks(tables);
    let tasks = clone::table_tasks(tables) + run.later;
    let next = run.next(ReplyView::Names(tables))->Ask_0;
    assert(agenda(next) =~= tasks);
    assert(tasks.skip(2 * tables.len() as int) =~= run.later);
}

/// A counter goes on after the largest value of its column, or with 1 in an empty table.
pub proof fn law_counter_goes_on(run: CloneView, max: Option<i64>)
    requires
        run.task is ReadCounter,
    ensures
        run.next(ReplyView::MaybeNumber(max)) is Ask,
        ({
            let next = run.next(ReplyView::MaybeNumber(max))->Ask_0;
            &&& next.task is SetCounter
            &&& next.task->SetCounter_table == run.task->ReadCounter_table
            &&& next.task->next == match max {
                Some(max) => max + 1,
                None => 1,
            }
            &&& next.later == run.later
        }),
{
    let tasks = seq![
        TaskView::SetCounter {
            table: run.task->ReadCounter_table,
            next: clone::next_counter(max),
        },
    ] + run.later;
    assert(tasks.skip(1) =~= run.later);
}

/// A trigger, a routine or an event is created by the statement that the server shows for it,
/// with the references to the template pointed at the new database.
pub proof fn law_shown_statement_is_run(run: CloneView, row: Seq<Text>)
    requires
        run.task is ReadTrigger || run.task is ReadRoutine || run.task is ReadEvent,
    ensures
        run.next(ReplyView::Row(row)) is Ask,
        ({
            let next = run.next(ReplyView::Row(row))->Ask_0;
            let shown = if run.task is ReadEvent {
                row[3]
            } else {
                row[2]
            };
            &&& next.command() == (CommandView::Execute {
                session: Session::Secondary,
                sql: refs::redirected(shown, run.template, run.new_db),
                params: seq![],
            })
            &&& next.later == run.later
        }),
{
    let shown = if run.task is ReadEvent {
        row[3]
    } else {
        row[2]
    };
    let statement = refs::redirected(shown, run.template, run.new_db);
    let tasks = seq![TaskView::Create { statement }] + run.later;
    assert(tasks.skip(1) =~= run.later);
}

/// Every counter, foreign key, trigger, routine and event that the server lists gets its turn, in
/// order, before anything else.
pub proof fn law_everything_listed_gets_its_turn(
    run: CloneView,
    names: Seq<Text>,
    pairs: Seq<(Text, Text)>,
    keys: Seq<ForeignKeyView>,
)
    requires
        names.len() > 0,
        pairs.len() > 0,
        keys.len() > 0,
    ensures
        run.task is ListCounters ==> {
            let next = run.next(ReplyView::Pairs(pairs))->Ask_0;
            &&& run.next(ReplyView::Pairs(pairs)) is Ask
            &&& agenda(next).skip(pairs.len() as int) == run.later
            &&& forall|i: int|
                0 <= i < pairs.len() ==> agenda(next)[i] == (TaskView::ReadCounter {
                    table: (#[trigger] pairs[i]).0,
                    column: pairs[i].1,
                })
        },
        run.task is ListKeys ==> {
            let next = run.next(ReplyView::ForeignKeys(keys))->Ask_0;
            &&& run.next(ReplyView::ForeignKeys(keys)) is Ask
            &&& agenda(next).skip(keys.len() as int) == run.later
            &&& forall|i: int|
                0 <= i < keys.len() ==> agenda(next)[i] == (TaskView::AddKey {
                    key: #[trigger] keys[i],
                })
        },
        run.task is ListTriggers ==> {
            let next = run.next(ReplyView::Names(names))->Ask_0;
            &&& run.next(ReplyView::Names(names)) is Ask
            &&& agenda(next).skip(names.len() as int) == run.later
            &&& forall|i: int|
                0 <= i < names.len() ==> agenda(next)[i] == (TaskView::ReadTrigger {
                    name: #[trigger] names[i],
                })
        },
        run.task is ListRoutines ==> {
            let next = run.next(ReplyView::Pairs(pairs))->Ask_0;
            &&& run.next(ReplyView::Pairs(pairs)) is Ask
            &&& agenda(next).skip(pairs.len() as int) == run.later
            &&& forall|i: int|
                0 <= i < pairs.len() ==> agenda(next)[i] == (TaskView::ReadRoutine {
                    name: (#[trigger] pairs[i]).0,
                    routine_type: pairs[i].1,
                })
        },
        run.task is ListEvents ==> {
            let next = run.next(ReplyView::Names(names))->Ask_0;
            &&& run.next(ReplyView::Names(names)) is Ask
            &&& agenda(next).skip(names.len() as int) == run.later
            &&& forall|i: int|
                0 <= i < names.len() ==> agenda(next)[i] == (TaskView::ReadEvent {
                    name: #[trigger] names[i],
                })
        },
{
    let counters = clone::counter_tasks(pairs);
    let adding = clone::key_tasks(keys);
    let triggers = clone::trigger_tasks(names);
    let routines = clone::routine_tasks(pairs);
    let events = clone::event_tasks(names);
    if run.task is ListCounters {
        let next = run.next(ReplyView::Pairs(pairs))->Ask_0;
        assert(agenda(next) =~= counters + run.later);
        assert(agenda(next).skip(pairs.len() as int) =~= run.later);
    } else if run.task is ListKeys {
        let next = run.next(ReplyView::ForeignKeys(keys))->Ask_0;
        assert(agenda(next) =~= adding + run.later);
        assert(agenda(next).skip(keys.len() as int) =~= run.later);
    } else if run.task is ListTriggers {
        let next = run.next(ReplyView::Names(names))->Ask_0;
        assert(agenda(next) =~= triggers + run.later);
        assert(agenda(next).skip(names.len() as int) =~= run.later);
    } else if run.task is ListRoutines {
        let next = run.next(ReplyView::Pairs(pairs))->Ask_0;
        assert(agenda(next) =~= routines + run.later);
        assert(agenda(next).skip(pairs.len() as int) =~= run.later);
    } else if run.task is ListEvents {
        let next = run.next(ReplyView::Names(names))->Ask_0;
        assert(agenda(next) =~= events + run.later);
        assert(agenda(next).skip(names.len() as int) =~= run.later);
    }
}

/// Every view's statement is read before the first view is created, and each is created by the
/// statement that the server shows for it, with the references to the template pointed at the
/// new database.
pub proof fn law_view_statements_are_read(run: CloneView, row: Seq<Text>)
    requires
        run.task is ReadView,
    ensures
        run.next(ReplyView::Row(row)) is Ask,
        ({
            let next = run.next(ReplyView::Row(row))->Ask_0;
            let left = run.task->ReadView_left;
            let read = run.task->statements.push(
                refs::redirected(row[1], run.template, run.new_db),
            );
            &&& next.later == run.later
            &&& left.len() > 0 ==> next.task == (TaskView::ReadView {
                view: left[0],
                left: left.skip(1),
                statements: read,
            })
            &&& left.len() == 0 ==> next.task == (TaskView::CreateView {
                statement: read[0],
                left: read.skip(1),
                failed: seq![],
                size: read.len(),
            })
        }),
{
    let left = run.task->ReadView_left;
    let read = run.task->statements.push(refs::redirected(row[1], run.template, run.new_db));
    let tasks = clone::reading_tasks(left, read) + run.later;
    assert(tasks.skip(1) =~= run.later);
}

} // verus!
