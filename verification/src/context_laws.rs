//! What holds of the making of a test's database as a whole.

use crate::cleanup::{self, CleanupStage, CleanupView, OldDbsView};
use crate::clone::{self, CloneView};
use crate::clone_laws;
use crate::context::{
    self, ContextStageView, ContextView, Origin, OriginView, Prepared, PreparedView,
};
use crate::migrate;
use crate::protocol::{self, CommandView, ErrorView, Exchange, ReplyView, Session, TurnView};
use crate::sql;
use crate::template::{self, TemplateReportView, TemplateView};
use crate::testing::{ConnectOptionsView, TestArgs};
use crate::text::Text;
use vstd::prelude::*;

verus! {

/// Where the making stands after it asked for each command of `script` in turn and got the
/// reply beside it; `None` where it asks for something else, or cannot go on from a reply.
pub open spec fn played(
    turn: TurnView<ContextView, PreparedView>,
    script: Seq<Exchange>,
) -> Option<TurnView<ContextView, PreparedView>>
    decreases script.len(),
{
    if script.len() == 0 {
        Some(turn)
    } else {
        match turn {
            TurnView::Ask(run) => if run.command() == script[0].command && run.admits(
                script[0].reply,
            ) {
                played(run.next(script[0].reply), script.skip(1))
            } else {
                None
            },
            _ => None,
        }
    }
}

/// A statement that runs over the primary connection.
pub open spec fn ran(sql: Text) -> Exchange {
    Exchange { command: protocol::execute(Session::Primary, sql), reply: ReplyView::Done }
}

/// How the making starts: the connection is taken, what older versions left behind is removed
/// by `sweep`, the list of test databases is made if it is missing, what an earlier run of the
/// test left behind is dropped and struck off the list, and the new database is put on it.
pub open spec fn opening_script(
    db_name: Text,
    test_path: Text,
    sweep: Seq<Exchange>,
) -> Seq<Exchange> {
    seq![Exchange { command: CommandView::Acquire, reply: ReplyView::Done }] + (sweep + seq![
        ran(sql::CREATE_TESTS_TABLE@),
        ran(sql::drop_test(db_name)),
        Exchange {
            command: protocol::execute_with(Session::Primary, sql::FORGET_TEST@, db_name),
            reply: ReplyView::Done,
        },
        Exchange {
            command: CommandView::Execute {
                session: Session::Primary,
                sql: sql::RECORD_TEST@,
                params: seq![db_name, test_path],
            },
            reply: ReplyView::Done,
        },
    ])
}

/// Whether `sweep` is a conversation by which the removal of old-style test databases comes to
/// its end.
pub open spec fn sweeps(sweep: Seq<Exchange>) -> bool {
    cleanup::old_dbs_played(TurnView::Ask(OldDbsView::Listing), sweep) == Some(
        TurnView::<OldDbsView, ()>::Done(()),
    )
}

proof fn lemma_played(run: ContextView, x: Exchange, tail: Seq<Exchange>)
    requires
        run.command() == x.command,
        run.admits(x.reply),
    ensures
        played(TurnView::Ask(run), seq![x] + tail) == played(run.next(x.reply), tail),
{
    assert((seq![x] + tail).skip(1) =~= tail);
}

/// A script that the removal of old-style test databases follows to its end, the making of the
/// database follows too.
proof fn lemma_sweep(
    ctx: ContextView,
    run: OldDbsView,
    script: Seq<Exchange>,
    tail: Seq<Exchange>,
)
    requires
        cleanup::old_dbs_played(TurnView::Ask(run), script) == Some(
            TurnView::<OldDbsView, ()>::Done(()),
        ),
    ensures
        played(ctx.at(ContextStageView::Sweeping(run)), script + tail) == played(
            ctx.at(ContextStageView::CreatingTable),
            tail,
        ),
    decreases script.len(),
{
    reveal_with_fuel(cleanup::old_dbs_played, 2);
    let x = script[0];
    let rest = script.skip(1);
    let at = ContextView { stage: ContextStageView::Sweeping(run), ..ctx };
    assert(script + tail =~= seq![x] + (rest + tail));
    lemma_played(at, x, rest + tail);
    match run.next(x.reply) {
        TurnView::Ask(next) => {
            lemma_sweep(ctx, next, rest, tail);
        },
        _ => {
            assert(rest.len() == 0);
            assert(rest + tail =~= tail);
        },
    }
}

/// Up to the moment where the database itself is made.
proof fn lemma_opening(run: ContextView, sweep: Seq<Exchange>, tail: Seq<Exchange>)
    requires
        run.stage is Acquiring,
        sweeps(sweep),
    ensures
        played(TurnView::Ask(run), opening_script(run.db_name, run.test_path, sweep) + tail)
            == played(
            ContextView { stage: ContextStageView::Recording, ..run }.next(ReplyView::Done),
            tail,
        ),
{
    let s = opening_script(run.db_name, run.test_path, sweep);
    let n = 1 + sweep.len() as int;
    let t4 = tail;
    let t3 = seq![s[n + 3]] + t4;
    let t2 = seq![s[n + 2]] + t3;
    let t1 = seq![s[n + 1]] + t2;
    let t0 = seq![s[n]] + t1;
    assert(s + tail =~= seq![s[0]] + (sweep + t0));
    let dropping = ContextStageView::Cleaning(
        CleanupView { db_name: run.db_name, stage: CleanupStage::Dropping },
    );
    let forgetting = ContextStageView::Cleaning(
        CleanupView { db_name: run.db_name, stage: CleanupStage::Forgetting },
    );
    lemma_played(run, s[0], sweep + t0);
    lemma_sweep(run, OldDbsView::Listing, sweep, t0);
    lemma_played(ContextView { stage: ContextStageView::CreatingTable, ..run }, s[n], t1);
    lemma_played(ContextView { stage: dropping, ..run }, s[n + 1], t2);
    lemma_played(ContextView { stage: forgetting, ..run }, s[n + 2], t3);
    lemma_played(ContextView { stage: ContextStageView::Recording, ..run }, s[n + 3], t4);
}

/// A script that a search for a template follows to its end, the making of the database
/// follows too.
proof fn lemma_search(
    ctx: ContextView,
    run: TemplateView,
    script: Seq<Exchange>,
    report: TemplateReportView,
    tail: Seq<Exchange>,
)
    requires
        template::played(TurnView::Ask(run), script) == Some(
            TurnView::<TemplateView, TemplateReportView>::Done(report),
        ),
    ensures
        played(ctx.at(ContextStageView::Templating(run)), script + tail) == played(
            ctx.searched(report),
            tail,
        ),
    decreases script.len(),
{
    reveal_with_fuel(template::played, 2);
    let x = script[0];
    let rest = script.skip(1);
    let at = ContextView { stage: ContextStageView::Templating(run), ..ctx };
    assert(script + tail =~= seq![x] + (rest + tail));
    lemma_played(at, x, rest + tail);
    match run.next(x.reply) {
        TurnView::Ask(next) => {
            lemma_search(ctx, next, rest, report, tail);
        },
        _ => {
            assert(rest.len() == 0);
            assert(rest + tail =~= tail);
        },
    }
}

/// A script that a clone follows to its end, the making of the database follows too.
proof fn lemma_clone(ctx: ContextView, run: CloneView, script: Seq<Exchange>)
    requires
        clone_laws::played(TurnView::Ask(run), script) == Some(
            TurnView::<CloneView, ()>::Done(()),
        ),
    ensures
        played(ctx.at(ContextStageView::Cloning(run)), script) == Some(
            ctx.ready(OriginView::Cloned),
        ),
    decreases script.len(),
{
    reveal_with_fuel(clone_laws::played, 2);
    reveal_with_fuel(played, 2);
    let x = script[0];
    let rest = script.skip(1);
    match run.next(x.reply) {
        TurnView::Ask(next) => {
            lemma_clone(ctx, next, rest);
        },
        _ => {
            assert(rest.len() == 0);
        },
    }
}

/// Without a template to look for, the test gets an empty database.
pub proof fn law_database_is_created_empty(run: ContextView, sweep: Seq<Exchange>)
    requires
        run.stage is Acquiring,
        run.search is None,
        sweeps(sweep),
    ensures
        played(
            TurnView::Ask(run),
            opening_script(run.db_name, run.test_path, sweep) + seq![
                ran(sql::create_empty(run.db_name)),
            ],
        ) == Some(run.ready(OriginView::NoTemplate)),
{
    let x = ran(sql::create_empty(run.db_name));
    let end = Seq::<Exchange>::empty();
    lemma_opening(run, sweep, seq![x]);
    assert(seq![x] =~= seq![x] + end);
    let origin = OriginView::NoTemplate;
    lemma_played(
        ContextView { stage: ContextStageView::CreatingEmpty { origin }, ..run },
        x,
        end,
    );
}

/// With a template, the test gets a clone of it: whatever conversations the search for the
/// template and the clone of what it found come to their ends by, one after the other they
/// make the test's database, and it counts as made from a template.
pub proof fn law_database_is_cloned(
    run: ContextView,
    sweep: Seq<Exchange>,
    search: Seq<Exchange>,
    report: TemplateReportView,
    clone: Seq<Exchange>,
)
    requires
        run.stage is Acquiring,
        run.search is Some,
        sweeps(sweep),
        template::played(TurnView::Ask(run.search->0), search) == Some(
            TurnView::<TemplateView, TemplateReportView>::Done(report),
        ),
        report.result is Ok,
        clone_laws::played(
            TurnView::Ask(context::clone_start(report.result->Ok_0, run.db_name)),
            clone,
        ) == Some(TurnView::<CloneView, ()>::Done(())),
    ensures
        played(
            TurnView::Ask(run),
            opening_script(run.db_name, run.test_path, sweep) + (search + clone),
        ) == Some(run.ready(OriginView::Cloned)),
        run.ready(OriginView::Cloned)->Done_0.context.from_template,
{
    lemma_opening(run, sweep, search + clone);
    let ctx = ContextView { search: None, ..run };
    lemma_search(ctx, run.search->0, search, report, clone);
    let found = ContextView { lock: report.lock, ..ctx };
    lemma_clone(found, context::clone_start(report.result->Ok_0, run.db_name), clone);
}

/// A template is a convenience: trouble with it never keeps a test from its database.
pub proof fn law_template_trouble_is_survived(run: ContextView, reply: ReplyView)
    requires
        run.admits(reply),
        run.stage is Templating || run.stage is Cloning || run.stage is DroppingPartial,
    ensures
        !(run.next(reply) is Fail),
{
}

/// A search that comes to nothing is made up for by an empty database.
pub proof fn law_failed_search_falls_back(
    run: ContextView,
    template: TemplateView,
    search: Seq<Exchange>,
    report: TemplateReportView,
    e: ErrorView,
)
    requires
        run.stage == ContextStageView::Templating(template),
        template::played(TurnView::Ask(template), search) == Some(
            TurnView::<TemplateView, TemplateReportView>::Done(report),
        ),
        report.result == Err::<Text, ErrorView>(e),
    ensures
        played(TurnView::Ask(run), search + seq![ran(sql::create_empty(run.db_name))]) == Some(
            run.ready(OriginView::TemplateFailed(e)),
        ),
        !run.ready(OriginView::TemplateFailed(e))->Done_0.context.from_template,
{
    let x = ran(sql::create_empty(run.db_name));
    let end = Seq::<Exchange>::empty();
    lemma_search(run, template, search, report, seq![x]);
    assert(seq![x] =~= seq![x] + end);
    let origin = OriginView::TemplateFailed(e);
    lemma_played(
        ContextView {
            lock: report.lock,
            stage: ContextStageView::CreatingEmpty { origin },
            ..run
        },
        x,
        end,
    );
}

/// A clone that fails is dropped, whatever comes of that, and made up for by an empty database.
pub proof fn law_failed_clone_falls_back(
    run: ContextView,
    clone: CloneView,
    failure: ReplyView,
    e: ErrorView,
    dropped: ReplyView,
)
    requires
        run.stage == ContextStageView::Cloning(clone),
        clone.admits(failure),
        clone.next(failure) == TurnView::<CloneView, ()>::Fail(e),
        dropped is Done || dropped is Failed,
    ensures
        played(
            TurnView::Ask(run),
            seq![
                Exchange { command: clone.command(), reply: failure },
                Exchange {
                    command: protocol::execute(
                        Session::Primary,
                        sql::drop_partial(run.db_name),
                    ),
                    reply: dropped,
                },
                ran(sql::create_empty(run.db_name)),
            ],
        ) == Some(run.ready(OriginView::CloneFailed(e))),
        !run.ready(OriginView::CloneFailed(e))->Done_0.context.from_template,
{
    let x = Exchange { command: clone.command(), reply: failure };
    let y = Exchange {
        command: protocol::execute(Session::Primary, sql::drop_partial(run.db_name)),
        reply: dropped,
    };
    let z = ran(sql::create_empty(run.db_name));
    let end = Seq::<Exchange>::empty();
    assert(seq![x, y, z] =~= seq![x] + (seq![y] + (seq![z] + end)));
    let origin = OriginView::CloneFailed(e);
    lemma_played(run, x, seq![y] + (seq![z] + end));
    lemma_played(
        ContextView { stage: ContextStageView::DroppingPartial { error: e }, ..run },
        y,
        seq![z] + end,
    );
    lemma_played(
        ContextView { stage: ContextStageView::CreatingEmpty { origin }, ..run },
        z,
        end,
    );
}

/// A database that is ready bears the test's name, is the one that connections go to, and
/// counts as made from a template exactly where a clone has just come to its end.
pub proof fn law_ready_database(run: ContextView, reply: ReplyView)
    requires
        run.admits(reply),
        run.next(reply) is Done,
    ensures
        ({
            let ready = run.next(reply)->Done_0;
            &&& ready.context.db_name == run.db_name
            &&& ready.context.connect_opts.database == Some(run.db_name)
            &&& ready.context.connect_opts.host == run.host.host
            &&& ready.context.pool_opts.max_connections == 5
            &&& ready.context.pool_opts.idle_timeout_secs == Some(1u64)
            &&& ready.context.pool_opts.counts_against_master
            &&& !ready.context.pool_opts.close_released
            &&& run.stage is Cloning || run.stage is CreatingEmpty
            &&& ready.context.from_template <==> ready.origin is Cloned
            &&& run.stage is Cloning ==> ready.context.from_template
            &&& run.stage is CreatingEmpty ==> run.stage == (ContextStageView::CreatingEmpty {
                origin: ready.origin,
            })
        }),
{
}

/// How the making of a test's database starts: with the test's own name and path, on the server
/// that is asked for, and with a search for the template of the test's migrations exactly where
/// templates are enabled and the test has migrations.
pub proof fn law_making_starts(args: TestArgs, host: ConnectOptionsView, templates: bool)
    ensures
        ({
            let start = context::opening(&args, host, templates);
            &&& start.stage is Acquiring
            &&& start.host == host
            &&& start.db_name == migrate::test_name(migrate::path_hash(args.test_path@))
            &&& start.test_path == args.test_path@
            &&& start.lock is None
            &&& start.search is Some <==> templates && args.migrator is Some
            &&& start.search is Some ==> start.search->0 == template::search_for(
                args.migrator->0@,
            )
        }),
{
}

/// A clone starts by creating the test's database, and what it copies is the template.
pub proof fn law_clone_starts(template: Text, new_db: Text)
    ensures
        ({
            let start = context::clone_start(template, new_db);
            &&& start.template == template
            &&& start.new_db == new_db
            &&& start.command() == (CommandView::Execute {
                session: Session::Primary,
                sql: "CREATE DATABASE `"@ + new_db + "`"@,
                params: seq![],
            })
            &&& start.later == clone::object_tasks()
        }),
{
}

/// What a search found is what is cloned, into the test's own database.
pub proof fn law_found_template_is_cloned(
    run: ContextView,
    search: TemplateView,
    reply: ReplyView,
)
    requires
        run.stage == ContextStageView::Templating(search),
        search.next(reply) is Done,
        search.next(reply)->Done_0.result is Ok,
    ensures
        run.next(reply) is Ask,
        run.next(reply)->Ask_0.stage is Cloning,
        run.next(reply)->Ask_0.stage->Cloning_0.template == search.next(reply)->Done_0.result->Ok_0,
        run.next(reply)->Ask_0.stage->Cloning_0.new_db == run.db_name,
        run.next(reply)->Ask_0.db_name == run.db_name,
{
}

/// A failure where no template is involved is final: the making ends with the error that the
/// server gave.
pub proof fn law_failure_is_final(run: ContextView, e: ErrorView)
    requires
        run.stage is Acquiring || run.stage is CreatingTable || run.stage is Cleaning
            || run.stage is Recording || run.stage is CreatingEmpty,
    ensures
        run.next(ReplyView::Failed(e)) == TurnView::<ContextView, PreparedView>::Fail(e),
{
}

/// A database that is ready is seen whole: its name, where connections to it go, how its pool is
/// kept, and where it comes from.
pub proof fn law_ready_database_is_seen_whole(ready: Prepared)
    ensures
        ready@.context.db_name == ready.context.db_name@,
        ready@.context.from_template == ready.context.from_template,
        ready@.context.pool_opts == ready.context.pool_opts,
        ready@.context.connect_opts.host == ready.context.connect_opts.host@,
        ready@.context.connect_opts.database is Some
            <==> ready.context.connect_opts.database is Some,
        ready.context.connect_opts.database is Some ==> ready@.context.connect_opts.database->0
            == ready.context.connect_opts.database->0@,
        match ready.origin {
            Origin::Cloned => ready@.origin is Cloned,
            Origin::NoTemplate => ready@.origin is NoTemplate,
            Origin::TemplateFailed(e) => ready@.origin == OriginView::TemplateFailed(e@),
            Origin::CloneFailed(e) => ready@.origin == OriginView::CloneFailed(e@),
        },
{
}

} // verus!
