//! Making the database that a test runs on.

use crate::cleanup::{self, CleanupRun, CleanupStage, CleanupView, OldDbsRun, OldDbsView};
use crate::clone::{self, CloneRun, CloneView, TaskView};
use crate::migrate::{self, db_name_of_path};
use crate::protocol::{
    self, execute_command, Command, CommandView, Error, ErrorView, Reply, ReplyView, Session,
    Turn, TurnView,
};
use crate::sql;
use crate::template::{
    self, get_or_create_template, TemplateLockGuard, TemplateReportView, TemplateRun,
    TemplateView,
};
use crate::testing::{
    self, ConnectOptions, ConnectOptionsView, TestArgs, TestContext, TestContextView,
};
use crate::text::{self, Text};
use vstd::prelude::*;

verus! {

/// Where a test's database comes from.
#[derive(Debug, PartialEq, Eq)]
pub enum Origin {
    /// It is a clone of a template.
    Cloned,
    /// It was created empty: the test has no migrations, or templates are disabled.
    NoTemplate,
    /// It was created empty, because there was no template to be had.
    TemplateFailed(Error),
    /// It was created empty, because the template could not be cloned.
    CloneFailed(Error),
}

/// The model of an [`Origin`].
pub enum OriginView {
    Cloned,
    NoTemplate,
    TemplateFailed(ErrorView),
    CloneFailed(ErrorView),
}

impl View for Origin {
    type V = OriginView;

    open spec fn view(&self) -> OriginView {
        match self {
            Origin::Cloned => OriginView::Cloned,
            Origin::NoTemplate => OriginView::NoTemplate,
            Origin::TemplateFailed(e) => OriginView::TemplateFailed(e@),
            Origin::CloneFailed(e) => OriginView::CloneFailed(e@),
        }
    }
}

/// A test's database, ready.
#[derive(Debug)]
pub struct Prepared {
    pub context: TestContext,
    pub origin: Origin,
}

/// The model of a [`Prepared`].
pub struct PreparedView {
    pub context: TestContextView,
    pub origin: OriginView,
}

impl View for Prepared {
    type V = PreparedView;

    open spec fn view(&self) -> PreparedView {
        PreparedView { context: self.context@, origin: self.origin@ }
    }
}

/// How far the making of a test's database has come.
#[derive(Debug)]
pub enum ContextStage {
    /// Take a connection from the master pool.
    Acquiring,
    /// Remove what older versions left behind.
    Sweeping(OldDbsRun),
    /// Ensure the list of test databases exists.
    CreatingTable,
    /// Remove the database that an earlier run of the test left behind.
    Cleaning(CleanupRun),
    /// Put the database on the list.
    Recording,
    /// Look for the template.
    Templating(TemplateRun),
    /// Clone from template (fast path).
    Cloning(CloneRun),
    /// Clean up partial database.
    DroppingPartial { error: Error },
    /// Create an empty database.
    CreatingEmpty { origin: Origin },
}

/// The model of a [`ContextStage`].
pub enum ContextStageView {
    Acquiring,
    Sweeping(OldDbsView),
    CreatingTable,
    Cleaning(CleanupView),
    Recording,
    Templating(TemplateView),
    Cloning(CloneView),
    DroppingPartial { error: ErrorView },
    CreatingEmpty { origin: OriginView },
}

impl View for ContextStage {
    type V = ContextStageView;

    open spec fn view(&self) -> ContextStageView {
        match self {
            ContextStage::Acquiring => ContextStageView::Acquiring,
            ContextStage::Sweeping(run) => ContextStageView::Sweeping(run@),
            ContextStage::CreatingTable => ContextStageView::CreatingTable,
            ContextStage::Cleaning(run) => ContextStageView::Cleaning(run@),
            ContextStage::Recording => ContextStageView::Recording,
            ContextStage::Templating(run) => ContextStageView::Templating(run@),
            ContextStage::Cloning(run) => ContextStageView::Cloning(run@),
            ContextStage::DroppingPartial { error } => ContextStageView::DroppingPartial {
                error: error@,
            },
            ContextStage::CreatingEmpty { origin } => ContextStageView::CreatingEmpty {
                origin: origin@,
            },
        }
    }
}

/// The making of a test's database, in progress.
#[derive(Debug)]
pub struct ContextRun {
    host: ConnectOptions,
    db_name: String,
    test_path: String,
    /// The search for a template that is to be made, if any.
    search: Option<TemplateRun>,
    /// The guard of the template lock, once a search is over that acquired it.
    lock: Option<TemplateLockGuard>,
    stage: ContextStage,
}

/// The model of a [`ContextRun`].
pub struct ContextView {
    pub host: ConnectOptionsView,
    pub db_name: Text,
    pub test_path: Text,
    pub search: Option<TemplateView>,
    pub lock: Option<TemplateLockGuard>,
    pub stage: ContextStageView,
}

/// What an optional search is modelled by.
pub open spec fn maybe_search(search: Option<TemplateRun>) -> Option<TemplateView> {
    match search {
        Some(run) => Some(run@),
        None => None,
    }
}

impl View for ContextRun {
    type V = ContextView;

    closed spec fn view(&self) -> ContextView {
        ContextView {
            host: self.host@,
            db_name: self.db_name@,
            test_path: self.test_path@,
            search: maybe_search(self.search),
            lock: self.lock,
            stage: self.stage@,
        }
    }
}

/// The start of a clone of `template` into `new_db`, which does not exist yet.
pub open spec fn clone_start(template: Text, new_db: Text) -> CloneView {
    CloneView {
        template,
        new_db,
        task: TaskView::CreateDatabase,
        later: clone::object_tasks(),
    }
}

/// The database `db_name` on `host`, ready.
pub open spec fn prepared(
    host: ConnectOptionsView,
    db_name: Text,
    origin: OriginView,
) -> PreparedView {
    PreparedView {
        context: TestContextView {
            pool_opts: testing::test_pool(),
            connect_opts: ConnectOptionsView { host: host.host, database: Some(db_name) },
            db_name,
            from_template: origin is Cloned,
        },
        origin,
    }
}

impl ContextView {
    /// The next command.
    pub open spec fn command(self) -> CommandView {
        match self.stage {
            ContextStageView::Acquiring => CommandView::Acquire,
            ContextStageView::Sweeping(run) => run.command(),
            ContextStageView::CreatingTable => protocol::execute(
                Session::Primary,
                sql::CREATE_TESTS_TABLE@,
            ),
            ContextStageView::Cleaning(run) => run.command(),
            ContextStageView::Recording => CommandView::Execute {
                session: Session::Primary,
                sql: sql::RECORD_TEST@,
                params: seq![self.db_name, self.test_path],
            },
            ContextStageView::Templating(run) => run.command(),
            ContextStageView::Cloning(run) => run.command(),
            ContextStageView::DroppingPartial { error } => protocol::execute(
                Session::Primary,
                sql::drop_partial(self.db_name),
            ),
            ContextStageView::CreatingEmpty { origin } => protocol::execute(
                Session::Primary,
                sql::create_empty(self.db_name),
            ),
        }
    }

    /// Whether the making can go on from `reply`.
    pub open spec fn admits(self, reply: ReplyView) -> bool {
        match self.stage {
            ContextStageView::Cloning(run) => run.admits(reply),
            _ => self.command().answered_by(reply),
        }
    }

    /// The making goes on with `stage`.
    pub open spec fn at(self, stage: ContextStageView) -> TurnView<ContextView, PreparedView> {
        TurnView::Ask(ContextView { stage, ..self })
    }

    /// The database is ready.
    pub open spec fn ready(self, origin: OriginView) -> TurnView<ContextView, PreparedView> {
        TurnView::Done(prepared(self.host, self.db_name, origin))
    }

    /// Where the making stands once the search for a template is over.
    pub open spec fn searched(self, report: TemplateReportView) -> TurnView<
        ContextView,
        PreparedView,
    > {
        TurnView::Ask(
            ContextView {
                lock: report.lock,
                stage: match report.result {
                    Ok(name) => ContextStageView::Cloning(clone_start(name, self.db_name)),
                    Err(e) => ContextStageView::CreatingEmpty {
                        origin: OriginView::TemplateFailed(e),
                    },
                },
                ..self
            },
        )
    }

    /// Where the making stands after `reply`.
    pub open spec fn next(self, reply: ReplyView) -> TurnView<ContextView, PreparedView> {
        match self.stage {
            ContextStageView::Sweeping(run) => match run.next(reply) {
                TurnView::Ask(run) => self.at(ContextStageView::Sweeping(run)),
                TurnView::Done(_) => self.at(ContextStageView::CreatingTable),
                TurnView::Fail(e) => TurnView::Fail(e),
            },
            ContextStageView::Cleaning(run) => match run.next(reply) {
                TurnView::Ask(run) => self.at(ContextStageView::Cleaning(run)),
                TurnView::Done(_) => self.at(ContextStageView::Recording),
                TurnView::Fail(e) => TurnView::Fail(e),
            },
            ContextStageView::Templating(run) => match run.next(reply) {
                TurnView::Ask(run) => self.at(ContextStageView::Templating(run)),
                TurnView::Done(report) => self.searched(report),
                // Template creation failed, fall back to empty database
                TurnView::Fail(e) => self.at(
                    ContextStageView::CreatingEmpty { origin: OriginView::TemplateFailed(e) },
                ),
            },
            ContextStageView::Cloning(run) => match run.next(reply) {
                TurnView::Ask(run) => self.at(ContextStageView::Cloning(run)),
                TurnView::Done(_) => self.ready(OriginView::Cloned),
                // Clean up partial database and fall back to empty database
                TurnView::Fail(error) => self.at(ContextStageView::DroppingPartial { error }),
            },
            // The partial database may not be there: go on, whatever came of it.
            ContextStageView::DroppingPartial { error } => self.at(
                ContextStageView::CreatingEmpty { origin: OriginView::CloneFailed(error) },
            ),
            _ => match reply {
                ReplyView::Failed(e) => TurnView::Fail(e),
                _ => match self.stage {
                    ContextStageView::Acquiring => self.at(
                        ContextStageView::Sweeping(OldDbsView::Listing),
                    ),
                    ContextStageView::CreatingTable => self.at(
                        ContextStageView::Cleaning(
                            CleanupView {
                                db_name: self.db_name,
                                stage: CleanupStage::Dropping,
                            },
                        ),
                    ),
                    ContextStageView::Recording => match self.search {
                        Some(run) => TurnView::Ask(
                            ContextView {
                                search: None,
                                stage: ContextStageView::Templating(run),
                                ..self
                            },
                        ),
                        None => self.at(
                            ContextStageView::CreatingEmpty { origin: OriginView::NoTemplate },
                        ),
                    },
                    ContextStageView::CreatingEmpty { origin } => self.ready(origin),
                    // Nothing else is left.
                    _ => TurnView::Ask(self),
                },
            },
        }
    }
}

/// The start of the making of a test's database. A template is looked for only where templates
/// are enabled and the test has migrations.
pub open spec fn opening(args: &TestArgs, host: ConnectOptionsView, templates: bool) -> ContextView {
    ContextView {
        host,
        db_name: migrate::test_name(migrate::path_hash(args.test_path@)),
        test_path: args.test_path@,
        search: match args.migrations() {
            Some(migrations) if templates => Some(template::search_for(migrations)),
            _ => None,
        },
        lock: None,
        stage: ContextStageView::Acquiring,
    }
}

/// Get parameters to construct a pool suitable for testing.
///
/// `host` is where the master pool connects to, and `templates` whether templates are enabled.
pub fn test_context(args: &TestArgs, host: ConnectOptions, templates: bool) -> (r: ContextRun)
    ensures
        r@ == opening(args, host@, templates),
{
    let search = match args.migrator {
        Some(migrator) => get_or_create_template(templates, migrator),
        None => None,
    };
    ContextRun {
        host,
        db_name: db_name_of_path(args.test_path),
        test_path: String::from_str(args.test_path),
        search,
        lock: None,
        stage: ContextStage::Acquiring,
    }
}

/// The database is ready.
fn ready(host: &ConnectOptions, db_name: String, origin: Origin) -> (r: Turn<ContextRun, Prepared>)
    ensures
        r@ == TurnView::<ContextView, PreparedView>::Done(prepared(host@, db_name@, origin@)),
{
    let from_template = match &origin {
        Origin::Cloned => true,
        _ => false,
    };
    let context = TestContext {
        pool_opts: testing::test_pool_options(),
        connect_opts: host.database(db_name.as_str()),
        db_name,
        from_template,
    };
    Turn::Done(Prepared { context, origin })
}

impl ContextRun {
    /// The next command.
    pub fn command(&self) -> (r: Command)
        ensures
            r@ == self@.command(),
    {
        match &self.stage {
            ContextStage::Acquiring => Command::Acquire,
            ContextStage::Sweeping(run) => run.command(),
            ContextStage::CreatingTable => execute_command(
                Session::Primary,
                String::from_str(sql::CREATE_TESTS_TABLE),
            ),
            ContextStage::Cleaning(run) => run.command(),
            ContextStage::Recording => {
                let mut params: Vec<String> = Vec::new();
                params.push(self.db_name.clone());
                params.push(self.test_path.clone());
                assert(text::texts(params@) =~= seq![self.db_name@, self.test_path@]);
                Command::Execute {
                    session: Session::Primary,
                    sql: String::from_str(sql::RECORD_TEST),
                    params,
                }
            },
            ContextStage::Templating(run) => run.command(),
            ContextStage::Cloning(run) => run.command(),
            ContextStage::DroppingPartial { error: _ } => execute_command(
                Session::Primary,
                sql::drop_partial_sql(self.db_name.as_str()),
            ),
            ContextStage::CreatingEmpty { origin: _ } => execute_command(
                Session::Primary,
                sql::create_empty_sql(self.db_name.as_str()),
            ),
        }
    }

    /// Whether the making can go on from `reply`.
    pub fn admits(&self, reply: &Reply) -> (r: bool)
        ensures
            r == self@.admits(reply@),
    {
        match &self.stage {
            ContextStage::Cloning(run) => run.admits(reply),
            _ => self.command().answered_by(reply),
        }
    }

    /// The guard of the template lock, once a search is over that acquired it.
    pub fn template_lock(&self) -> (r: Option<TemplateLockGuard>)
        ensures
            r == self@.lock,
    {
        self.lock
    }

    /// Goes on from the reply to the last command.
    pub fn resume(self, reply: Reply) -> (r: Turn<ContextRun, Prepared>)
        requires
            self@.admits(reply@),
        ensures
            r@ == self@.next(reply@),
    {
        let ContextRun { host, db_name, test_path, search, lock, stage } = self;
        let (search, lock, stage) = match (stage, reply) {
            (ContextStage::Sweeping(run), reply) => match run.resume(reply) {
                Turn::Ask(run) => (search, lock, ContextStage::Sweeping(run)),
                Turn::Done(_) => (search, lock, ContextStage::CreatingTable),
                Turn::Fail(e) => {
                    return Turn::Fail(e);
                },
            },
            (ContextStage::Cleaning(run), reply) => match run.resume(reply) {
                Turn::Ask(run) => (search, lock, ContextStage::Cleaning(run)),
                Turn::Done(_) => (search, lock, ContextStage::Recording),
                Turn::Fail(e) => {
                    return Turn::Fail(e);
                },
            },
            (ContextStage::Templating(run), reply) => match run.resume(reply) {
                Turn::Ask(run) => (search, lock, ContextStage::Templating(run)),
                Turn::Done(report) => match report.result {
                    Ok(name) => (
                        search,
                        report.lock,
                        ContextStage::Cloning(
                            clone::clone_database(name.as_str(), db_name.as_str()),
                        ),
                    ),
                    Err(e) => (
                        search,
                        report.lock,
                        ContextStage::CreatingEmpty { origin: Origin::TemplateFailed(e) },
                    ),
                },
                Turn::Fail(e) => (
                    search,
                    lock,
                    ContextStage::CreatingEmpty { origin: Origin::TemplateFailed(e) },
                ),
            },
            (ContextStage::Cloning(run), reply) => match run.resume(reply) {
                Turn::Ask(run) => (search, lock, ContextStage::Cloning(run)),
                Turn::Done(_) => {
                    return ready(&host, db_name, Origin::Cloned);
                },
                Turn::Fail(error) => (search, lock, ContextStage::DroppingPartial { error }),
            },
            (ContextStage::DroppingPartial { error }, _) => (
                search,
                lock,
                ContextStage::CreatingEmpty { origin: Origin::CloneFailed(error) },
            ),
            (_, Reply::Failed(e)) => {
                return Turn::Fail(e);
            },
            (ContextStage::Acquiring, _) => (
                search,
                lock,
                ContextStage::Sweeping(cleanup::cleanup_old_dbs()),
            ),
            (ContextStage::CreatingTable, _) => (
                search,
                lock,
                ContextStage::Cleaning(cleanup::do_cleanup(db_name.as_str())),
            ),
            (ContextStage::Recording, _) => match search {
                // Try to use template cloning if migrations are provided
                Some(run) => (None, lock, ContextStage::Templating(run)),
                None => (None, lock, ContextStage::CreatingEmpty { origin: Origin::NoTemplate }),
            },
            (ContextStage::CreatingEmpty { origin }, _) => {
                return ready(&host, db_name, origin);
            },
        };
        Turn::Ask(ContextRun { host, db_name, test_path, search, lock, stage })
    }
}

} // verus!
