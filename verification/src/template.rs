//! Getting or making the template database for a set of migrations.

use crate::digest;
use crate::migrate::{self, migrations_hash, template_db_name, MigrationView, Migrator};
use crate::protocol::{
    self, execute_command, execute_with_command, fetch_command, fetch_with_command, Command,
    CommandView, Error, ErrorView, Exchange, Reply, ReplyView, Session, Shape, Turn, TurnView,
};
use crate::sql;
use crate::text::{self, Text};
use vstd::prelude::*;

verus! {

/// Environment variable to enable template cloning.
pub const SQLX_TEST_TEMPLATE: &'static str = "SQLX_TEST_TEMPLATE";

/// Check if template cloning is enabled: it is where [`SQLX_TEST_TEMPLATE`] has a value,
/// whatever the value.
pub fn templates_enabled(value: Option<&str>) -> (r: bool)
    ensures
        r == (value is Some),
{
    value.is_some()
}

// ---------------------------------------------------------------------------
// The lock

/// Guard for MySQL's GET_LOCK/RELEASE_LOCK to ensure locks are released.
///
/// MySQL's GET_LOCK is session-based, so the lock is tied to the connection that
/// acquired it. The lock will be automatically released when the connection is closed.
/// This guard tracks whether explicit release was called.
#[derive(Clone, Copy, Debug, PartialEq, Eq, Structural)]
pub struct TemplateLockGuard {
    pub released: bool,
}

/// How a number that may be null is shown in a message.
pub open spec fn shown_number(n: Option<i64>) -> Text {
    match n {
        Some(n) => "Some("@ + text::signed_decimal(n as int) + ")"@,
        None => "None"@,
    }
}

/// The message for a lock that was not acquired.
pub open spec fn lock_refused(lock_result: Option<i64>) -> Text {
    "Failed to acquire template lock, GET_LOCK returned: "@ + shown_number(lock_result)
}

impl TemplateLockGuard {
    /// The command that asks for the template lock, with a 300 second timeout.
    pub open spec fn acquiring() -> CommandView {
        protocol::fetch_with(
            Session::Primary,
            sql::ACQUIRE_LOCK@,
            sql::TEMPLATE_LOCK_NAME@,
            Shape::MaybeNumber,
        )
    }

    /// The command that releases the template lock.
    pub open spec fn releasing() -> CommandView {
        protocol::execute_with(Session::Primary, sql::RELEASE_LOCK@, sql::TEMPLATE_LOCK_NAME@)
    }

    /// The command that asks for the template lock.
    pub fn acquire_command() -> (r: Command)
        ensures
            r@ == Self::acquiring(),
    {
        fetch_with_command(
            Session::Primary,
            sql::ACQUIRE_LOCK,
            sql::TEMPLATE_LOCK_NAME,
            Shape::MaybeNumber,
        )
    }

    /// The command that releases the template lock.
    pub fn release_command() -> (r: Command)
        ensures
            r@ == Self::releasing(),
    {
        execute_with_command(Session::Primary, sql::RELEASE_LOCK, sql::TEMPLATE_LOCK_NAME)
    }

    /// Acquire the template lock: it is held where the server answers 1.
    pub fn acquire(lock_result: Option<i64>) -> (r: Result<TemplateLockGuard, Error>)
        ensures
            match r {
                Ok(guard) => lock_result == Some(1i64) && !guard.released,
                Err(e) => lock_result != Some(1i64) && e@ == ErrorView::Protocol(
                    lock_refused(lock_result),
                ),
            },
    {
        match lock_result {
            Some(1) => Ok(TemplateLockGuard { released: false }),
            Some(n) => {
                let mut shown = String::from_str("Some(");
                text::push_signed(&mut shown, n);
                let shown = shown.concat(")");
                Err(
                    Error::Protocol(
                        String::from_str(
                            "Failed to acquire template lock, GET_LOCK returned: ",
                        ).concat(shown.as_str()),
                    ),
                )
            },
            None => Err(
                Error::Protocol(
                    String::from_str(
                        "Failed to acquire template lock, GET_LOCK returned: ",
                    ).concat("None"),
                ),
            ),
        }
    }

    /// Release the template lock: it is released where the command to release it succeeded.
    pub fn release(self, reply: Reply) -> (r: (TemplateLockGuard, Option<Error>))
        requires
            Self::releasing().answered_by(reply@),
        ensures
            match r.1 {
                None => reply@ is Done && r.0.released,
                Some(e) => reply@ == ReplyView::Failed(e@) && r.0 == self,
            },
    {
        match reply {
            Reply::Failed(e) => (self, Some(e)),
            _ => (TemplateLockGuard { released: true }, None),
        }
    }

    /// Release the lock, ignoring errors (for cleanup paths).
    pub fn release_ignore_errors(self) -> (r: TemplateLockGuard)
        ensures
            r.released,
    {
        TemplateLockGuard { released: true }
    }

    /// Whether explicit release was skipped, so that the lock stays until the connection is
    /// closed: worth a warning once the guard is dropped.
    pub fn left_locked(&self) -> (r: bool)
        ensures
            r == !self.released,
    {
        !self.released
    }
}

// ---------------------------------------------------------------------------
// The procedure

/// How far the search for a template has come.
#[derive(Debug)]
pub enum Stage {
    /// Acquire lock for template creation/access.
    Locking,
    /// Ensure template tracking table exists.
    EnsuringTable,
    /// Check if template already exists in tracking table.
    LookingUp,
    /// Template exists, update last_used_at.
    Touching { found: String },
    /// Create new template database.
    Creating,
    Connecting,
    /// Check if this is a fresh database or one left over from a previous run.
    Counting,
    /// Run migrations, because the database is fresh.
    Migrating,
    /// Clean up on failure.
    Abandoning { reason: String },
    Dropping { reason: String },
    GivingUpLock { reason: String },
    Closing,
    /// Register template.
    Registering,
    Releasing { name: String },
}

/// The model of a [`Stage`].
pub enum StageView {
    Locking,
    EnsuringTable,
    LookingUp,
    Touching { found: Text },
    Creating,
    Connecting,
    Counting,
    Migrating,
    Abandoning { reason: Text },
    Dropping { reason: Text },
    GivingUpLock { reason: Text },
    Closing,
    Registering,
    Releasing { name: Text },
}

impl View for Stage {
    type V = StageView;

    open spec fn view(&self) -> StageView {
        match self {
            Stage::Locking => StageView::Locking,
            Stage::EnsuringTable => StageView::EnsuringTable,
            Stage::LookingUp => StageView::LookingUp,
            Stage::Touching { found } => StageView::Touching { found: found@ },
            Stage::Creating => StageView::Creating,
            Stage::Connecting => StageView::Connecting,
            Stage::Counting => StageView::Counting,
            Stage::Migrating => StageView::Migrating,
            Stage::Abandoning { reason } => StageView::Abandoning { reason: reason@ },
            Stage::Dropping { reason } => StageView::Dropping { reason: reason@ },
            Stage::GivingUpLock { reason } => StageView::GivingUpLock { reason: reason@ },
            Stage::Closing => StageView::Closing,
            Stage::Registering => StageView::Registering,
            Stage::Releasing { name } => StageView::Releasing { name: name@ },
        }
    }
}

/// What the search for a template came to.
#[derive(Debug)]
pub struct TemplateReport {
    /// The name of the template database.
    pub result: Result<String, Error>,
    /// The guard of the template lock, where it was acquired.
    pub lock: Option<TemplateLockGuard>,
}

/// The model of a [`TemplateReport`].
pub struct TemplateReportView {
    pub result: Result<Text, ErrorView>,
    pub lock: Option<TemplateLockGuard>,
}

impl View for TemplateReport {
    type V = TemplateReportView;

    open spec fn view(&self) -> TemplateReportView {
        TemplateReportView { result: protocol::text_result(self.result), lock: self.lock }
    }
}

/// A search for a template in progress.
#[derive(Debug)]
pub struct TemplateRun {
    hash: String,
    tpl_name: String,
    stage: Stage,
}

/// The model of a [`TemplateRun`].
pub struct TemplateView {
    pub hash: Text,
    pub tpl_name: Text,
    pub stage: StageView,
}

impl View for TemplateRun {
    type V = TemplateView;

    closed spec fn view(&self) -> TemplateView {
        TemplateView { hash: self.hash@, tpl_name: self.tpl_name@, stage: self.stage@ }
    }
}

/// The search ends without a template; the lock, if it was acquired, was not released.
pub open spec fn search_failed(locked: bool, e: ErrorView) -> TurnView<
    TemplateView,
    TemplateReportView,
> {
    TurnView::Done(
        TemplateReportView {
            result: Err(e),
            lock: if locked {
                Some(TemplateLockGuard { released: false })
            } else {
                None
            },
        },
    )
}

/// The message for migrations that failed.
pub open spec fn migrations_failed(reason: Text) -> Text {
    "Failed to apply migrations to template: "@ + reason
}

impl TemplateView {
    /// The next command.
    pub open spec fn command(self) -> CommandView {
        match self.stage {
            StageView::Locking => TemplateLockGuard::acquiring(),
            StageView::EnsuringTable => protocol::execute(
                Session::Primary,
                sql::CREATE_TEMPLATES_TABLE@,
            ),
            StageView::LookingUp => protocol::fetch_with(
                Session::Primary,
                sql::FIND_TEMPLATE@,
                self.hash,
                Shape::MaybeName,
            ),
            StageView::Touching { found } => protocol::execute_with(
                Session::Primary,
                sql::TOUCH_TEMPLATE@,
                found,
            ),
            StageView::Creating => protocol::execute(
                Session::Primary,
                sql::create_template(self.tpl_name),
            ),
            StageView::Connecting => CommandView::Connect { database: Some(self.tpl_name) },
            StageView::Counting => protocol::fetch(
                Session::Secondary,
                sql::COUNT_MIGRATIONS@,
                Shape::Number,
            ),
            StageView::Migrating => CommandView::Migrate { hash: self.hash },
            StageView::Abandoning { reason } => CommandView::Close,
            StageView::Dropping { reason } => protocol::execute(
                Session::Primary,
                sql::drop_template(self.tpl_name),
            ),
            StageView::GivingUpLock { reason } => TemplateLockGuard::releasing(),
            StageView::Closing => CommandView::Close,
            StageView::Registering => CommandView::Execute {
                session: Session::Primary,
                sql: sql::REGISTER_TEMPLATE@,
                params: seq![self.tpl_name, self.hash],
            },
            StageView::Releasing { name } => TemplateLockGuard::releasing(),
        }
    }

    /// The search goes on with `stage`.
    pub open spec fn at(self, stage: StageView) -> TurnView<TemplateView, TemplateReportView> {
        TurnView::Ask(TemplateView { stage, ..self })
    }

    /// Where the search stands after `reply`.
    pub open spec fn next(self, reply: ReplyView) -> TurnView<TemplateView, TemplateReportView> {
        match (self.stage, reply) {
            // The check for migrations may fail: the table may not exist.
            (StageView::Counting, ReplyView::Failed(_)) => self.at(StageView::Migrating),
            (StageView::Counting, ReplyView::Number(n)) => self.at(
                if n == 0 {
                    StageView::Migrating
                } else {
                    StageView::Closing
                },
            ),
            // Failed migrations are cleaned up after, whatever comes of it.
            (StageView::Migrating, ReplyView::Failed(e)) => self.at(
                StageView::Abandoning { reason: e.message() },
            ),
            (StageView::Abandoning { reason }, _) => self.at(StageView::Dropping { reason }),
            (StageView::Dropping { reason }, _) => self.at(StageView::GivingUpLock { reason }),
            (StageView::GivingUpLock { reason }, _) => TurnView::Done(
                TemplateReportView {
                    result: Err(ErrorView::Protocol(migrations_failed(reason))),
                    lock: Some(TemplateLockGuard { released: true }),
                },
            ),
            // Any other failure ends the search.
            (StageView::Locking, ReplyView::Failed(e)) => search_failed(false, e),
            (_, ReplyView::Failed(e)) => search_failed(true, e),
            (StageView::Locking, ReplyView::MaybeNumber(n)) => if n == Some(1i64) {
                self.at(StageView::EnsuringTable)
            } else {
                search_failed(false, ErrorView::Protocol(lock_refused(n)))
            },
            (StageView::EnsuringTable, _) => self.at(StageView::LookingUp),
            (StageView::LookingUp, ReplyView::MaybeName(Some(found))) => self.at(
                StageView::Touching { found },
            ),
            (StageView::LookingUp, ReplyView::MaybeName(None)) => self.at(StageView::Creating),
            (StageView::Touching { found }, _) => self.at(StageView::Releasing { name: found }),
            (StageView::Creating, _) => self.at(StageView::Connecting),
            (StageView::Connecting, _) => self.at(StageView::Counting),
            (StageView::Migrating, _) => self.at(StageView::Closing),
            (StageView::Closing, _) => self.at(StageView::Registering),
            (StageView::Registering, _) => self.at(StageView::Releasing { name: self.tpl_name }),
            (StageView::Releasing { name }, _) => TurnView::Done(
                TemplateReportView {
                    result: Ok(name),
                    lock: Some(TemplateLockGuard { released: true }),
                },
            ),
            // Nothing else is an answer.
            _ => TurnView::Ask(self),
        }
    }
}

/// The start of the search for the template of `migrations`.
pub open spec fn search_for(migrations: Seq<MigrationView>) -> TemplateView {
    TemplateView {
        hash: migrate::hash_text(migrations),
        tpl_name: migrate::template_name(migrate::hash_text(migrations)),
        stage: StageView::Locking,
    }
}

/// Get or create a template database with migrations applied.
/// Returns the search for it, or None if templates are disabled.
pub fn get_or_create_template(enabled: bool, migrator: &Migrator) -> (r: Option<TemplateRun>)
    ensures
        r is Some == enabled,
        r matches Some(run) ==> run@ == search_for(migrator@),
        r matches Some(run) ==> run@.hash == migrate::hash_text(migrator@),
        r matches Some(run) ==> run@.tpl_name == migrate::template_name(
            migrate::hash_text(migrator@),
        ),
{
    if !enabled {
        return None;
    }
    let hash = migrations_hash(migrator);
    let tpl_name = template_db_name(hash.as_str());
    Some(TemplateRun { hash, tpl_name, stage: Stage::Locking })
}

fn failed(lock: Option<TemplateLockGuard>, e: Error) -> (r: Turn<TemplateRun, TemplateReport>)
    ensures
        r@ == TurnView::<TemplateView, TemplateReportView>::Done(
            TemplateReportView { result: Err(e@), lock },
        ),
{
    Turn::Done(TemplateReport { result: Err(e), lock })
}

impl TemplateRun {
    /// The next command.
    pub fn command(&self) -> (r: Command)
        ensures
            r@ == self@.command(),
    {
        match &self.stage {
            Stage::Locking => TemplateLockGuard::acquire_command(),
            Stage::EnsuringTable => execute_command(
                Session::Primary,
                String::from_str(sql::CREATE_TEMPLATES_TABLE),
            ),
            Stage::LookingUp => fetch_with_command(
                Session::Primary,
                sql::FIND_TEMPLATE,
                self.hash.as_str(),
                Shape::MaybeName,
            ),
            Stage::Touching { found } => execute_with_command(
                Session::Primary,
                sql::TOUCH_TEMPLATE,
                found.as_str(),
            ),
            Stage::Creating => execute_command(
                Session::Primary,
                sql::create_template_sql(self.tpl_name.as_str()),
            ),
            Stage::Connecting => Command::Connect { database: Some(self.tpl_name.clone()) },
            Stage::Counting => fetch_command(
                Session::Secondary,
                String::from_str(sql::COUNT_MIGRATIONS),
                Shape::Number,
            ),
            Stage::Migrating => Command::Migrate { hash: self.hash.clone() },
            Stage::Abandoning { reason: _ } => Command::Close,
            Stage::Dropping { reason: _ } => execute_command(
                Session::Primary,
                sql::drop_template_sql(self.tpl_name.as_str()),
            ),
            Stage::GivingUpLock { reason: _ } => TemplateLockGuard::release_command(),
            Stage::Closing => Command::Close,
            Stage::Registering => {
                let mut params: Vec<String> = Vec::new();
                params.push(self.tpl_name.clone());
                params.push(self.hash.clone());
                assert(text::texts(params@) =~= seq![self.tpl_name@, self.hash@]);
                Command::Execute {
                    session: Session::Primary,
                    sql: String::from_str(sql::REGISTER_TEMPLATE),
                    params,
                }
            },
            Stage::Releasing { name: _ } => TemplateLockGuard::release_command(),
        }
    }

    /// Whether the search can go on from `reply`.
    pub fn admits(&self, reply: &Reply) -> (r: bool)
        ensures
            r == self@.command().answered_by(reply@),
    {
        self.command().answered_by(reply)
    }

    /// Goes on from the reply to the last command.
    pub fn resume(self, reply: Reply) -> (r: Turn<TemplateRun, TemplateReport>)
        requires
            self@.command().answered_by(reply@),
        ensures
            r@ == self@.next(reply@),
    {
        let TemplateRun { hash, tpl_name, stage } = self;
        // Held from the moment the server grants it.
        let guard = TemplateLockGuard { released: false };
        let stage = match (stage, reply) {
            // Try to count migrations - if the table doesn't exist or is empty, we need to run
            // migrations
            (Stage::Counting, Reply::Failed(_)) => Stage::Migrating,
            (Stage::Counting, Reply::Number(n)) => if n == 0 {
                Stage::Migrating
            } else {
                Stage::Closing
            },
            (Stage::Migrating, Reply::Failed(e)) => Stage::Abandoning {
                reason: String::from_str(e.message()),
            },
            (Stage::Abandoning { reason }, _) => Stage::Dropping { reason },
            (Stage::Dropping { reason }, _) => Stage::GivingUpLock { reason },
            (Stage::GivingUpLock { reason }, _) => {
                let message = String::from_str("Failed to apply migrations to template: ").concat(
                    reason.as_str(),
                );
                return failed(Some(guard.release_ignore_errors()), Error::Protocol(message));
            },
            (Stage::Locking, Reply::Failed(e)) => {
                return failed(None, e);
            },
            (Stage::Releasing { name }, reply) => {
                let (guard, error) = guard.release(reply);
                return match error {
                    Some(e) => failed(Some(guard), e),
                    None => Turn::Done(TemplateReport { result: Ok(name), lock: Some(guard) }),
                };
            },
            (_, Reply::Failed(e)) => {
                return failed(Some(guard), e);
            },
            (Stage::Locking, Reply::MaybeNumber(n)) => match TemplateLockGuard::acquire(n) {
                Ok(_) => Stage::EnsuringTable,
                Err(e) => {
                    return failed(None, e);
                },
            },
            (Stage::EnsuringTable, _) => Stage::LookingUp,
            (Stage::LookingUp, Reply::MaybeName(Some(found))) => Stage::Touching { found },
            (Stage::LookingUp, Reply::MaybeName(None)) => Stage::Creating,
            (Stage::Touching { found }, _) => Stage::Releasing { name: found },
            (Stage::Creating, _) => Stage::Connecting,
            (Stage::Connecting, _) => Stage::Counting,
            (Stage::Migrating, _) => Stage::Closing,
            (Stage::Closing, _) => Stage::Registering,
            (Stage::Registering, _) => Stage::Releasing { name: tpl_name.clone() },
            (stage, _) => stage,
        };
        Turn::Ask(TemplateRun { hash, tpl_name, stage })
    }
}

// ---------------------------------------------------------------------------
// What holds of a search as a whole

/// Where a search stands after it asked for each command of `script` in turn and got the reply
/// beside it; `None` where it asks for something else, or the reply is no answer.
pub open spec fn played(
    turn: TurnView<TemplateView, TemplateReportView>,
    script: Seq<Exchange>,
) -> Option<TurnView<TemplateView, TemplateReportView>>
    decreases script.len(),
{
    if script.len() == 0 {
        Some(turn)
    } else {
        match turn {
            TurnView::Ask(run) => if run.command() == script[0].command
                && run.command().answered_by(script[0].reply) {
                played(run.next(script[0].reply), script.skip(1))
            } else {
                None
            },
            _ => None,
        }
    }
}

/// A statement that runs over the primary connection.
pub open spec fn ran(sql: Text) -> Exchange {
    Exchange { command: protocol::execute(Session::Primary, sql), reply: ReplyView::Done }
}

/// How every search starts that gets the lock: up to whether a template is on record.
pub open spec fn lookup_script(hash: Text, on_record: Option<Text>) -> Seq<Exchange> {
    seq![
        Exchange {
            command: TemplateLockGuard::acquiring(),
            reply: ReplyView::MaybeNumber(Some(1)),
        },
        ran(sql::CREATE_TEMPLATES_TABLE@),
        Exchange {
            command: protocol::fetch_with(
                Session::Primary,
                sql::FIND_TEMPLATE@,
                hash,
                Shape::MaybeName,
            ),
            reply: ReplyView::MaybeName(on_record),
        },
    ]
}

/// How a search without a template on record goes on, up to the number of migrations that the
/// template's database holds.
pub open spec fn creation_script(name: Text, migrations: ReplyView) -> Seq<Exchange> {
    seq![
        ran(sql::create_template(name)),
        Exchange {
            command: CommandView::Connect { database: Some(name) },
            reply: ReplyView::Done,
        },
        Exchange {
            command: protocol::fetch(Session::Secondary, sql::COUNT_MIGRATIONS@, Shape::Number),
            reply: migrations,
        },
    ]
}

/// How a search ends that made a template.
pub open spec fn registration_script(name: Text, hash: Text) -> Seq<Exchange> {
    seq![
        Exchange { command: CommandView::Close, reply: ReplyView::Done },
        Exchange {
            command: CommandView::Execute {
                session: Session::Primary,
                sql: sql::REGISTER_TEMPLATE@,
                params: seq![name, hash],
            },
            reply: ReplyView::Done,
        },
        Exchange { command: TemplateLockGuard::releasing(), reply: ReplyView::Done },
    ]
}

/// How a search goes that finds the template `found` on record: its use is noted.
pub open spec fn reuse_script(hash: Text, found: Text) -> Seq<Exchange> {
    lookup_script(hash, Some(found)) + seq![
        Exchange {
            command: protocol::execute_with(Session::Primary, sql::TOUCH_TEMPLATE@, found),
            reply: ReplyView::Done,
        },
        Exchange { command: TemplateLockGuard::releasing(), reply: ReplyView::Done },
    ]
}

/// How a search goes that makes the template: its database is created if it is missing, gets
/// the migrations where it holds none, and is registered under the hash of the migrations.
pub open spec fn making_script(hash: Text, name: Text, migrations: ReplyView) -> Seq<Exchange> {
    lookup_script(hash, None) + (creation_script(name, migrations) + (seq![
        Exchange { command: CommandView::Migrate { hash }, reply: ReplyView::Done },
    ] + registration_script(name, hash)))
}

/// The template `name` is there, and the lock was released.
pub open spec fn template_ready(name: Text) -> Option<TurnView<TemplateView, TemplateReportView>> {
    Some(
        TurnView::Done(
            TemplateReportView {
                result: Ok(name),
                lock: Some(TemplateLockGuard { released: true }),
            },
        ),
    )
}

/// The first exchange of a script.
proof fn lemma_played(run: TemplateView, x: Exchange, tail: Seq<Exchange>)
    requires
        run.command() == x.command,
        run.command().answered_by(x.reply),
    ensures
        played(TurnView::Ask(run), seq![x] + tail) == played(run.next(x.reply), tail),
{
    assert((seq![x] + tail).skip(1) =~= tail);
}

/// Up to whether a template is on record.
proof fn lemma_lookup(run: TemplateView, on_record: Option<Text>, tail: Seq<Exchange>)
    requires
        run.stage is Locking,
    ensures
        played(TurnView::Ask(run), lookup_script(run.hash, on_record) + tail) == played(
            run.at(
                match on_record {
                    Some(found) => StageView::Touching { found },
                    None => StageView::Creating,
                },
            ),
            tail,
        ),
{
    let s = lookup_script(run.hash, on_record);
    assert(s + tail =~= seq![s[0]] + (seq![s[1]] + (seq![s[2]] + tail)));
    let at1 = TemplateView { stage: StageView::EnsuringTable, ..run };
    let at2 = TemplateView { stage: StageView::LookingUp, ..run };
    lemma_played(run, s[0], seq![s[1]] + (seq![s[2]] + tail));
    lemma_played(at1, s[1], seq![s[2]] + tail);
    lemma_played(at2, s[2], tail);
}

/// Up to the number of migrations.
proof fn lemma_creation(run: TemplateView, migrations: ReplyView, tail: Seq<Exchange>)
    requires
        run.stage is Creating,
        migrations is Failed || migrations is Number,
    ensures
        played(TurnView::Ask(run), creation_script(run.tpl_name, migrations) + tail) == played(
            TemplateView { stage: StageView::Counting, ..run }.next(migrations),
            tail,
        ),
{
    let s = creation_script(run.tpl_name, migrations);
    assert(s + tail =~= seq![s[0]] + (seq![s[1]] + (seq![s[2]] + tail)));
    let at1 = TemplateView { stage: StageView::Connecting, ..run };
    let at2 = TemplateView { stage: StageView::Counting, ..run };
    lemma_played(run, s[0], seq![s[1]] + (seq![s[2]] + tail));
    lemma_played(at1, s[1], seq![s[2]] + tail);
    lemma_played(at2, s[2], tail);
}

/// From the closing of the template's database to the end.
proof fn lemma_registration(run: TemplateView)
    requires
        run.stage is Closing,
    ensures
        played(TurnView::Ask(run), registration_script(run.tpl_name, run.hash)) == template_ready(
            run.tpl_name,
        ),
{
    let s = registration_script(run.tpl_name, run.hash);
    let end = Seq::<Exchange>::empty();
    assert(s =~= seq![s[0]] + (seq![s[1]] + (seq![s[2]] + end)));
    let at1 = TemplateView { stage: StageView::Registering, ..run };
    let at2 = TemplateView { stage: StageView::Releasing { name: run.tpl_name }, ..run };
    lemma_played(run, s[0], seq![s[1]] + (seq![s[2]] + end));
    lemma_played(at1, s[1], seq![s[2]] + end);
    lemma_played(at2, s[2], end);
}

/// A template that is on record for the same migrations is used again: its use is noted, the
/// lock is released, and no database is created or migrated.
pub proof fn law_template_is_reused(run: TemplateView, found: Text)
    requires
        run.stage is Locking,
    ensures
        played(TurnView::Ask(run), reuse_script(run.hash, found)) == template_ready(found),
{
    let x = Exchange {
        command: protocol::execute_with(Session::Primary, sql::TOUCH_TEMPLATE@, found),
        reply: ReplyView::Done,
    };
    let y = Exchange { command: TemplateLockGuard::releasing(), reply: ReplyView::Done };
    let end = Seq::<Exchange>::empty();
    lemma_lookup(run, Some(found), seq![x, y]);
    assert(seq![x, y] =~= seq![x] + (seq![y] + end));
    let at1 = TemplateView { stage: StageView::Touching { found }, ..run };
    let at2 = TemplateView { stage: StageView::Releasing { name: found }, ..run };
    lemma_played(at1, x, seq![y] + end);
    lemma_played(at2, y, end);
}

/// Without a template on record one is made: its database is created if it is missing, gets
/// the migrations where it holds none, is registered under the hash of the migrations, and
/// the lock is released.
pub proof fn law_template_is_made(run: TemplateView, migrations: ReplyView)
    requires
        run.stage is Locking,
        migrations is Failed || migrations == ReplyView::Number(0),
    ensures
        played(
            TurnView::Ask(run),
            making_script(run.hash, run.tpl_name, migrations),
        ) == template_ready(run.tpl_name),
{
    let x = Exchange {
        command: CommandView::Migrate { hash: run.hash },
        reply: ReplyView::Done,
    };
    let tail = seq![x] + registration_script(run.tpl_name, run.hash);
    lemma_lookup(run, None, creation_script(run.tpl_name, migrations) + tail);
    lemma_creation(TemplateView { stage: StageView::Creating, ..run }, migrations, tail);
    let at = TemplateView { stage: StageView::Migrating, ..run };
    lemma_played(at, x, registration_script(run.tpl_name, run.hash));
    lemma_registration(TemplateView { stage: StageView::Closing, ..run });
}

/// Tests with the same migrations share a template: one search applies the migrations to it and
/// registers it under their hash, which is what the next search for the same migrations looks up, and it uses that again.
pub proof fn law_same_migrations_share_a_template(
    migrations: Seq<MigrationView>,
    counted: ReplyView,
)
    requires
        counted is Failed || counted == ReplyView::Number(0),
    ensures
        ({
            let search = search_for(migrations);
            let made = making_script(search.hash, search.tpl_name, counted);
            let reused = reuse_script(search.hash, search.tpl_name);
            &&& played(TurnView::Ask(search), made) == template_ready(search.tpl_name)
            &&& made[6].command == (CommandView::Migrate { hash: migrate::hash_text(migrations) })
            &&& made[made.len() - 2].command == (CommandView::Execute {
                session: Session::Primary,
                sql: sql::REGISTER_TEMPLATE@,
                params: seq![search.tpl_name, search.hash],
            })
            &&& reused[2].command == protocol::fetch_with(
                Session::Primary,
                sql::FIND_TEMPLATE@,
                search.hash,
                Shape::MaybeName,
            )
            &&& played(TurnView::Ask(search), reused) == template_ready(search.tpl_name)
        }),
{
    let search = search_for(migrations);
    law_template_is_made(search, counted);
    law_template_is_reused(search, search.tpl_name);
}

/// A database left over from an earlier run that holds migrations is registered as it is: the
/// migrations are not applied again.
pub proof fn law_leftover_is_registered(run: TemplateView, count: i64)
    requires
        run.stage is Locking,
        count != 0,
    ensures
        played(
            TurnView::Ask(run),
            lookup_script(run.hash, None) + (creation_script(
                run.tpl_name,
                ReplyView::Number(count),
            ) + registration_script(run.tpl_name, run.hash)),
        ) == template_ready(run.tpl_name),
{
    let tail = registration_script(run.tpl_name, run.hash);
    let migrations = ReplyView::Number(count);
    lemma_lookup(run, None, creation_script(run.tpl_name, migrations) + tail);
    lemma_creation(TemplateView { stage: StageView::Creating, ..run }, migrations, tail);
    lemma_registration(TemplateView { stage: StageView::Closing, ..run });
}

/// Migrations that fail leave nothing behind: the template's database is closed and dropped and
/// the lock is released, whatever comes of each, nothing is registered, and the error tells
/// the reason.
pub proof fn law_failed_migrations_are_cleaned_up(
    run: TemplateView,
    e: ErrorView,
    closed: ReplyView,
    dropped: ReplyView,
    released: ReplyView,
)
    requires
        run.stage is Migrating,
        closed is Done || closed is Failed,
        dropped is Done || dropped is Failed,
        released is Done || released is Failed,
    ensures
        played(
            TurnView::Ask(run),
            seq![
                Exchange {
                    command: CommandView::Migrate { hash: run.hash },
                    reply: ReplyView::Failed(e),
                },
                Exchange { command: CommandView::Close, reply: closed },
                Exchange {
                    command: protocol::execute(
                        Session::Primary,
                        sql::drop_template(run.tpl_name),
                    ),
                    reply: dropped,
                },
                Exchange { command: TemplateLockGuard::releasing(), reply: released },
            ],
        ) == Some(
            TurnView::<TemplateView, TemplateReportView>::Done(
                TemplateReportView {
                    result: Err(ErrorView::Protocol(migrations_failed(e.message()))),
                    lock: Some(TemplateLockGuard { released: true }),
                },
            ),
        ),
{
    let x = Exchange {
        command: CommandView::Migrate { hash: run.hash },
        reply: ReplyView::Failed(e),
    };
    let y = Exchange { command: CommandView::Close, reply: closed };
    let z = Exchange {
        command: protocol::execute(Session::Primary, sql::drop_template(run.tpl_name)),
        reply: dropped,
    };
    let w = Exchange { command: TemplateLockGuard::releasing(), reply: released };
    let end = Seq::<Exchange>::empty();
    assert(seq![x, y, z, w] =~= seq![x] + (seq![y] + (seq![z] + (seq![w] + end))));
    let reason = e.message();
    lemma_played(run, x, seq![y] + (seq![z] + (seq![w] + end)));
    lemma_played(
        TemplateView { stage: StageView::Abandoning { reason }, ..run },
        y,
        seq![z] + (seq![w] + end),
    );
    lemma_played(
        TemplateView { stage: StageView::Dropping { reason }, ..run },
        z,
        seq![w] + end,
    );
    lemma_played(TemplateView { stage: StageView::GivingUpLock { reason }, ..run }, w, end);
}

/// A search never fails outright and never yields a template while it keeps the lock: with a
/// name it reports a lock that was released, and without having got the lock it reports none.
pub proof fn law_template_comes_with_lock_released(run: TemplateView, reply: ReplyView)
    requires
        run.command().answered_by(reply),
    ensures
        !(run.next(reply) is Fail),
        run.next(reply) matches TurnView::Done(report) ==> {
            &&& report.result is Ok ==> report.lock == Some(TemplateLockGuard { released: true })
            &&& report.lock is None <==> run.stage is Locking
        },
{
}

/// Only a database that holds the migrations is registered: the search comes to register one
/// through closing it, and to close it where it found migrations in it or has just applied
/// them.
pub proof fn law_only_migrated_templates_are_registered(run: TemplateView, reply: ReplyView)
    requires
        run.command().answered_by(reply),
        run.next(reply) is Ask,
    ensures
        run.next(reply)->Ask_0.stage is Registering ==> run.stage is Closing && reply is Done,
        run.next(reply)->Ask_0.stage is Closing ==> (run.stage is Migrating && reply is Done) || (
        run.stage is Counting && reply is Number && reply->Number_0 != 0),
{
}

/// A template is named after the migrations that are applied to it: from start to end the search
/// keeps to one hash, its template bears the name of that hash, and no migrations are applied
/// to the template but those with that hash.
pub proof fn law_template_is_named_after_its_migrations(run: TemplateView, reply: ReplyView)
    requires
        run.command().answered_by(reply),
        run.tpl_name == migrate::template_name(run.hash),
    ensures
        run.command() matches CommandView::Migrate { hash } ==> hash == run.hash,
        run.next(reply) matches TurnView::Ask(next) ==> {
            &&& next.hash == run.hash
            &&& next.tpl_name == migrate::template_name(next.hash)
        },
{
}

/// A search starts with the template of its own migrations: the hash it looks for is the base64
/// of the first 16 bytes of the SHA-256 digest of all their bytes, and the template it may make
/// bears the name of that hash.
pub proof fn law_search_starts_with_its_own_template(migrations: Seq<MigrationView>)
    ensures
        search_for(migrations).stage is Locking,
        search_for(migrations).hash == digest::base64_url_no_pad(
            digest::sha256(migrate::hash_input(migrations)).take(16),
        ),
        search_for(migrations).tpl_name == migrate::template_name(search_for(migrations).hash),
        search_for(migrations).tpl_name == migrate::template_name(migrate::hash_text(migrations)),
{
}

/// Different migrations have different templates: two searches that would make a template of the
/// same name look for hashes that differ in nothing but which of `-`, `+`, `/` and `_` they hold.
pub proof fn law_different_searches_have_different_templates(
    a: Seq<MigrationView>,
    b: Seq<MigrationView>,
)
    requires
        search_for(a).tpl_name == search_for(b).tpl_name,
        migrate::hash_text(a).len() <= 47,
        migrate::hash_text(b).len() <= 47,
    ensures
        ({
            let x = migrate::hash_text(a);
            let y = migrate::hash_text(b);
            &&& x.len() == y.len()
            &&& forall|i: int|
                0 <= i < x.len() ==> (#[trigger] x[i]) == y[i] || ((x[i] == '-' || x[i] == '+'
                    || x[i] == '/' || x[i] == '_') && (y[i] == '-' || y[i] == '+' || y[i] == '/'
                    || y[i] == '_'))
        }),
{
    migrate::law_different_hashes_name_different_templates(
        migrate::hash_text(a),
        migrate::hash_text(b),
    );
}

/// The template lock is asked for by its name, with a timeout of 300 seconds, and released by its
/// name.
pub proof fn law_lock_commands()
    ensures
        TemplateLockGuard::acquiring() == (CommandView::Fetch {
            session: Session::Primary,
            sql: "SELECT GET_LOCK(?, 300)"@,
            params: seq!["sqlx_template_lock"@],
            shape: Shape::MaybeNumber,
        }),
        TemplateLockGuard::releasing() == (CommandView::Execute {
            session: Session::Primary,
            sql: "SELECT RELEASE_LOCK(?)"@,
            params: seq!["sqlx_template_lock"@],
        }),
{
}

/// Only the answer 1 is the lock: with it the search goes on with the table of templates, and
/// with any other answer it ends with an error that shows the answer, and without a lock.
pub proof fn law_lock_decides(run: TemplateView, answer: Option<i64>)
    requires
        run.stage is Locking,
    ensures
        answer == Some(1i64) ==> run.next(ReplyView::MaybeNumber(answer)) == TurnView::<
            TemplateView,
            TemplateReportView,
        >::Ask(TemplateView { stage: StageView::EnsuringTable, ..run }),
        answer != Some(1i64) ==> run.next(ReplyView::MaybeNumber(answer)) == TurnView::<
            TemplateView,
            TemplateReportView,
        >::Done(
            TemplateReportView {
                result: Err(
                    ErrorView::Protocol(
                        "Failed to acquire template lock, GET_LOCK returned: "@ + match answer {
                            Some(n) => "Some("@ + text::signed_decimal(n as int) + ")"@,
                            None => "None"@,
                        },
                    ),
                ),
                lock: None,
            },
        ),
{
}

/// A failure ends the search with the error that the server gave, and leaves the lock as it is:
/// not acquired while it is asked for, and not released later. The exceptions are the count of
/// the migrations, migrations that fail, and the cleanup after them.
pub proof fn law_failure_ends_the_search(run: TemplateView, e: ErrorView)
    requires
        !(run.stage is Counting || run.stage is Migrating || run.stage is Abandoning
            || run.stage is Dropping || run.stage is GivingUpLock),
    ensures
        run.next(ReplyView::Failed(e)) == TurnView::<TemplateView, TemplateReportView>::Done(
            TemplateReportView {
                result: Err(e),
                lock: if run.stage is Locking {
                    None
                } else {
                    Some(TemplateLockGuard { released: false })
                },
            },
        ),
{
}

/// The error of a search whose migrations failed tells why they failed.
pub proof fn law_failed_migrations_are_told(reason: Text, n: Option<i64>)
    ensures
        migrations_failed(reason) == "Failed to apply migrations to template: "@ + reason,
        lock_refused(n) == "Failed to acquire template lock, GET_LOCK returned: "@ + match n {
            Some(n) => "Some("@ + text::signed_decimal(n as int) + ")"@,
            None => "None"@,
        },
{
}

/// What a search came to is seen whole.
pub proof fn law_report_is_seen_whole(report: TemplateReport)
    ensures
        report@.lock == report.lock,
        match report.result {
            Ok(name) => report@.result == Ok::<Text, ErrorView>(name@),
            Err(e) => report@.result == Err::<Text, ErrorView>(e@),
        },
{
}

} // verus!
