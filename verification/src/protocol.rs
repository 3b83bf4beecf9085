//! What a procedure asks of the database server and what it is told.
//!
//! A procedure never talks to the server itself. It is a value that names the next
//! [`Command`], and that is turned into the next such value by the [`Reply`] to it.

use crate::sql::{ForeignKey, ForeignKeyView};
use crate::text::{self, Text};
use vstd::prelude::*;

verus! {

/// Why a command did not succeed.
#[derive(Debug, PartialEq, Eq)]
pub enum Error {
    /// The server refused the command: its error number and the message.
    Database { number: u16, message: String },
    /// The server answered with something that makes no sense.
    Protocol(String),
    /// Anything else, such as a lost connection.
    Other(String),
}

/// The model of an [`Error`].
pub enum ErrorView {
    Database { number: u16, message: Text },
    Protocol(Text),
    Other(Text),
}

impl View for Error {
    type V = ErrorView;

    open spec fn view(&self) -> ErrorView {
        match self {
            Error::Database { number, message } => ErrorView::Database {
                number: *number,
                message: message@,
            },
            Error::Protocol(message) => ErrorView::Protocol(message@),
            Error::Other(message) => ErrorView::Other(message@),
        }
    }
}

impl ErrorView {
    /// What the error says.
    pub open spec fn message(self) -> Text {
        match self {
            ErrorView::Database { number, message } => message,
            ErrorView::Protocol(message) => message,
            ErrorView::Other(message) => message,
        }
    }
}

impl Error {
    /// What the error says.
    pub fn message(&self) -> (r: &str)
        ensures
            r@ == self@.message(),
    {
        match self {
            Error::Database { number: _, message } => message.as_str(),
            Error::Protocol(message) => message.as_str(),
            Error::Other(message) => message.as_str(),
        }
    }
}

/// The connection that a statement goes over.
#[derive(Clone, Copy, Debug, PartialEq, Eq, Structural)]
pub enum Session {
    /// The connection that was taken from the master pool.
    Primary,
    /// The connection that was opened last with [`Command::Connect`].
    Secondary,
}

/// What the rows of a query are read as.
#[derive(Clone, Copy, Debug, PartialEq, Eq, Structural)]
pub enum Shape {
    /// Any number of rows of one text.
    Names,
    /// Any number of rows of two texts.
    Pairs,
    /// Any number of rows that describe a foreign key.
    ForeignKeys,
    /// Any number of rows of one number.
    Ids,
    /// One row of that many texts.
    Row { columns: usize },
    /// No row, or a row of one text.
    MaybeName,
    /// One row of a number that may be null.
    MaybeNumber,
    /// One row of a number.
    Number,
}

/// The next thing to do at the server.
#[derive(Debug, PartialEq, Eq)]
pub enum Command {
    /// Take a connection from the master pool: the primary one.
    Acquire,
    /// Open the secondary connection, to `database`, or to the one that the configured URL
    /// names.
    Connect { database: Option<String> },
    /// Close the secondary connection.
    Close,
    /// Run a statement.
    Execute { session: Session, sql: String, params: Vec<String> },
    /// Run a query and read its rows.
    Fetch { session: Session, sql: String, params: Vec<String>, shape: Shape },
    /// Apply the test's migrations, whose hash is `hash`, over the secondary connection.
    Migrate { hash: String },
}

/// The model of a [`Command`].
pub enum CommandView {
    Acquire,
    Connect { database: Option<Text> },
    Close,
    Execute { session: Session, sql: Text, params: Seq<Text> },
    Fetch { session: Session, sql: Text, params: Seq<Text>, shape: Shape },
    Migrate { hash: Text },
}

/// The text that an optional string holds.
pub open spec fn maybe_text(s: Option<String>) -> Option<Text> {
    match s {
        Some(s) => Some(s@),
        None => None,
    }
}

impl View for Command {
    type V = CommandView;

    open spec fn view(&self) -> CommandView {
        match self {
            Command::Acquire => CommandView::Acquire,
            Command::Connect { database } => CommandView::Connect {
                database: maybe_text(*database),
            },
            Command::Close => CommandView::Close,
            Command::Execute { session, sql, params } => CommandView::Execute {
                session: *session,
                sql: sql@,
                params: text::texts(params@),
            },
            Command::Fetch { session, sql, params, shape } => CommandView::Fetch {
                session: *session,
                sql: sql@,
                params: text::texts(params@),
                shape: *shape,
            },
            Command::Migrate { hash } => CommandView::Migrate { hash: hash@ },
        }
    }
}

/// What came of a command.
#[derive(Debug, PartialEq, Eq)]
pub enum Reply {
    /// The command succeeded and reads no rows.
    Done,
    Names(Vec<String>),
    Pairs(Vec<(String, String)>),
    ForeignKeys(Vec<ForeignKey>),
    Ids(Vec<u64>),
    Row(Vec<String>),
    MaybeName(Option<String>),
    MaybeNumber(Option<i64>),
    Number(i64),
    /// The command failed.
    Failed(Error),
}

/// The model of a [`Reply`].
pub enum ReplyView {
    Done,
    Names(Seq<Text>),
    Pairs(Seq<(Text, Text)>),
    ForeignKeys(Seq<ForeignKeyView>),
    Ids(Seq<u64>),
    Row(Seq<Text>),
    MaybeName(Option<Text>),
    MaybeNumber(Option<i64>),
    Number(i64),
    Failed(ErrorView),
}

/// The texts that a sequence of string pairs holds.
pub open spec fn text_pairs(v: Seq<(String, String)>) -> Seq<(Text, Text)> {
    v.map_values(|p: (String, String)| (p.0@, p.1@))
}

/// The models of a sequence of foreign keys.
pub open spec fn key_views(v: Seq<ForeignKey>) -> Seq<ForeignKeyView> {
    v.map_values(|k: ForeignKey| k@)
}

impl View for Reply {
    type V = ReplyView;

    open spec fn view(&self) -> ReplyView {
        match self {
            Reply::Done => ReplyView::Done,
            Reply::Names(v) => ReplyView::Names(text::texts(v@)),
            Reply::Pairs(v) => ReplyView::Pairs(text_pairs(v@)),
            Reply::ForeignKeys(v) => ReplyView::ForeignKeys(key_views(v@)),
            Reply::Ids(v) => ReplyView::Ids(v@),
            Reply::Row(v) => ReplyView::Row(text::texts(v@)),
            Reply::MaybeName(n) => ReplyView::MaybeName(maybe_text(*n)),
            Reply::MaybeNumber(n) => ReplyView::MaybeNumber(*n),
            Reply::Number(n) => ReplyView::Number(*n),
            Reply::Failed(e) => ReplyView::Failed(e@),
        }
    }
}

impl ReplyView {
    /// Whether the reply holds rows of that shape.
    pub open spec fn has_shape(self, shape: Shape) -> bool {
        match shape {
            Shape::Names => self is Names,
            Shape::Pairs => self is Pairs,
            Shape::ForeignKeys => self is ForeignKeys,
            Shape::Ids => self is Ids,
            Shape::Row { columns } => self matches ReplyView::Row(row) && row.len() == columns,
            Shape::MaybeName => self is MaybeName,
            Shape::MaybeNumber => self is MaybeNumber,
            Shape::Number => self is Number,
        }
    }
}

impl CommandView {
    /// Whether `reply` can be what comes of the command: a failure, or a success of the kind
    /// that the command asks for.
    pub open spec fn answered_by(self, reply: ReplyView) -> bool {
        reply is Failed || match self {
            CommandView::Fetch { session, sql, params, shape } => reply.has_shape(shape),
            _ => reply is Done,
        }
    }
}

impl Reply {
    /// Whether the reply holds rows of that shape.
    pub fn fits(&self, shape: Shape) -> (r: bool)
        ensures
            r == self@.has_shape(shape),
    {
        match (shape, self) {
            (Shape::Names, Reply::Names(_)) => true,
            (Shape::Pairs, Reply::Pairs(_)) => true,
            (Shape::ForeignKeys, Reply::ForeignKeys(_)) => true,
            (Shape::Ids, Reply::Ids(_)) => true,
            (Shape::Row { columns }, Reply::Row(row)) => row.len() == columns,
            (Shape::MaybeName, Reply::MaybeName(_)) => true,
            (Shape::MaybeNumber, Reply::MaybeNumber(_)) => true,
            (Shape::Number, Reply::Number(_)) => true,
            _ => false,
        }
    }
}

impl Command {
    /// Whether `reply` can be what comes of the command.
    pub fn answered_by(&self, reply: &Reply) -> (r: bool)
        ensures
            r == self@.answered_by(reply@),
    {
        match (self, reply) {
            (_, Reply::Failed(_)) => true,
            (Command::Fetch { session: _, sql: _, params: _, shape }, _) => reply.fits(*shape),
            (_, Reply::Done) => true,
            _ => false,
        }
    }
}

/// A command and what came of it.
pub struct Exchange {
    pub command: CommandView,
    pub reply: ReplyView,
}

/// Where a procedure stands after a reply: it asks for more, it is done, or it has failed.
#[derive(Debug)]
pub enum Turn<M, T> {
    Ask(M),
    Done(T),
    Fail(Error),
}

/// The model of a [`Turn`].
pub enum TurnView<M, T> {
    Ask(M),
    Done(T),
    Fail(ErrorView),
}

impl<M: View, T: View> View for Turn<M, T> {
    type V = TurnView<M::V, T::V>;

    open spec fn view(&self) -> TurnView<M::V, T::V> {
        match self {
            Turn::Ask(m) => TurnView::Ask(m@),
            Turn::Done(t) => TurnView::Done(t@),
            Turn::Fail(e) => TurnView::Fail(e@),
        }
    }
}

/// What a result holds: a text or an error.
pub open spec fn text_result(r: Result<String, Error>) -> Result<Text, ErrorView> {
    match r {
        Ok(s) => Ok(s@),
        Err(e) => Err(e@),
    }
}

// ---------------------------------------------------------------------------
// Commands without rows or with few parameters

/// The command that runs `sql` without parameters.
pub open spec fn execute(session: Session, sql: Text) -> CommandView {
    CommandView::Execute { session, sql, params: Seq::empty() }
}

pub fn execute_command(session: Session, sql: String) -> (r: Command)
    ensures
        r@ == execute(session, sql@),
{
    let params: Vec<String> = Vec::new();
    assert(text::texts(params@) =~= Seq::empty());
    Command::Execute { session, sql, params }
}

/// The command that runs `sql` with one parameter.
pub open spec fn execute_with(session: Session, sql: Text, param: Text) -> CommandView {
    CommandView::Execute { session, sql, params: seq![param] }
}

pub fn execute_with_command(session: Session, sql: &str, param: &str) -> (r: Command)
    ensures
        r@ == execute_with(session, sql@, param@),
{
    let mut params: Vec<String> = Vec::new();
    params.push(String::from_str(param));
    assert(text::texts(params@) =~= seq![param@]);
    Command::Execute { session, sql: String::from_str(sql), params }
}

/// The command that reads rows with `sql` and no parameter.
pub open spec fn fetch(session: Session, sql: Text, shape: Shape) -> CommandView {
    CommandView::Fetch { session, sql, params: Seq::empty(), shape }
}

pub fn fetch_command(session: Session, sql: String, shape: Shape) -> (r: Command)
    ensures
        r@ == fetch(session, sql@, shape),
{
    let params: Vec<String> = Vec::new();
    assert(text::texts(params@) =~= Seq::empty());
    Command::Fetch { session, sql, params, shape }
}

/// The command that reads rows with `sql` and one parameter.
pub open spec fn fetch_with(session: Session, sql: Text, param: Text, shape: Shape) -> CommandView {
    CommandView::Fetch { session, sql, params: seq![param], shape }
}

pub fn fetch_with_command(session: Session, sql: &str, param: &str, shape: Shape) -> (r: Command)
    ensures
        r@ == fetch_with(session, sql@, param@, shape),
{
    let mut params: Vec<String> = Vec::new();
    params.push(String::from_str(param));
    assert(text::texts(params@) =~= seq![param@]);
    Command::Fetch { session, sql: String::from_str(sql), params, shape }
}

} // verus!
