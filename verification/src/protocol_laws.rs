//! What commands and replies say, part by part.

use crate::protocol::{
    self, Command, CommandView, Error, ErrorView, Reply, ReplyView, Session, Shape, Turn,
    TurnView,
};
use crate::sql::ForeignKey;
use crate::text::Text;
use vstd::prelude::*;

verus! {

/// A command is seen whole: nothing that goes to the server is left out of its model.
pub proof fn law_command_is_seen_whole(c: Command)
    ensures
        match c {
            Command::Acquire => c@ is Acquire,
            Command::Connect { database: None } => c@ == (CommandView::Connect { database: None }),
            Command::Connect { database: Some(name) } => c@ == (CommandView::Connect {
                database: Some(name@),
            }),
            Command::Close => c@ is Close,
            Command::Execute { session, sql, params } => {
                &&& c@ is Execute
                &&& c@->Execute_session == session
                &&& c@->Execute_sql == sql@
                &&& c@->Execute_params.len() == params@.len()
                &&& forall|i: int|
                    0 <= i < params@.len() ==> #[trigger] c@->Execute_params[i] == params@[i]@
            },
            Command::Fetch { session, sql, params, shape } => {
                &&& c@ is Fetch
                &&& c@->Fetch_session == session
                &&& c@->Fetch_sql == sql@
                &&& c@->shape == shape
                &&& c@->Fetch_params.len() == params@.len()
                &&& forall|i: int|
                    0 <= i < params@.len() ==> #[trigger] c@->Fetch_params[i] == params@[i]@
            },
            Command::Migrate { hash } => c@ == (CommandView::Migrate { hash: hash@ }),
        },
{
}

/// A foreign key is seen whole.
pub proof fn law_key_is_seen_whole(key: ForeignKey)
    ensures
        key@.constraint_name == key.constraint_name@,
        key@.table_name == key.table_name@,
        key@.columns == key.columns@,
        key@.referenced_table_name == key.referenced_table_name@,
        key@.ref_columns == key.ref_columns@,
        key@.delete_rule == key.delete_rule@,
        key@.update_rule == key.update_rule@,
{
}

/// A reply is seen whole: every row that the server gave is in its model, in order.
pub proof fn law_reply_is_seen_whole(r: Reply)
    ensures
        match r {
            Reply::Done => r@ is Done,
            Reply::Names(v) => {
                &&& r@ is Names
                &&& r@->Names_0.len() == v@.len()
                &&& forall|i: int| 0 <= i < v@.len() ==> #[trigger] r@->Names_0[i] == v@[i]@
            },
            Reply::Pairs(v) => {
                &&& r@ is Pairs
                &&& r@->Pairs_0.len() == v@.len()
                &&& forall|i: int|
                    0 <= i < v@.len() ==> #[trigger] r@->Pairs_0[i] == (v@[i].0@, v@[i].1@)
            },
            Reply::ForeignKeys(v) => {
                &&& r@ is ForeignKeys
                &&& r@->ForeignKeys_0.len() == v@.len()
                &&& forall|i: int| 0 <= i < v@.len() ==> #[trigger] r@->ForeignKeys_0[i] == v@[i]@
            },
            Reply::Ids(v) => r@ == ReplyView::Ids(v@),
            Reply::Row(v) => {
                &&& r@ is Row
                &&& r@->Row_0.len() == v@.len()
                &&& forall|i: int| 0 <= i < v@.len() ==> #[trigger] r@->Row_0[i] == v@[i]@
            },
            Reply::MaybeName(None) => r@ == ReplyView::MaybeName(None),
            Reply::MaybeName(Some(name)) => r@ == ReplyView::MaybeName(Some(name@)),
            Reply::MaybeNumber(n) => r@ == ReplyView::MaybeNumber(n),
            Reply::Number(n) => r@ == ReplyView::Number(n),
            Reply::Failed(e) => r@ == ReplyView::Failed(e@),
        },
{
}

/// An error is seen whole, and it says what the server or the connection said.
pub proof fn law_error_is_seen_whole(e: Error)
    ensures
        match e {
            Error::Database { number, message } => e@ == (ErrorView::Database {
                number,
                message: message@,
            }) && e@.message() == message@,
            Error::Protocol(message) => e@ == ErrorView::Protocol(message@) && e@.message()
                == message@,
            Error::Other(message) => e@ == ErrorView::Other(message@) && e@.message() == message@,
        },
{
}

/// A statement goes over its connection with exactly the parameters it was given.
pub proof fn law_parameters_go_along(session: Session, sql: Text, param: Text, shape: Shape)
    ensures
        protocol::execute(session, sql) == (CommandView::Execute {
            session,
            sql,
            params: seq![],
        }),
        protocol::execute_with(session, sql, param) == (CommandView::Execute {
            session,
            sql,
            params: seq![param],
        }),
        protocol::fetch(session, sql, shape) == (CommandView::Fetch {
            session,
            sql,
            params: seq![],
            shape,
        }),
        protocol::fetch_with(session, sql, param, shape) == (CommandView::Fetch {
            session,
            sql,
            params: seq![param],
            shape,
        }),
{
}

/// A command is answered by a failure, a query else by rows of the kind that it asks for, and
/// anything else by its success alone.
pub proof fn law_what_answers_a_command(c: CommandView, r: ReplyView)
    ensures
        r is Failed ==> c.answered_by(r),
        !(r is Failed) && !(c is Fetch) ==> (c.answered_by(r) <==> r is Done),
        !(r is Failed) && c is Fetch ==> (c.answered_by(r) <==> {
            ||| c->shape is Names && r is Names
            ||| c->shape is Pairs && r is Pairs
            ||| c->shape is ForeignKeys && r is ForeignKeys
            ||| c->shape is Ids && r is Ids
            ||| c->shape is Row && r is Row && r->Row_0.len() == c->shape->columns
            ||| c->shape is MaybeName && r is MaybeName
            ||| c->shape is MaybeNumber && r is MaybeNumber
            ||| c->shape is Number && r is Number
        }),
{
}

/// Where a procedure stands is seen as it is.
pub proof fn law_turn_is_seen_whole<M: View, T: View>(turn: Turn<M, T>)
    ensures
        match turn {
            Turn::Ask(run) => turn@ == TurnView::<M::V, T::V>::Ask(run@),
            Turn::Done(result) => turn@ == TurnView::<M::V, T::V>::Done(result@),
            Turn::Fail(e) => turn@ == TurnView::<M::V, T::V>::Fail(e@),
        },
{
}

} // verus!
