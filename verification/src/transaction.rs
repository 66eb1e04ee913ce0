//! The decisions of the transaction loop.
//!
//! The loop talks to the client, the store and the solver, and so runs
//! outside this library. What it does is decided here: it hands each
//! [`Event`] to [`simple_smt_transaction`], carries out the [`Action`] it
//! gets back, and comes back with the event that the action led to.

use crate::line::{classify, kind_of, LineKind};
use crate::session::{Session, SessionError, SessionView};
use crate::store::text_of;
use vstd::prelude::*;
use vstd::utf8::encode_utf8;

verus! {

/// What has happened: what the loop hands to [`simple_smt_transaction`].
#[derive(Debug, PartialEq, Eq)]
pub enum Event {
    /// The client has sent `line`. The empty line stands for the end of its
    /// input.
    Line { line: String },
    /// The store was consulted, as [`Action::Consult`] asked: `cached` is
    /// the result it holds under `key`, empty if it holds none.
    Found { line: String, key: String, cached: String },
    /// The solver has answered, with `reply`, a line whose
    /// [`Action::Forward`] said to wait for it.
    Reply { store_under: Option<String>, reply: String },
    /// The channel to the solver was found closed where a reply was awaited.
    Closed,
}

/// What the loop is to do next.
#[derive(Debug, PartialEq, Eq)]
pub enum Action {
    /// End the session.
    Stop,
    /// Nothing: go on with the next line of the client.
    Skip,
    /// Look `key` up in the store and come back with [`Event::Found`],
    /// passing `line` and `key` on.
    Consult { line: String, key: String },
    /// Send `line` to the solver. Where `await_reply` is set, wait for its
    /// answer and come back with [`Event::Reply`], passing `store_under` on,
    /// or with [`Event::Closed`]. Otherwise go on with the next line of the
    /// client.
    Forward { line: String, await_reply: bool, store_under: Option<String> },
    /// Where `store_under` holds a key, store `reply` under it unless the
    /// store already holds a result there. Then give `reply` to the client
    /// and go on with its next line.
    Deliver { reply: String, store_under: Option<String> },
}

/// The mathematical content of an [`Event`].
#[verifier::ext_equal]
pub enum EventView {
    Line { line: Seq<char> },
    Found { line: Seq<char>, key: Seq<char>, cached: Seq<char> },
    Reply { store_under: Option<Seq<char>>, reply: Seq<char> },
    Closed,
}

impl View for Event {
    type V = EventView;

    open spec fn view(&self) -> EventView {
        match *self {
            Event::Line { line } => EventView::Line { line: line@ },
            Event::Found { line, key, cached } => EventView::Found {
                line: line@,
                key: key@,
                cached: cached@,
            },
            Event::Reply { store_under, reply } => EventView::Reply {
                store_under: text_of(store_under),
                reply: reply@,
            },
            Event::Closed => EventView::Closed,
        }
    }
}

/// The mathematical content of an [`Action`].
#[verifier::ext_equal]
pub enum ActionView {
    Stop,
    Skip,
    Consult { line: Seq<char>, key: Seq<char> },
    Forward { line: Seq<char>, await_reply: bool, store_under: Option<Seq<char>> },
    Deliver { reply: Seq<char>, store_under: Option<Seq<char>> },
}

impl View for Action {
    type V = ActionView;

    open spec fn view(&self) -> ActionView {
        match *self {
            Action::Stop => ActionView::Stop,
            Action::Skip => ActionView::Skip,
            Action::Consult { line, key } => ActionView::Consult { line: line@, key: key@ },
            Action::Forward { line, await_reply, store_under } => ActionView::Forward {
                line: line@,
                await_reply,
                store_under: text_of(store_under),
            },
            Action::Deliver { reply, store_under } => ActionView::Deliver {
                reply: reply@,
                store_under: text_of(store_under),
            },
        }
    }
}

/// The session state after a line of the client.
///
/// A session that has seen the exit command takes no further line. The empty
/// line and a comment leave the state as it is, and so does a scope-close
/// where no scope is open. The exit command, a query and any other command
/// are fed; a query is fed before its fingerprint is taken, being part of
/// what the answer depends on.
pub open spec fn state_after_line(state: SessionView, line: Seq<char>) -> SessionView {
    if state.exit_requested {
        state
    } else {
        match kind_of(line) {
            LineKind::End => state,
            LineKind::Comment => state,
            LineKind::Exit => state.feed(encode_utf8(line)).request_exit(),
            LineKind::ScopeOpen => state.push_scope(),
            LineKind::ScopeClose => if state.can_pop() {
                state.pop_scope()
            } else {
                state
            },
            LineKind::Query => state.feed(encode_utf8(line)),
            LineKind::Command => state.feed(encode_utf8(line)),
        }
    }
}

/// What a line of the client calls for.
///
/// After the exit command, and at the end of the input, the session stops. A
/// comment is skipped. A query is looked up under the fingerprint of the
/// state it leads to. A scope-close where no scope is open is an error. Every
/// other line goes to the solver, which answers it if it acknowledges every
/// line.
pub open spec fn action_on_line(
    state: SessionView,
    line: Seq<char>,
    print_success: bool,
) -> Result<ActionView, SessionError> {
    if state.exit_requested {
        Ok(ActionView::Stop)
    } else {
        match kind_of(line) {
            LineKind::End => Ok(ActionView::Stop),
            LineKind::Comment => Ok(ActionView::Skip),
            LineKind::Query => Ok(
                ActionView::Consult { line, key: state_after_line(state, line).fingerprint() },
            ),
            LineKind::ScopeClose => if state.can_pop() {
                Ok(ActionView::Forward { line, await_reply: print_success, store_under: None })
            } else {
                Err(SessionError::ScopeUnderflow)
            },
            _ => Ok(ActionView::Forward { line, await_reply: print_success, store_under: None }),
        }
    }
}

/// What the result of a lookup calls for.
///
/// A result that is not empty is a hit: it goes to the client, and the solver
/// is not asked. On a miss the query goes to the solver, whose answer is
/// awaited and is to be stored under the key.
pub open spec fn action_on_found(line: Seq<char>, key: Seq<char>, cached: Seq<char>) -> ActionView {
    if cached.len() > 0 {
        ActionView::Deliver { reply: cached, store_under: None }
    } else {
        ActionView::Forward { line, await_reply: true, store_under: Some(key) }
    }
}

/// The session state after an event: only a line of the client changes it.
pub open spec fn state_after(state: SessionView, event: EventView) -> SessionView {
    match event {
        EventView::Line { line } => state_after_line(state, line),
        _ => state,
    }
}

/// What an event calls for.
///
/// A reply of the solver goes to the client as it came, by way of the store
/// where a key came with it. When the channel is closed the session ends,
/// and nothing is stored or given to the client.
pub open spec fn action_on(
    state: SessionView,
    event: EventView,
    print_success: bool,
) -> Result<ActionView, SessionError> {
    match event {
        EventView::Line { line } => action_on_line(state, line, print_success),
        EventView::Found { line, key, cached } => Ok(action_on_found(line, key, cached)),
        EventView::Reply { store_under, reply } => Ok(ActionView::Deliver { reply, store_under }),
        EventView::Closed => Ok(ActionView::Stop),
    }
}

/// Whether an event is refused: it is a line of the client that closes a scope
/// while the session, still going, has no scope open.
pub open spec fn refused(state: SessionView, event: EventView) -> bool {
    &&& event matches EventView::Line { line }
    &&& !state.exit_requested
    &&& kind_of(line) == LineKind::ScopeClose
    &&& !state.can_pop()
}

/// The content of what [`simple_smt_transaction`] returns.
pub open spec fn outcome_of(result: Result<Action, SessionError>) -> Result<
    ActionView,
    SessionError,
> {
    match result {
        Ok(action) => Ok(action@),
        Err(error) => Err(error),
    }
}

/// One step of a session: takes an event into the session and says what the
/// loop is to do next. `print_success` tells whether the solver acknowledges
/// every line it is sent, and must be the same throughout a session.
///
/// The one error is a scope-close where no scope is open. The session is
/// then left as it was, but it cannot go on: what it would send to the solver
/// from there on is no longer what its fingerprint stands for.
pub fn simple_smt_transaction(
    session: &mut Session,
    event: Event,
    print_success: bool,
) -> (result: Result<Action, SessionError>)
    ensures
        final(session)@ == state_after(old(session)@, event@),
        outcome_of(result) == action_on(old(session)@, event@, print_success),
        result is Err <==> refused(old(session)@, event@),
        result is Err ==> result->Err_0 == SessionError::ScopeUnderflow,
        result is Err ==> final(session)@ == old(session)@,
        old(session)@.wf() ==> final(session)@.wf(),
{
    match event {
        Event::Line { line } => {
            if session.exit_requested() {
                return Ok(Action::Stop);
            }
            match classify(line.as_str()) {
                LineKind::End => Ok(Action::Stop),
                LineKind::Comment => Ok(Action::Skip),
                LineKind::Exit => {
                    session.feed(line.as_str());
                    session.request_exit();
                    Ok(Action::Forward { line, await_reply: print_success, store_under: None })
                },
                LineKind::ScopeOpen => {
                    session.push_scope();
                    Ok(Action::Forward { line, await_reply: print_success, store_under: None })
                },
                LineKind::ScopeClose => match session.pop_scope() {
                    Ok(()) => Ok(
                        Action::Forward { line, await_reply: print_success, store_under: None },
                    ),
                    Err(error) => Err(error),
                },
                LineKind::Query => {
                    session.feed(line.as_str());
                    let key = session.fingerprint();
                    Ok(Action::Consult { line, key })
                },
                LineKind::Command => {
                    session.feed(line.as_str());
                    Ok(Action::Forward { line, await_reply: print_success, store_under: None })
                },
            }
        },
        Event::Found { line, key, cached } => {
            if cached.as_str().is_empty() {
                Ok(Action::Forward { line, await_reply: true, store_under: Some(key) })
            } else {
                Ok(Action::Deliver { reply: cached, store_under: None })
            }
        },
        Event::Reply { store_under, reply } => Ok(Action::Deliver { reply, store_under }),
        Event::Closed => Ok(Action::Stop),
    }
}

} // verus!
