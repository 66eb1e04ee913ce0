//! A model of whole sessions, and the laws of the protocol.
//!
//! The transaction loop runs outside this library, between a client, a store
//! and a solver. This module says, as ghost definitions, how the loop carries
//! out the actions it is given and what is assumed of the store and of the
//! solver, and proves from the contract of [`simple_smt_transaction`] what
//! then holds of a session from its first line to its last.
//!
//! The store is a map from fingerprints to results, as the `store` module
//! has it. The solver is a stream of replies: it answers the lines that call
//! for a reply one by one, in the order in which they reach it.
//!
//! [`simple_smt_transaction`]: crate::transaction::simple_smt_transaction

use crate::line::{is_comment, kind_of, markers_are_distinct, reply_expected, LineKind};
use crate::session::{fresh_is_wf, steps_keep_wf, SessionError, SessionView};
use crate::store::{keeps, lookup, record, Store};
use crate::transaction::{action_on, state_after, state_after_line, ActionView, EventView};
use vstd::prelude::*;
use vstd::utf8::encode_utf8;

verus! {

/// One text given to the client.
#[verifier::ext_equal]
pub struct Emission {
    /// The line of the client that it answers.
    pub line: Seq<char>,
    /// The text itself.
    pub text: Seq<char>,
    /// Whether it is a reply of the solver, as opposed to a stored result.
    pub from_solver: bool,
}

/// How far a session has come.
pub enum Status {
    /// It takes further lines.
    Running,
    /// It has ended in good order.
    Stopped,
    /// It was aborted.
    Failed(SessionError),
}

/// Everything that has happened in a session and around it.
#[verifier::ext_equal]
pub struct Trace {
    /// The hash state of the session.
    pub session: SessionView,
    /// What the store holds.
    pub store: Store,
    /// The lines sent to the solver, in order.
    pub sent: Seq<Seq<char>>,
    /// How many replies of the solver have been taken.
    pub heard: nat,
    /// The texts given to the client, in order.
    pub emitted: Seq<Emission>,
    /// Whether the session goes on.
    pub status: Status,
}

impl Trace {
    /// A session at its start, on a given store.
    pub open spec fn start(store: Store) -> Trace {
        Trace {
            session: SessionView::fresh(),
            store,
            sent: Seq::<Seq<char>>::empty(),
            heard: 0,
            emitted: Seq::<Emission>::empty(),
            status: Status::Running,
        }
    }

    /// The replies of the solver that the client was given, in order.
    pub open spec fn relayed(self) -> Seq<Emission> {
        self.emitted.filter(|e: Emission| e.from_solver)
    }

    /// The lines sent to the solver that it answers, in order.
    pub open spec fn answerable(self, print_success: bool) -> Seq<Seq<char>> {
        self.sent.filter(|line: Seq<char>| reply_expected(line, print_success))
    }
}

/// What a wait on the solver brings: its next reply, or the news that the
/// channel is closed once the replies have run out.
pub open spec fn solver_event(
    t: Trace,
    store_under: Option<Seq<char>>,
    replies: Seq<Seq<char>>,
) -> EventView {
    if t.heard < replies.len() {
        EventView::Reply { store_under, reply: replies[t.heard as int] }
    } else {
        EventView::Closed
    }
}

/// Carrying out a delivery: the reply is offered to the store where a key
/// came with it, and given to the client.
pub open spec fn deliver(
    t: Trace,
    line: Seq<char>,
    reply: Seq<char>,
    store_under: Option<Seq<char>>,
    from_solver: bool,
) -> Trace {
    Trace {
        store: match store_under {
            Some(key) => record(t.store, key, reply),
            None => t.store,
        },
        emitted: t.emitted.push(Emission { line, text: reply, from_solver }),
        ..t
    }
}

/// Carrying out a forward: the line goes to the solver; where a reply is
/// awaited, what comes back decides how the transaction ends.
pub open spec fn forward(
    t: Trace,
    line: Seq<char>,
    await_reply: bool,
    store_under: Option<Seq<char>>,
    print_success: bool,
    replies: Seq<Seq<char>>,
) -> Trace {
    let sent = Trace { sent: t.sent.push(line), ..t };
    if !await_reply {
        sent
    } else {
        match action_on(sent.session, solver_event(sent, store_under, replies), print_success) {
            Ok(ActionView::Deliver { reply, store_under }) => deliver(
                Trace { heard: sent.heard + 1, ..sent },
                line,
                reply,
                store_under,
                true,
            ),
            _ => Trace { status: Status::Stopped, ..sent },
        }
    }
}

/// Carrying out the action that a line of the client called for, to the end
/// of the transaction.
pub open spec fn perform(
    t: Trace,
    action: ActionView,
    print_success: bool,
    replies: Seq<Seq<char>>,
) -> Trace {
    match action {
        ActionView::Stop => Trace { status: Status::Stopped, ..t },
        ActionView::Skip => t,
        ActionView::Consult { line, key } => match action_on(
            t.session,
            EventView::Found { line, key, cached: lookup(t.store, key) },
            print_success,
        ) {
            Ok(ActionView::Forward { line, await_reply, store_under }) => forward(
                t,
                line,
                await_reply,
                store_under,
                print_success,
                replies,
            ),
            Ok(ActionView::Deliver { reply, store_under }) => deliver(
                t,
                line,
                reply,
                store_under,
                false,
            ),
            _ => t,
        },
        ActionView::Forward { line, await_reply, store_under } => forward(
            t,
            line,
            await_reply,
            store_under,
            print_success,
            replies,
        ),
        ActionView::Deliver { reply, store_under } => deliver(
            t,
            Seq::<char>::empty(),
            reply,
            store_under,
            false,
        ),
    }
}

/// One transaction: a line of the client, from its arrival to the moment the
/// loop turns to the next. A session that is over takes no line; a line that
/// is an error aborts the session.
pub open spec fn step(
    t: Trace,
    line: Seq<char>,
    print_success: bool,
    replies: Seq<Seq<char>>,
) -> Trace {
    if !(t.status is Running) {
        t
    } else {
        let event = EventView::Line { line };
        match action_on(t.session, event, print_success) {
            Ok(action) => perform(
                Trace { session: state_after(t.session, event), ..t },
                action,
                print_success,
                replies,
            ),
            Err(error) => Trace { status: Status::Failed(error), ..t },
        }
    }
}

/// A session: the lines of the client, one transaction after another.
pub open spec fn run(
    t: Trace,
    lines: Seq<Seq<char>>,
    print_success: bool,
    replies: Seq<Seq<char>>,
) -> Trace
    decreases lines.len(),
{
    if lines.len() == 0 {
        t
    } else {
        let before = run(t, lines.drop_last(), print_success, replies);
        step(before, lines.last(), print_success, replies)
    }
}

/// A comment is invisible: it changes neither the session nor the store, and
/// reaches neither the solver nor the client.
pub proof fn comment_is_invisible(
    t: Trace,
    line: Seq<char>,
    print_success: bool,
    replies: Seq<Seq<char>>,
)
    requires
        is_comment(line),
    ensures
        ({
            let end = step(t, line, print_success, replies);
            &&& end.session == t.session
            &&& end.store == t.store
            &&& end.sent == t.sent
            &&& end.heard == t.heard
            &&& end.emitted == t.emitted
            &&& !t.session.exit_requested ==> end == t
        }),
{
    reveal_strlit(";");
}

/// A scope that was never opened cannot be closed: in a session with no scope
/// open, a scope-close aborts the session and leaves everything else as it
/// was.
pub proof fn unmatched_close_aborts(
    t: Trace,
    line: Seq<char>,
    print_success: bool,
    replies: Seq<Seq<char>>,
)
    requires
        t.status is Running,
        !t.session.exit_requested,
        !t.session.can_pop(),
        kind_of(line) == LineKind::ScopeClose,
    ensures
        step(t, line, print_success, replies) == (Trace {
            status: Status::Failed(SessionError::ScopeUnderflow),
            ..t
        }),
{
}

/// A session stays well formed, whatever lines it is given.
pub proof fn session_stays_wf(
    t: Trace,
    lines: Seq<Seq<char>>,
    print_success: bool,
    replies: Seq<Seq<char>>,
)
    requires
        t.session.wf(),
    ensures
        Trace::start(t.store).session.wf(),
        run(t, lines, print_success, replies).session.wf(),
    decreases lines.len(),
{
    fresh_is_wf();
    if lines.len() > 0 {
        let before = run(t, lines.drop_last(), print_success, replies);
        session_stays_wf(t, lines.drop_last(), print_success, replies);
        steps_keep_wf(before.session, encode_utf8(lines.last()));
    }
}

/// Only answers of the solver are stored, each under the fingerprint of the
/// query it answers. A transaction leaves the store as it is unless its line
/// is a query that the store cannot answer and the solver does: then the
/// query was sent, the next reply of the solver was taken, and that reply is
/// what the store has gained under the fingerprint that the query led to.
pub proof fn only_answers_are_stored(
    t: Trace,
    line: Seq<char>,
    print_success: bool,
    replies: Seq<Seq<char>>,
)
    ensures
        ({
            let end = step(t, line, print_success, replies);
            let key = state_after_line(t.session, line).fingerprint();
            ||| end.store == t.store
            ||| {
                &&& t.status is Running
                &&& kind_of(line) == LineKind::Query
                &&& lookup(t.store, key).len() == 0
                &&& t.heard < replies.len()
                &&& end.heard == t.heard + 1
                &&& end.sent == t.sent.push(line)
                &&& end.store == t.store.insert(key, replies[t.heard as int])
            }
        }),
{
}

/// When the solver is gone, the session ends without a last reply: a line
/// that waits for a reply which does not come stops the session, and nothing
/// is stored or given to the client for it.
pub proof fn closed_channel_ends_the_session(
    t: Trace,
    line: Seq<char>,
    print_success: bool,
    replies: Seq<Seq<char>>,
)
    requires
        t.status is Running,
        t.heard >= replies.len(),
    ensures
        ({
            let end = step(t, line, print_success, replies);
            &&& end.store == t.store
            &&& end.heard == t.heard
            &&& end.sent == t.sent.push(line) && reply_expected(line, print_success) ==> {
                &&& end.status is Stopped
                &&& end.emitted == t.emitted
            }
        }),
{
    markers_are_distinct(line);
    assert(t.sent.push(line).len() == t.sent.len() + 1);
}

/// No transaction changes or removes a result that the store holds.
pub proof fn step_keeps_results(
    t: Trace,
    line: Seq<char>,
    print_success: bool,
    replies: Seq<Seq<char>>,
)
    ensures
        keeps(t.store, step(t, line, print_success, replies).store),
{
}

/// No session changes or removes a result that the store holds.
pub proof fn run_keeps_results(
    t: Trace,
    lines: Seq<Seq<char>>,
    print_success: bool,
    replies: Seq<Seq<char>>,
)
    ensures
        keeps(t.store, run(t, lines, print_success, replies).store),
    decreases lines.len(),
{
    if lines.len() > 0 {
        let before = run(t, lines.drop_last(), print_success, replies);
        run_keeps_results(t, lines.drop_last(), print_success, replies);
        step_keeps_results(before, lines.last(), print_success, replies);
    }
}

/// An answer of the solver is replayed from the store. Let a query reach a
/// fingerprint under which the store holds nothing, and let the solver
/// answer it with a reply that is not empty: the query is sent, the reply is
/// stored under the fingerprint and given to the client. From then on, in
/// any session on a store that has kept that result, a query that reaches
/// the same fingerprint is answered with that reply, and the solver is not
/// asked.
pub proof fn stored_answer_is_replayed(
    first: Trace,
    query: Seq<char>,
    print_success: bool,
    replies: Seq<Seq<char>>,
    later: Trace,
    later_query: Seq<char>,
    later_print_success: bool,
    later_replies: Seq<Seq<char>>,
)
    requires
        first.status is Running,
        !first.session.exit_requested,
        kind_of(query) == LineKind::Query,
        !first.store.contains_key(state_after_line(first.session, query).fingerprint()),
        first.heard < replies.len(),
        replies[first.heard as int].len() > 0,
        later.status is Running,
        !later.session.exit_requested,
        kind_of(later_query) == LineKind::Query,
        state_after_line(later.session, later_query).fingerprint() == state_after_line(
            first.session,
            query,
        ).fingerprint(),
        keeps(step(first, query, print_success, replies).store, later.store),
    ensures
        ({
            let key = state_after_line(first.session, query).fingerprint();
            let reply = replies[first.heard as int];
            let done = step(first, query, print_success, replies);
            let again = step(later, later_query, later_print_success, later_replies);
            &&& done.sent == first.sent.push(query)
            &&& done.store == first.store.insert(key, reply)
            &&& done.emitted == first.emitted.push(
                Emission { line: query, text: reply, from_solver: true },
            )
            &&& again.sent == later.sent
            &&& again.heard == later.heard
            &&& again.store == later.store
            &&& again.emitted == later.emitted.push(
                Emission { line: later_query, text: reply, from_solver: false },
            )
        }),
{
    let key = state_after_line(first.session, query).fingerprint();
    let done = step(first, query, print_success, replies);
    assert(done.store.contains_key(key));
}

/// Filtering a sequence that grew by one element.
proof fn filter_push<A>(s: Seq<A>, x: A, pred: spec_fn(A) -> bool)
    ensures
        s.push(x).filter(pred) == if pred(x) {
            s.filter(pred).push(x)
        } else {
            s.filter(pred)
        },
{
    reveal(Seq::filter);
    assert(s.push(x).drop_last() =~= s);
}

/// Whether the replies of the solver have reached the client in step with
/// the lines that were sent: the lines that the solver answers and the
/// replies given to the client pair up one to one, in order, and the reply
/// at each place is the one that the solver gave at that place. Between two
/// transactions no reply is outstanding; after the channel has closed, the
/// last line alone is left without one.
pub open spec fn in_step(t: Trace, print_success: bool, replies: Seq<Seq<char>>) -> bool {
    let asked = t.answerable(print_success);
    let relayed = t.relayed();
    &&& relayed.len() == t.heard
    &&& t.heard <= replies.len()
    &&& t.heard <= asked.len() <= t.heard + 1
    &&& t.status is Running ==> asked.len() == t.heard
    &&& forall|n: int|
        0 <= n < t.heard ==> (#[trigger] relayed[n]).text == replies[n] && relayed[n].line
            == asked[n]
}

/// A transaction keeps the replies in step with the lines. In particular the
/// loop waits for a reply exactly where the solver gives one.
pub proof fn step_keeps_in_step(
    t: Trace,
    line: Seq<char>,
    print_success: bool,
    replies: Seq<Seq<char>>,
)
    requires
        in_step(t, print_success, replies),
    ensures
        in_step(step(t, line, print_success, replies), print_success, replies),
{
    let end = step(t, line, print_success, replies);
    let expects = |l: Seq<char>| reply_expected(l, print_success);
    let solver = |e: Emission| e.from_solver;
    markers_are_distinct(line);
    filter_push(t.sent, line, expects);
    if t.status is Running {
        if end.emitted != t.emitted {
            let added = end.emitted.last();
            assert(end.emitted == t.emitted.push(added));
            filter_push(t.emitted, added, solver);
        }
        if end.sent != t.sent {
            assert(end.sent == t.sent.push(line));
        }
    }
}

/// Replies keep their order. In a session from its start, whatever the
/// store holds and whichever queries it answers in the solver's place: the
/// lines sent to the solver that call for a reply and the replies given to
/// the client pair up in order, the reply given for the n-th such line being
/// the n-th reply of the solver.
pub proof fn replies_keep_their_order(
    store: Store,
    lines: Seq<Seq<char>>,
    print_success: bool,
    replies: Seq<Seq<char>>,
)
    ensures
        ({
            let end = run(Trace::start(store), lines, print_success, replies);
            let asked = end.answerable(print_success);
            let relayed = end.relayed();
            &&& relayed.len() == end.heard
            &&& end.heard <= replies.len()
            &&& end.heard <= asked.len() <= end.heard + 1
            &&& end.status is Running ==> asked.len() == end.heard
            &&& forall|n: int|
                0 <= n < end.heard ==> (#[trigger] relayed[n]).text == replies[n]
                    && relayed[n].line == asked[n]
        }),
    decreases lines.len(),
{
    if lines.len() == 0 {
        reveal(Seq::filter);
        assert(Trace::start(store).answerable(print_success).len() == 0);
        assert(Trace::start(store).relayed().len() == 0);
    } else {
        replies_keep_their_order(store, lines.drop_last(), print_success, replies);
        let before = run(Trace::start(store), lines.drop_last(), print_success, replies);
        assert(in_step(before, print_success, replies));
        step_keeps_in_step(before, lines.last(), print_success, replies);
    }
}

} // verus!
