//! The session hash state machine: a running digest of everything sent to the
//! solver, with one saved snapshot per open scope.

use crate::digest::{
    absorbed, accumulator_clone, accumulator_finalize, accumulator_new, accumulator_update,
    encode_no_pad, fingerprint_of, sha3_384, DIGEST_LEN,
};
use vstd::prelude::*;
use vstd::utf8::encode_utf8;

verus! {

/// Why a session cannot go on.
#[derive(Clone, Copy, Debug, PartialEq, Eq, Structural)]
pub enum SessionError {
    /// A scope was closed that had never been opened. The fingerprint no
    /// longer stands for what the solver holds, so the session must end.
    ScopeUnderflow,
}

impl SessionError {
    /// A sentence for the operator.
    pub fn message(&self) -> (text: String)
        ensures
            text@ == "(pop) command without a corresponding (push)"@,
    {
        "(pop) command without a corresponding (push)".to_owned()
    }
}

/// The mathematical content of a [`Session`].
#[verifier::ext_equal]
pub struct SessionView {
    /// The bytes fed to the current accumulator, in order.
    pub current: Seq<u8>,
    /// The saved snapshots, oldest first. The first belongs to the top level
    /// and is never removed; each open scope adds one.
    pub saved: Seq<Seq<u8>>,
    /// Whether the session-exit command has been seen.
    pub exit_requested: bool,
}

impl SessionView {
    /// The state at session start: nothing fed, no scope open.
    pub open spec fn fresh() -> SessionView {
        SessionView {
            current: Seq::<u8>::empty(),
            saved: seq![Seq::<u8>::empty()],
            exit_requested: false,
        }
    }

    /// What holds of every session. The snapshot of the top level is there
    /// and is empty. Each snapshot is an earlier state of the one above it,
    /// and the newest an earlier state of the current accumulator: what was
    /// fed since a scope was opened is what the accumulator holds beyond the
    /// snapshot of that scope.
    pub open spec fn wf(self) -> bool {
        &&& self.saved.len() >= 1
        &&& self.saved[0].len() == 0
        &&& forall|i: int, j: int|
            #![trigger self.saved[i], self.saved[j]]
            0 <= i <= j < self.saved.len() ==> self.saved[i].is_prefix_of(self.saved[j])
        &&& self.saved.last().is_prefix_of(self.current)
    }

    /// The state after the bytes of one line went into the accumulator.
    pub open spec fn feed(self, bytes: Seq<u8>) -> SessionView {
        SessionView { current: self.current + bytes, ..self }
    }

    /// The state after a scope was opened: the current accumulator is saved
    /// and goes on unchanged.
    pub open spec fn push_scope(self) -> SessionView {
        SessionView { saved: self.saved.push(self.current), ..self }
    }

    /// Whether a scope is open, so that one can be closed.
    pub open spec fn can_pop(self) -> bool {
        self.saved.len() >= 2
    }

    /// The state after the innermost scope was closed: the newest snapshot
    /// leaves the stack and becomes the current accumulator.
    pub open spec fn pop_scope(self) -> SessionView {
        SessionView { current: self.saved.last(), saved: self.saved.drop_last(), ..self }
    }

    /// The state after the session-exit command was seen.
    pub open spec fn request_exit(self) -> SessionView {
        SessionView { exit_requested: true, ..self }
    }

    /// The fingerprint of the state: the key under which the answer to a
    /// query asked in this state is stored.
    pub open spec fn fingerprint(self) -> Seq<char> {
        fingerprint_of(self.current)
    }

    /// The state after feeding one line after another.
    pub open spec fn feed_all(self, lines: Seq<Seq<char>>) -> SessionView
        decreases lines.len(),
    {
        if lines.len() == 0 {
            self
        } else {
            self.feed_all(lines.drop_last()).feed(encode_utf8(lines.last()))
        }
    }
}

/// The bytes of all the lines, one after another.
pub open spec fn concat_bytes(lines: Seq<Seq<char>>) -> Seq<u8>
    decreases lines.len(),
{
    if lines.len() == 0 {
        Seq::<u8>::empty()
    } else {
        concat_bytes(lines.drop_last()) + encode_utf8(lines.last())
    }
}

/// The state of one solver session as far as caching is concerned.
pub struct Session {
    current: sha3::Sha3_384,
    saved: Vec<sha3::Sha3_384>,
    exit_requested: bool,
}

impl View for Session {
    type V = SessionView;

    closed spec fn view(&self) -> SessionView {
        SessionView {
            current: absorbed(self.current),
            saved: self.saved@.map_values(|acc: sha3::Sha3_384| absorbed(acc)),
            exit_requested: self.exit_requested,
        }
    }
}

impl Session {
    /// A session at its start.
    pub fn new() -> (session: Session)
        ensures
            session@ == SessionView::fresh(),
            session@.wf(),
    {
        let current = accumulator_new();
        let mut saved: Vec<sha3::Sha3_384> = Vec::new();
        saved.push(accumulator_clone(&current));
        let session = Session { current, saved, exit_requested: false };
        proof {
            assert(session@.saved =~= seq![Seq::<u8>::empty()]);
            fresh_is_wf();
        }
        session
    }

    /// Takes the bytes of `line` into the current accumulator.
    pub fn feed(&mut self, line: &str)
        ensures
            final(self)@ == old(self)@.feed(encode_utf8(line@)),
            old(self)@.wf() ==> final(self)@.wf(),
    {
        accumulator_update(&mut self.current, line.as_bytes());
        proof {
            if old(self)@.wf() {
                steps_keep_wf(old(self)@, encode_utf8(line@));
            }
        }
    }

    /// Opens a scope: saves a copy of the current accumulator.
    pub fn push_scope(&mut self)
        ensures
            final(self)@ == old(self)@.push_scope(),
            old(self)@.wf() ==> final(self)@.wf(),
    {
        let snapshot = accumulator_clone(&self.current);
        self.saved.push(snapshot);
        proof {
            assert(self@.saved =~= old(self)@.saved.push(old(self)@.current));
            if old(self)@.wf() {
                steps_keep_wf(old(self)@, Seq::<u8>::empty());
            }
        }
    }

    /// Closes the innermost scope: everything fed since it was opened is
    /// forgotten. Refused, with the session untouched, when no scope is open.
    pub fn pop_scope(&mut self) -> (result: Result<(), SessionError>)
        ensures
            old(self)@.can_pop() ==> result is Ok && final(self)@ == old(self)@.pop_scope(),
            !old(self)@.can_pop() ==> result == Err::<(), SessionError>(
                SessionError::ScopeUnderflow,
            ) && final(self)@ == old(self)@,
            old(self)@.wf() ==> final(self)@.wf(),
    {
        if self.saved.len() < 2 {
            return Err(SessionError::ScopeUnderflow);
        }
        self.current = self.saved.pop().unwrap();
        proof {
            assert(self@.saved =~= old(self)@.saved.drop_last());
            if old(self)@.wf() {
                steps_keep_wf(old(self)@, Seq::<u8>::empty());
            }
        }
        Ok(())
    }

    /// The fingerprint of the current state: the SHA3-384 digest, 384 bits
    /// long, of what was fed, in unpadded base64. The session is left as it
    /// is and can be fed further.
    pub fn fingerprint(&self) -> (text: String)
        ensures
            text@ == self@.fingerprint(),
            sha3_384(self@.current).len() == DIGEST_LEN,
    {
        let copy = accumulator_clone(&self.current);
        let digest = accumulator_finalize(copy);
        encode_no_pad(digest.as_slice())
    }

    /// Records that the session-exit command was seen.
    pub fn request_exit(&mut self)
        ensures
            final(self)@ == old(self)@.request_exit(),
            old(self)@.wf() ==> final(self)@.wf(),
    {
        self.exit_requested = true;
    }

    /// Whether the session-exit command has been seen.
    pub fn exit_requested(&self) -> (exit: bool)
        ensures
            exit == self@.exit_requested,
    {
        self.exit_requested
    }
}

/// A session at its start is well formed.
pub proof fn fresh_is_wf()
    ensures
        SessionView::fresh().wf(),
{
    let fresh = SessionView::fresh();
    assert forall|i: int, j: int|
        0 <= i <= j < fresh.saved.len() implies fresh.saved[i].is_prefix_of(fresh.saved[j]) by {
        assert(fresh.saved[i] =~= fresh.saved[j].subrange(0, 0));
    }
    assert(fresh.saved.last() =~= fresh.current.subrange(0, 0));
}

/// Every step of the state machine keeps a session well formed.
pub proof fn steps_keep_wf(state: SessionView, bytes: Seq<u8>)
    requires
        state.wf(),
    ensures
        state.feed(bytes).wf(),
        state.push_scope().wf(),
        state.can_pop() ==> state.pop_scope().wf(),
        state.request_exit().wf(),
{
    let top = state.saved.last();
    assert(top.is_prefix_of(state.current + bytes)) by {
        assert(top =~= (state.current + bytes).subrange(0, top.len() as int));
    }

    let pushed = state.push_scope();
    assert forall|i: int, j: int|
        0 <= i <= j < pushed.saved.len() implies pushed.saved[i].is_prefix_of(pushed.saved[j]) by {
        if j == state.saved.len() {
            if i < state.saved.len() {
                let below = state.saved[i];
                assert(below.is_prefix_of(top));
                assert(below =~= state.current.subrange(0, below.len() as int));
            } else {
                assert(state.current =~= state.current.subrange(0, state.current.len() as int));
            }
        } else {
            assert(state.saved[i].is_prefix_of(state.saved[j]));
        }
    }
    assert(state.current =~= state.current.subrange(0, state.current.len() as int));

    if state.can_pop() {
        let popped = state.pop_scope();
        assert forall|i: int, j: int|
            0 <= i <= j < popped.saved.len() implies popped.saved[i].is_prefix_of(
            popped.saved[j],
        ) by {
            assert(state.saved[i].is_prefix_of(state.saved[j]));
        }
        assert(popped.saved.last().is_prefix_of(popped.current)) by {
            assert(state.saved[state.saved.len() - 2].is_prefix_of(
                state.saved[state.saved.len() - 1],
            ));
        }
    }
}

/// The fingerprint reached by feeding lines to a session at its start depends
/// on nothing but the bytes of those lines, taken one after another: it is the
/// fingerprint of that byte string. Feeding the same lines again therefore
/// gives the same fingerprint, as does any other split of the same bytes.
pub proof fn feeding_is_deterministic(lines: Seq<Seq<char>>, again: Seq<Seq<char>>)
    requires
        concat_bytes(lines) == concat_bytes(again),
    ensures
        SessionView::fresh().feed_all(lines).fingerprint() == fingerprint_of(concat_bytes(lines)),
        SessionView::fresh().feed_all(lines).fingerprint() == SessionView::fresh().feed_all(
            again,
        ).fingerprint(),
{
    fed_bytes_accumulate(SessionView::fresh(), lines);
    fed_bytes_accumulate(SessionView::fresh(), again);
    assert(Seq::<u8>::empty() + concat_bytes(lines) =~= concat_bytes(lines));
    assert(Seq::<u8>::empty() + concat_bytes(again) =~= concat_bytes(again));
}

/// Feeding lines changes the current accumulator alone, and appends their
/// bytes to it.
pub proof fn fed_bytes_accumulate(start: SessionView, lines: Seq<Seq<char>>)
    ensures
        start.feed_all(lines) == (SessionView {
            current: start.current + concat_bytes(lines),
            ..start
        }),
    decreases lines.len(),
{
    if lines.len() == 0 {
        assert(start.current + concat_bytes(lines) =~= start.current);
    } else {
        fed_bytes_accumulate(start, lines.drop_last());
        assert((start.current + concat_bytes(lines.drop_last())) + encode_utf8(lines.last())
            =~= start.current + concat_bytes(lines));
    }
}

/// A scope is isolated: opening a scope, feeding a line and closing the
/// scope again leaves the session, and so its fingerprint, as it was before
/// the scope was opened.
pub proof fn scope_is_isolated(start: SessionView, line: Seq<char>)
    requires
        start.wf(),
    ensures
        start.push_scope().feed(encode_utf8(line)).can_pop(),
        start.push_scope().feed(encode_utf8(line)).pop_scope() == start,
        start.push_scope().feed(encode_utf8(line)).pop_scope().fingerprint()
            == start.fingerprint(),
{
    assert(start.saved.push(start.current).drop_last() =~= start.saved);
}

/// The same holds of any number of lines fed inside the scope.
pub proof fn scope_forgets_what_was_fed(start: SessionView, lines: Seq<Seq<char>>)
    requires
        start.wf(),
    ensures
        start.push_scope().feed_all(lines).can_pop(),
        start.push_scope().feed_all(lines).pop_scope() == start,
        start.push_scope().feed_all(lines).pop_scope().fingerprint() == start.fingerprint(),
{
    fed_bytes_accumulate(start.push_scope(), lines);
    assert(start.saved.push(start.current).drop_last() =~= start.saved);
}

} // verus!
