//! Classification of protocol lines.
//!
//! A line is an opaque text: nothing of the solver's language is parsed. Only
//! a handful of markers at the start of a line are recognized, exactly and
//! case-sensitively.

use vstd::prelude::*;
use vstd::std_specs::iter::IteratorSpec;

verus! {

/// What a line means to the session, by the first rule that applies.
#[derive(Clone, Copy, Debug, PartialEq, Eq, Structural)]
pub enum LineKind {
    /// The empty line: the input is exhausted.
    End,
    /// A comment: it concerns neither the fingerprint nor the solver.
    Comment,
    /// The command that ends the session.
    Exit,
    /// A command that opens a scope.
    ScopeOpen,
    /// A command that closes a scope.
    ScopeClose,
    /// A command whose answer depends on the session state alone, and may be
    /// replayed from the store.
    Query,
    /// Any other command: it changes the solver state and is passed through.
    Command,
}

/// A comment starts with `;`.
pub open spec fn is_comment(line: Seq<char>) -> bool {
    ";"@.is_prefix_of(line)
}

/// The session-exit command is the line `(exit)`, nothing before or after.
pub open spec fn is_exit(line: Seq<char>) -> bool {
    line == "(exit)"@
}

/// A scope is opened by a line that starts with `(push`.
pub open spec fn opens_scope(line: Seq<char>) -> bool {
    "(push"@.is_prefix_of(line)
}

/// A scope is closed by a line that starts with `(pop`.
pub open spec fn closes_scope(line: Seq<char>) -> bool {
    "(pop"@.is_prefix_of(line)
}

/// A query starts with `(check`, `(eval ` or `(get-value `. The solver
/// answers every query with exactly one line.
pub open spec fn is_query(line: Seq<char>) -> bool {
    "(check"@.is_prefix_of(line) || "(eval "@.is_prefix_of(line) || "(get-value "@.is_prefix_of(
        line,
    )
}

/// The kind of a line: the rules are tried in this order and the first
/// that applies decides.
pub open spec fn kind_of(line: Seq<char>) -> LineKind {
    if line.len() == 0 {
        LineKind::End
    } else if is_comment(line) {
        LineKind::Comment
    } else if is_exit(line) {
        LineKind::Exit
    } else if opens_scope(line) {
        LineKind::ScopeOpen
    } else if closes_scope(line) {
        LineKind::ScopeClose
    } else if is_query(line) {
        LineKind::Query
    } else {
        LineKind::Command
    }
}

/// Whether the solver answers a line that was sent to it with one line of its
/// own. With `print_success` it acknowledges every line; without, it answers
/// queries only.
pub open spec fn reply_expected(line: Seq<char>, print_success: bool) -> bool {
    print_success || is_query(line)
}

/// Whether `line` starts with `marker`.
fn has_prefix(line: &str, marker: &str) -> (found: bool)
    ensures
        found == marker@.is_prefix_of(line@),
{
    let mut rest = line.chars();
    let mut wanted = marker.chars();
    let ghost mut matched: int = 0;
    loop
        invariant
            0 <= matched <= marker@.len(),
            matched <= line@.len(),
            rest.remaining() == line@.skip(matched),
            wanted.remaining() == marker@.skip(matched),
            line@.take(matched) == marker@.take(matched),
        decreases marker@.len() - matched,
    {
        match wanted.next() {
            None => {
                assert(marker@ =~= marker@.take(matched));
                assert(line@.subrange(0, marker@.len() as int) =~= line@.take(matched));
                return true;
            },
            Some(expected) => {
                match rest.next() {
                    None => {
                        return false;
                    },
                    Some(actual) => {
                        if actual != expected {
                            proof {
                                if marker@.is_prefix_of(line@) {
                                    assert(line@.subrange(0, marker@.len() as int)[matched]
                                        == marker@[matched]);
                                }
                            }
                            return false;
                        }
                        proof {
                            assert(line@.take(matched + 1) =~= line@.take(matched).push(actual));
                            assert(marker@.take(matched + 1) =~= marker@.take(matched).push(
                                expected,
                            ));
                            assert(line@.skip(matched).drop_first() =~= line@.skip(matched + 1));
                            assert(marker@.skip(matched).drop_first() =~= marker@.skip(
                                matched + 1,
                            ));
                            matched = matched + 1;
                        }
                    },
                }
            },
        }
    }
}

/// Classifies a line.
pub fn classify(line: &str) -> (kind: LineKind)
    ensures
        kind == kind_of(line@),
{
    if line.is_empty() {
        LineKind::End
    } else if has_prefix(line, ";") {
        LineKind::Comment
    } else if ends_session(line) {
        LineKind::Exit
    } else if has_prefix(line, "(push") {
        LineKind::ScopeOpen
    } else if has_prefix(line, "(pop") {
        LineKind::ScopeClose
    } else if asks_query(line) {
        LineKind::Query
    } else {
        LineKind::Command
    }
}

/// Whether a line is the session-exit command. The relay that feeds the
/// solver stops after passing this line on.
pub fn ends_session(line: &str) -> (exit: bool)
    ensures
        exit == is_exit(line@),
{
    let exit = has_prefix(line, "(exit)") && has_prefix("(exit)", line);
    proof {
        if exit {
            assert(line@ =~= "(exit)"@);
        }
    }
    exit
}

/// Whether a line is a query.
pub fn asks_query(line: &str) -> (query: bool)
    ensures
        query == is_query(line@),
{
    has_prefix(line, "(check") || has_prefix(line, "(eval ") || has_prefix(line, "(get-value ")
}

/// Whether the solver will answer `line` with a line of its own: both ends of
/// the channel to the solver count replies by this one rule.
pub fn expects_reply(line: &str, print_success: bool) -> (expected: bool)
    ensures
        expected == reply_expected(line@, print_success),
{
    print_success || asks_query(line)
}

/// The markers do not overlap: a comment, the exit command and the lines
/// that open or close a scope are no queries. So the queries are exactly the
/// lines that start with a query marker, whatever the order of the rules, and
/// a reply is expected without `print_success` exactly for them.
pub proof fn markers_are_distinct(line: Seq<char>)
    ensures
        is_comment(line) || is_exit(line) || opens_scope(line) || closes_scope(line) ==> !is_query(
            line,
        ),
        kind_of(line) == LineKind::Query <==> is_query(line),
        reply_expected(line, false) <==> kind_of(line) == LineKind::Query,
{
    reveal_strlit(";");
    reveal_strlit("(exit)");
    reveal_strlit("(push");
    reveal_strlit("(pop");
    reveal_strlit("(check");
    reveal_strlit("(eval ");
    reveal_strlit("(get-value ");
    if is_query(line) {
        if "(check"@.is_prefix_of(line) {
            assert(line.subrange(0, 6)[0] == '(' && line.subrange(0, 6)[1] == 'c');
        } else if "(eval "@.is_prefix_of(line) {
            assert(line.subrange(0, 6)[0] == '(' && line.subrange(0, 6)[1] == 'e'
                && line.subrange(0, 6)[2] == 'v');
        } else {
            assert(line.subrange(0, 11)[0] == '(' && line.subrange(0, 11)[1] == 'g');
        }
        if is_comment(line) {
            assert(line.subrange(0, 1)[0] == ';');
        }
        if opens_scope(line) {
            assert(line.subrange(0, 5)[1] == 'p');
        }
        if closes_scope(line) {
            assert(line.subrange(0, 4)[1] == 'p');
        }
        if is_exit(line) {
            assert(line[1] == 'e' && line[2] == 'x');
        }
    }
}

} // verus!
