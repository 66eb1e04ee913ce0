use satcache::line::expects_reply;
use satcache::session::{Session, SessionError};
use satcache::store::get_result;
use satcache::transaction::{simple_smt_transaction, Action, Event};
use std::collections::{HashMap, VecDeque};

const CHECK_SAT: &str = "CSO/rddgBgrFbeQA8D+hOIEyJd8pVXHoVlvngY3qGwMxe/qyVI4oySpyPP5yIpPs";
const ASSERT_P_CHECK_SAT: &str = "ERIdBHh+W240nY2ixNTX6SnQIV4NOAWvbk517k8jlJTg/XRCBjJFEgCYKS1I6+R2";
const DECLARE_CHECK_SAT: &str = "883rm5emcXNBhqm8ZEZTZ0xcYHPoWrMRQCNTD+6VjYvWwp2CgPC0Zq5i5/oTzal7";
const DECLARE_CHECK_SAT_TWICE: &str =
    "eTZNhEsxO9KsVMfEhMhdB8xEUWc9oe3/NJWUNbDz4+K71HjjneHhM+15mfwWNtRK";

/// A solver that answers from a script, as the relay in front of a real one
/// would: one reply for each line that calls for one, in order.
struct Solver {
    print_success: bool,
    script: VecDeque<String>,
    received: Vec<String>,
    pending: VecDeque<String>,
}

impl Solver {
    fn new(print_success: bool, script: &[&str]) -> Solver {
        Solver {
            print_success,
            script: script.iter().map(|s| s.to_string()).collect(),
            received: Vec::new(),
            pending: VecDeque::new(),
        }
    }

    fn send(&mut self, line: String) {
        if expects_reply(&line, self.print_success) {
            if let Some(reply) = self.script.pop_front() {
                self.pending.push_back(reply);
            }
        }
        self.received.push(line);
    }

    fn receive(&mut self) -> Option<String> {
        self.pending.pop_front()
    }
}

struct Outcome {
    emitted: Vec<String>,
    error: Option<SessionError>,
    taken: usize,
}

/// The transaction loop, with a map for the store.
fn run(
    lines: &[&str],
    print_success: bool,
    store: &mut HashMap<String, String>,
    solver: &mut Solver,
) -> Outcome {
    let mut session = Session::new();
    let mut outcome = Outcome { emitted: Vec::new(), error: None, taken: 0 };
    for line in lines {
        if session.exit_requested() {
            break;
        }
        outcome.taken += 1;
        let mut event = Event::Line { line: line.to_string() };
        loop {
            let action = match simple_smt_transaction(&mut session, event, print_success) {
                Ok(action) => action,
                Err(error) => {
                    outcome.error = Some(error);
                    return outcome;
                }
            };
            event = match action {
                Action::Stop => return outcome,
                Action::Skip => break,
                Action::Consult { line, key } => {
                    let cached = get_result(store.get(&key).cloned());
                    Event::Found { line, key, cached }
                }
                Action::Forward { line, await_reply, store_under } => {
                    solver.send(line);
                    if !await_reply {
                        break;
                    }
                    match solver.receive() {
                        Some(reply) => Event::Reply { store_under, reply },
                        None => Event::Closed,
                    }
                }
                Action::Deliver { reply, store_under } => {
                    if let Some(key) = store_under {
                        store.entry(key).or_insert(reply.clone());
                    }
                    outcome.emitted.push(reply);
                    break;
                }
            };
        }
    }
    outcome
}

#[test]
fn first_run_miss_then_cached_hit() {
    let mut store = HashMap::new();

    let mut solver = Solver::new(false, &["sat\n"]);
    let first = run(&["(check-sat)"], false, &mut store, &mut solver);
    assert_eq!(solver.received, ["(check-sat)"]);
    assert_eq!(first.emitted, ["sat\n"]);
    assert_eq!(store.len(), 1);
    assert_eq!(store.get(CHECK_SAT).map(String::as_str), Some("sat\n"));

    let mut absent = Solver::new(false, &[]);
    let second = run(&["(check-sat)"], false, &mut store, &mut absent);
    assert!(absent.received.is_empty());
    assert_eq!(second.emitted, first.emitted);
    assert_eq!(store.len(), 1);
}

#[test]
fn same_state_by_another_road_is_a_hit() {
    let mut store = HashMap::new();
    let mut solver = Solver::new(false, &["unsat\n"]);
    run(&["(declare-const x Int)", "(check-sat)"], false, &mut store, &mut solver);
    assert_eq!(store.get(DECLARE_CHECK_SAT).map(String::as_str), Some("unsat\n"));

    let mut later = Solver::new(false, &[]);
    let outcome = run(
        &[
            "; a remark",
            "(push 1)",
            "(assert p)",
            "(pop 1)",
            "(declare-const x Int)",
            "(check-sat)",
        ],
        false,
        &mut store,
        &mut later,
    );
    assert_eq!(
        later.received,
        ["(push 1)", "(assert p)", "(pop 1)", "(declare-const x Int)"]
    );
    assert_eq!(outcome.emitted, ["unsat\n"]);
    assert_eq!(outcome.error, None);
}

#[test]
fn scope_aware_distinctness() {
    let mut store = HashMap::new();
    let mut solver = Solver::new(false, &["unsat\n", "sat\n"]);
    let outcome = run(
        &["(push 1)", "(assert p)", "(check-sat)", "(pop 1)", "(check-sat)"],
        false,
        &mut store,
        &mut solver,
    );
    assert_eq!(outcome.error, None);
    assert_eq!(outcome.emitted, ["unsat\n", "sat\n"]);
    assert_eq!(
        solver.received,
        ["(push 1)", "(assert p)", "(check-sat)", "(pop 1)", "(check-sat)"]
    );
    assert_eq!(store.len(), 2);
    assert_eq!(store.get(ASSERT_P_CHECK_SAT).map(String::as_str), Some("unsat\n"));
    assert_eq!(store.get(CHECK_SAT).map(String::as_str), Some("sat\n"));

    let mut absent = Solver::new(false, &[]);
    let plain = run(&["(check-sat)"], false, &mut store, &mut absent);
    assert_eq!(plain.emitted, ["sat\n"]);
    assert!(absent.received.is_empty());
}

#[test]
fn equal_results_are_stored_under_their_own_keys() {
    let mut store = HashMap::new();
    let mut solver = Solver::new(false, &["sat\n", "sat\n"]);
    run(
        &["(push 1)", "(assert p)", "(check-sat)", "(pop 1)", "(check-sat)"],
        false,
        &mut store,
        &mut solver,
    );
    assert_eq!(store.len(), 2);
    assert_eq!(store.get(ASSERT_P_CHECK_SAT), store.get(CHECK_SAT));
}

#[test]
fn malformed_pop() {
    let mut store = HashMap::new();
    let mut solver = Solver::new(false, &["sat\n"]);
    let outcome = run(&["(pop 1)", "(check-sat)"], false, &mut store, &mut solver);
    assert_eq!(outcome.error, Some(SessionError::ScopeUnderflow));
    assert_eq!(outcome.taken, 1);
    assert!(outcome.emitted.is_empty());
    assert!(solver.received.is_empty());
    assert!(store.is_empty());
}

#[test]
fn malformed_pop_after_balanced_scopes() {
    let mut store = HashMap::new();
    let mut solver = Solver::new(true, &["success\n", "success\n", "sat\n"]);
    let outcome =
        run(&["(push 1)", "(pop 1)", "(pop 1)", "(check-sat)"], true, &mut store, &mut solver);
    assert_eq!(outcome.error, Some(SessionError::ScopeUnderflow));
    assert_eq!(outcome.taken, 3);
    assert_eq!(outcome.emitted, ["success\n", "success\n"]);
    assert_eq!(solver.received, ["(push 1)", "(pop 1)"]);
    assert!(store.is_empty());
}

#[test]
fn comment_skipping() {
    let mut store = HashMap::new();
    let mut solver = Solver::new(true, &["sat\n"]);
    let outcome =
        run(&["; first", ";second", "(check-sat)", "; last"], true, &mut store, &mut solver);
    assert_eq!(outcome.emitted, ["sat\n"]);
    assert_eq!(solver.received, ["(check-sat)"]);
    assert_eq!(store.get(CHECK_SAT).map(String::as_str), Some("sat\n"));
    assert_eq!(store.len(), 1);
}

#[test]
fn comment_skipping_leaves_the_fingerprint() {
    let mut session = Session::new();
    let assertion = Event::Line { line: "(assert p)".to_string() };
    simple_smt_transaction(&mut session, assertion, false).unwrap();
    let before = session.fingerprint();
    let comment = Event::Line { line: "; (assert q)".to_string() };
    assert_eq!(simple_smt_transaction(&mut session, comment, false), Ok(Action::Skip));
    assert_eq!(session.fingerprint(), before);
}

#[test]
fn replies_keep_their_order() {
    let mut store = HashMap::new();
    store.insert(DECLARE_CHECK_SAT.to_string(), "first cached\n".to_string());
    store.insert(DECLARE_CHECK_SAT_TWICE.to_string(), "second cached\n".to_string());
    let mut solver = Solver::new(true, &["r1\n", "r2\n", "r3\n", "r4\n", "r5\n"]);
    let outcome = run(
        &[
            "(declare-const x Int)",
            "(check-sat)",
            "(push 1)",
            "(assert p)",
            "(check-sat)",
            "(pop 1)",
            "(check-sat)",
        ],
        true,
        &mut store,
        &mut solver,
    );
    assert_eq!(
        solver.received,
        ["(declare-const x Int)", "(push 1)", "(assert p)", "(check-sat)", "(pop 1)"]
    );
    assert_eq!(
        outcome.emitted,
        ["r1\n", "first cached\n", "r2\n", "r3\n", "r4\n", "r5\n", "second cached\n"]
    );
    assert_eq!(store.len(), 3);
}

#[test]
fn without_print_success_only_queries_are_answered() {
    let mut store = HashMap::new();
    let mut solver = Solver::new(false, &["sat\n", "((x 1))\n", "17\n"]);
    let outcome = run(
        &[
            "(declare-const x Int)",
            "(assert (> x 0))",
            "(check-sat)",
            "(get-value (x))",
            "(get-model)",
            "(eval x)",
        ],
        false,
        &mut store,
        &mut solver,
    );
    assert_eq!(outcome.emitted, ["sat\n", "((x 1))\n", "17\n"]);
    assert_eq!(solver.received.len(), 6);
    assert_eq!(store.len(), 3);
}

#[test]
fn exit_is_forwarded_and_ends_the_session() {
    let mut store = HashMap::new();
    let mut solver = Solver::new(false, &["sat\n"]);
    let outcome =
        run(&["(assert p)", "(exit)", "(check-sat)"], false, &mut store, &mut solver);
    assert_eq!(solver.received, ["(assert p)", "(exit)"]);
    assert!(outcome.emitted.is_empty());
    assert_eq!(outcome.taken, 2);
    assert_eq!(outcome.error, None);
    assert!(store.is_empty());
}

#[test]
fn empty_line_ends_the_session() {
    let mut store = HashMap::new();
    let mut solver = Solver::new(false, &["sat\n"]);
    let outcome = run(&["(assert p)", "", "(check-sat)"], false, &mut store, &mut solver);
    assert_eq!(solver.received, ["(assert p)"]);
    assert!(outcome.emitted.is_empty());
    assert_eq!(outcome.taken, 2);
}

#[test]
fn closed_channel_ends_the_session_and_stores_nothing() {
    let mut store = HashMap::new();
    let mut solver = Solver::new(false, &[]);
    let outcome = run(&["(check-sat)", "(check-sat)"], false, &mut store, &mut solver);
    assert_eq!(solver.received, ["(check-sat)"]);
    assert!(outcome.emitted.is_empty());
    assert_eq!(outcome.taken, 1);
    assert_eq!(outcome.error, None);
    assert!(store.is_empty());
}

#[test]
fn first_stored_result_is_the_one_replayed() {
    let mut store = HashMap::new();
    store.insert(CHECK_SAT.to_string(), "sat\n".to_string());
    let mut session = Session::new();
    let event =
        Event::Reply { store_under: Some(CHECK_SAT.to_string()), reply: "unsat\n".to_string() };
    match simple_smt_transaction(&mut session, event, false) {
        Ok(Action::Deliver { reply, store_under: Some(key) }) => {
            store.entry(key).or_insert(reply);
        }
        other => panic!("{other:?}"),
    }
    let mut absent = Solver::new(false, &[]);
    let outcome = run(&["(check-sat)"], false, &mut store, &mut absent);
    assert_eq!(outcome.emitted, ["sat\n"]);
}

#[test]
fn empty_reply_is_stored_but_never_a_hit() {
    let mut store = HashMap::new();
    let mut solver = Solver::new(false, &[""]);
    let first = run(&["(check-sat)"], false, &mut store, &mut solver);
    assert_eq!(first.emitted, [""]);
    assert_eq!(store.get(CHECK_SAT).map(String::as_str), Some(""));

    let mut again = Solver::new(false, &["sat\n"]);
    let second = run(&["(check-sat)"], false, &mut store, &mut again);
    assert_eq!(again.received, ["(check-sat)"]);
    assert_eq!(second.emitted, ["sat\n"]);
    assert_eq!(store.get(CHECK_SAT).map(String::as_str), Some(""));
}

#[test]
fn it_works_on_a_map() {
    let mut store: HashMap<String, String> = HashMap::new();
    let mut session = Session::new();
    session.feed("hellofish");
    store.entry(session.fingerprint()).or_insert("file is sat".to_string());
    let s = get_result(store.get(&session.fingerprint()).cloned());
    assert_eq!(s, "file is sat");
    let mut session = Session::new();
    session.feed("hellofish1");
    let s2 = get_result(store.get(&session.fingerprint()).cloned());
    assert!(s2.is_empty());
}
