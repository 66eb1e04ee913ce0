//! A cache in front of an SMT solver.
//!
//! A client talks to a solver line by line. Some of its commands are queries
//! whose answer depends on nothing but what the solver was told before; such
//! an answer can be stored, and given again when a later session comes to the
//! same point, without asking the solver. This library holds the logic of
//! that: it says for every line what is to be done with it, and under which
//! key an answer is stored.
//!
//! - [`line`] tells the kinds of lines apart.
//! - [`session`] keeps the fingerprint of a session: a digest of all that was
//!   fed to it, with a snapshot for every open scope.
//! - [`transaction`] decides, event by event, what the loop between client,
//!   store and solver does next.
//! - [`store`] says what is expected of the store.
//! - [`protocol`] is a model of whole sessions, with the laws that hold of
//!   them.
//! - [`digest`] is the boundary to the hashing and encoding crates.
//!
//! Reading and writing are left to the caller: the library takes and gives
//! plain values.

pub mod digest;
pub mod line;
pub mod protocol;
pub mod session;
pub mod store;
pub mod transaction;

pub use store::get_result;
pub use transaction::simple_smt_transaction;
