//! The command layer of an asynchronous database wire-protocol client that
//! handles the server's mid-command request for externally supplied file
//! content during a bulk-load command.
//!
//! The protocol decisions live in a verified state machine
//! ([`routine::LoadDataMachine`]): a host driver performs each requested
//! [`routine::Action`] on its connection and chunk source and feeds the
//! outcome back as an [`routine::Event`]. The [`laws`] module proves the
//! wire-level guarantees of whole exchanges over that machine.

pub mod laws;
pub mod routine;

pub use routine::Action;
pub use routine::Event;
pub use routine::LoadDataMachine;
pub use routine::ResultSummary;
pub use routine::RoutineError;
pub use routine::State;
