//! Core mechanisms of a level-editor build mode: a throttled, cancellable
//! action dispatcher that turns a rapid stream of local edit values into
//! rate-limited, undoable network intent submissions, and a target resolution
//! loop that keeps the set of selected, still-existing entities consistent
//! with a concurrently mutating world mirror.
//!
//! The library holds the state machines and their proofs; an embedding is
//! expected to supply the asynchronous plumbing around them (timers, the
//! network client, the widget tree) and to drive the machines with plain
//! values.

pub mod channel;
pub mod correlation;
pub mod dispatcher;
pub mod mode;
pub mod resolve;
