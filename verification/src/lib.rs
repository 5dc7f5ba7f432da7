//! A cooperative, interrupt-driven task runtime for small machines: a
//! scheduler over fixed task slots, a timer service on a wrapping
//! monotonic clock, and the primitives by which tasks hand values to each
//! other and wake each other.
//!
//! Nothing here blocks, and nothing is allocated once the parts are set
//! up: every capacity is fixed at construction. A suspended computation
//! is an explicit state machine that is resumed by a call and answers
//! whether it is done or has to wait. A primitive that has to wake
//! somebody hands the wakers back to its caller, who hands them to the
//! scheduler. The clock is an argument: whoever drives the runtime reads
//! it and passes the reading in.
//!
//! The parts, leaves first:
//!
//! - [`time`]: instants and durations in ticks, compared modulo 2^64.
//! - [`task`]: wakers, the answer of a poll, and what a task's turn
//!   leaves for its surroundings.
//! - [`ring`]: the bounded queue that the others are built on.
//! - [`executor`] and [`context`]: the run queue of one execution
//!   context, and the set of contexts with their cores and priorities.
//! - [`timer`] and [`delay`]: the pending deadlines, and the one-shot
//!   timer and the ticker that register with them.
//! - [`signal`], [`watch`], [`pubsub`], [`edge`]: the suspension sources.
//! - [`timeout`]: races between two sources, with cancellation.
//! - [`runtime`]: the two halves of a run loop's pass.
//! - [`handshake`], [`broadcast`], [`preempt`], [`periodic`]: four small
//!   programs, each a set of task state machines and the pass of their
//!   run loop.
//!
//! Every type has a view, a plain mathematical value, and every operation
//! is specified as a function on views; the laws of the primitives are
//! stated and proved over those functions.

pub mod broadcast;
pub mod context;
pub mod delay;
pub mod edge;
pub mod error;
pub mod executor;
pub mod handshake;
pub mod periodic;
pub mod preempt;
pub mod pubsub;
pub mod ring;
pub mod runtime;
mod seqs;
pub mod signal;
pub mod task;
pub mod time;
pub mod timeout;
pub mod timer;
pub mod watch;
