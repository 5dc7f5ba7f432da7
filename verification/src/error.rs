//! Errors of the runtime. All of them are structural: a fixed limit of the
//! static configuration was passed, or a resource with one owner was used
//! by two. None is transient, and none is worth a retry.

use vstd::prelude::*;

verus! {

/// The kinds of fixed-size resource that can run out.
#[derive(Clone, Copy, Debug, PartialEq, Eq, Structural)]
pub enum Resource {
    /// Task slots of an execution context.
    TaskSlots,
    /// Pending deadlines of the timer service.
    Timers,
    /// Receivers of a watch.
    Receivers,
    /// Subscribers of a publish/subscribe channel.
    Subscribers,
    /// Publishers of a publish/subscribe channel.
    Publishers,
}

#[derive(Clone, Copy, Debug, PartialEq, Eq, Structural)]
pub enum Error {
    /// A fixed limit was reached; `limit` is that limit.
    CapacityExceeded { resource: Resource, limit: usize },
    /// The task slot is already in use.
    AlreadySpawned { slot: usize },
    /// A second task waited on a primitive that supports one waiter.
    DoubleWait,
}

} // verus!
