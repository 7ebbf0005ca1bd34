use vstd::prelude::*;

verus! {

/// Why promoting or demoting a thread failed.
#[derive(Clone, Copy, Debug, PartialEq, Eq, Structural)]
pub enum RtError {
    /// Reading the thread's scheduling policy and parameters failed.
    Query,
    /// A property read from the broker failed, was not an integer, or was negative.
    BrokerQuery,
    /// The broker did not answer in time.
    BrokerTimeout,
    /// The process's real-time CPU-time limit could not be read.
    LimitQuery,
    /// The process's real-time CPU-time limit could not be set.
    LimitSet,
    /// The broker refused to promote the thread.
    PromotionDenied,
    /// Restoring the thread's scheduling policy and parameters failed.
    Demotion,
    /// The handle was made in another process, where its thread handle means nothing.
    ForeignProcess,
    /// The calling thread is not the thread that the handle describes.
    IdentityMismatch,
}

} // verus!
