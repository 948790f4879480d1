use vstd::prelude::*;

verus! {

/// Which access to the real-time runtime limit failed.
#[derive(Clone, Copy, Debug, PartialEq, Eq, Structural)]
pub enum LimitAccess {
    /// Reading the current soft and hard values.
    Read,
    /// Writing new soft and hard values.
    Write,
}

/// Why a promotion or a demotion did not take place.
#[derive(Clone, Copy, Debug, PartialEq, Eq, Structural)]
pub enum AudioThreadPriorityError {
    /// The elevation authority could not be reached.
    ServiceUnavailable,
    /// A limit of the elevation service could not be read.
    PropertyUnavailable,
    /// A limit of the elevation service is not an integer.
    TypeMismatch,
    /// The runtime limit of the process could not be read or written.
    ResourceLimitError(LimitAccess),
    /// The elevation authority refused the request.
    PromotionDenied,
    /// The elevation authority did not answer in time, or the connection broke.
    ServiceTimeout,
    /// The scheduling state of the thread could not be read.
    QueryError,
    /// The earlier scheduling state could not be put back.
    RestoreError,
    /// A handle was given back on another thread than the one that was promoted.
    ThreadIdentityMismatch,
}

} // verus!
