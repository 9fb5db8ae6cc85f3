//! Error kinds of the join-request lifecycle.
//!
//! `NotFound` is a normal control-flow outcome (the request was
//! already resolved by a concurrent actor) and is never escalated;
//! the other kinds are surfaced to the caller.

use vstd::prelude::*;

verus! {

/// Which membership-transport side effect failed after the key had
/// already been won.  The registry state is never reverted on such a
/// failure: once `take` succeeds the key is permanently resolved.
#[derive(Clone, Copy, PartialEq, Eq, Debug)]
pub enum SideEffect {
    /// Muting the subject on join.
    Mute,
    /// Sending the verification prompt.
    SendPrompt,
    /// Restoring the subject's permissions after a successful proof.
    RestorePermissions,
    /// Removing the subject when the deadline expired.
    RemoveSubject,
    /// Deleting the verification prompt on resolution.
    DeletePrompt,
}

/// Why the external proof-verification provider declined a proof.
/// `AlreadyUsed` must reach the front end as a distinct outcome so
/// it can render a "you can't verify twice" message rather than a
/// generic failure.
#[derive(Clone, Copy, PartialEq, Eq, Debug)]
pub enum ProviderRejection {
    /// The proof itself did not verify.
    InvalidProof,
    /// The proof was valid but had already been used, or its quota
    /// was exceeded.
    AlreadyUsed,
}

/// The error kinds of the core.
#[derive(Clone, Copy, PartialEq, Eq, Debug)]
pub enum GateError {
    /// An insert collided with a key that is already pending: an
    /// ordering error of the caller; the request is dropped.
    DuplicateKey,
    /// The key was absent at take or peek time: the request was
    /// already resolved (or never existed).
    NotFound,
    /// A membership-transport call failed after a successful take.
    SideEffectFailure(SideEffect),
    /// The verification provider declined the proof.
    ProviderRejected(ProviderRejection),
}

} // verus!
