use vstd::prelude::*;

verus! {

/// The fatal failure conditions of the policy-session engine.
///
/// Every abort path of the engine carries one of these; none is silently
/// swallowed, and every abort leaves the local state record unchanged so
/// that re-running the same command is a safe retry.
#[derive(Clone, Copy, Debug, PartialEq, Eq, Structural)]
pub enum PolicyError {
    /// The persisted local record exists but cannot be decoded.
    CorruptState,
    /// A template referenced a field that the bindings do not define,
    /// or a placeholder was left unclosed.
    TemplateError,
    /// A remote session was read but failed verification.
    SessionVerifyFailed,
    /// A rendered document failed the remote dry-run check.
    TemplateInvalid,
    /// The remote store rejected the create/update commit.
    SessionCreateFailed,
    /// The attestation measurement of the target binary could not be taken.
    MeasurementFailed,
}

} // verus!
