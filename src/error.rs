//! Errors of the account operations.

use vstd::prelude::*;

use crate::verify::VerifyVariant;

verus! {

/// What can go wrong in an account operation.
#[derive(Debug, Clone, Copy, PartialEq, Eq, Structural)]
pub enum Error {
    /// The email address does not belong to an allowed domain.
    InvalidEmail,
    /// The stored email address cannot be used as a mail recipient.
    InvalidAddress,
    /// A session was requested again before the cooldown elapsed. The time
    /// of the last accepted request gives the remaining wait.
    Throttled { last_request_at: u64 },
    /// No verification session of this variant is pending.
    VerifySessionNotFound(VerifyVariant),
    /// The captcha does not match the pending session's one.
    CaptchaIncorrect,
    /// A stored record has a schema version this library cannot read.
    UnsupportedSchemaVersion(u32),
}

} // verus!
