use vstd::prelude::*;

verus! {

/// Why the contract refused a request.
#[derive(Clone, Copy, Debug, PartialEq, Eq, Structural)]
pub enum AidError {
    /// A non-positive amount, or an expiry that is not in the future.
    InvalidArgument,
    /// The caller is not the party the request needs.
    Unauthorized,
    /// A refund before the aid's expiry.
    NotExpiredYet,
    /// A refund of an aid that was already refunded.
    AlreadyRefunded,
    /// A claim of an aid that is no longer open, or a refund of an aid that
    /// was claimed.
    AlreadyClaimed,
    /// A claim at or after the aid's expiry.
    Expired,
    /// A claim while the contract is paused.
    Paused,
}

} // verus!
