use vstd::prelude::*;

use crate::address::Addr;

verus! {

/// Lifecycle of an aid record.
#[derive(Clone, Copy, Debug, PartialEq, Eq, Structural)]
pub enum AidStatus {
    Created,
    Claimed,
    Settled,
    Refunded,
}

/// The number under which a status is stored: `Created` 0, `Claimed` 1,
/// `Settled` 2, `Refunded` 3.
pub open spec fn status_code(s: AidStatus) -> u32 {
    match s {
        AidStatus::Created => 0,
        AidStatus::Claimed => 1,
        AidStatus::Settled => 2,
        AidStatus::Refunded => 3,
    }
}

impl AidStatus {
    /// The stored number of this status.
    pub fn code(&self) -> (c: u32)
        ensures
            c == status_code(*self),
    {
        match self {
            AidStatus::Created => 0,
            AidStatus::Claimed => 1,
            AidStatus::Settled => 2,
            AidStatus::Refunded => 3,
        }
    }

    /// The status stored under `value`; only the four numbers `0..=3` name a
    /// status.
    pub fn from(value: u32) -> (s: AidStatus)
        requires
            value <= 3,
        ensures
            status_code(s) == value,
    {
        if value == 0 {
            AidStatus::Created
        } else if value == 1 {
            AidStatus::Claimed
        } else if value == 2 {
            AidStatus::Settled
        } else {
            AidStatus::Refunded
        }
    }
}

/// Each status has its own number, and the numbers are `0..=3`: so
/// `AidStatus::from` undoes `code`.
pub proof fn status_codes_are_distinct(s: AidStatus, t: AidStatus)
    ensures
        status_code(s) <= 3,
        status_code(s) == status_code(t) ==> s == t,
{
}

/// Everything stored about one aid.
#[derive(Clone, Copy, Debug, PartialEq, Eq)]
pub struct AidRecord {
    pub id: u64,
    pub donor: Addr,
    pub recipient: Addr,
    pub amount: i128,
    pub status: AidStatus,
    /// Ledger position at which the aid was created.
    pub timestamp: u64,
    /// Ledger position from which the aid can no longer be claimed and can
    /// be refunded.
    pub expiry: u64,
}

/// Limits attached to a claimable aid: an optional hash that a claim must
/// present, how many claims are allowed and used, and when claiming ends.
#[derive(Clone, Copy, Debug, PartialEq, Eq)]
pub struct AidClaimMetadata {
    pub claim_hash: Option<[u8; 32]>,
    pub max_claims: u32,
    pub claims_used: u32,
    pub expires_at: u64,
}

} // verus!
