//! Properties of the contract that span several requests.

use vstd::prelude::*;

use crate::address::Addr;
use crate::aid::AidStatus;
use crate::contract::ContractModel;
use crate::errors::AidError;

verus! {

/// Every stored id is at most the id handed out last, so the next id is
/// free.
pub open spec fn ids_within_counter(m: ContractModel) -> bool {
    forall|k: u64| #[trigger] m.aids.contains_key(k) ==> k <= m.aid_counter
}

/// At no ledger position can an aid be both claimable and refundable: a
/// claim needs a position before the expiry, a refund one at or after it.
pub proof fn claim_and_refund_windows_are_disjoint(
    m: ContractModel,
    aid_id: u64,
    recipient: Addr,
    caller: Addr,
    now: u64,
)
    ensures
        !(m.claim_check(aid_id, recipient, now) is None && m.refund_check(caller, aid_id, now) is None),
{
}

/// An aid that is no longer open (claimed, settled or refunded) can be
/// neither claimed nor refunded again: its funds leave the escrow at most
/// once.
pub proof fn closed_aid_pays_out_no_more(
    m: ContractModel,
    aid_id: u64,
    recipient: Addr,
    caller: Addr,
    now: u64,
)
    requires
        m.aids.contains_key(aid_id),
        m.aids[aid_id].status != AidStatus::Created,
    ensures
        m.claim_check(aid_id, recipient, now) is Some,
        m.refund_check(caller, aid_id, now) is Some,
{
}

/// After an accepted claim, a second claim is refused, with
/// `AlreadyClaimed` where only the aid's state stands in the way; a refund
/// is refused too, with `AlreadyClaimed` where the caller may refund and the
/// expiry has passed.
pub proof fn claimed_aid_rejects_claim_and_refund(
    m: ContractModel,
    aid_id: u64,
    recipient: Addr,
    now: u64,
    recipient2: Addr,
    caller: Addr,
    later: u64,
)
    requires
        m.aids.contains_key(aid_id),
        m.claim_check(aid_id, recipient, now) is None,
    ensures
        ({
            let after = m.with_status(aid_id, AidStatus::Settled);
            &&& after.claim_check(aid_id, recipient2, later) is Some
            &&& (!after.paused && recipient2@ == recipient@ && later < m.aids[aid_id].expiry)
                ==> after.claim_check(aid_id, recipient2, later) == Some(AidError::AlreadyClaimed)
            &&& after.refund_check(caller, aid_id, later) is Some
            &&& (m.may_refund(caller, m.aids[aid_id]) && later >= m.aids[aid_id].expiry)
                ==> after.refund_check(caller, aid_id, later) == Some(AidError::AlreadyClaimed)
        }),
{
}

/// After an accepted refund, a second refund by a caller who may refund,
/// at or after the expiry, is refused with `AlreadyRefunded`, and no claim
/// is accepted.
pub proof fn refunded_aid_rejects_refund_and_claim(
    m: ContractModel,
    aid_id: u64,
    caller: Addr,
    now: u64,
    caller2: Addr,
    recipient: Addr,
    later: u64,
)
    requires
        m.aids.contains_key(aid_id),
        m.refund_check(caller, aid_id, now) is None,
    ensures
        ({
            let after = m.with_status(aid_id, AidStatus::Refunded);
            &&& after.refund_check(caller2, aid_id, later) is Some
            &&& (m.may_refund(caller2, m.aids[aid_id]) && later >= m.aids[aid_id].expiry)
                ==> after.refund_check(caller2, aid_id, later) == Some(AidError::AlreadyRefunded)
            &&& after.claim_check(aid_id, recipient, later) is Some
        }),
{
}

/// A freshly created aid can be claimed by its recipient at any ledger
/// position before its expiry while the contract is not paused, and the
/// claim pays out the escrowed amount.
pub proof fn created_aid_is_claimable_before_expiry(
    m: ContractModel,
    donor: Addr,
    recipient: Addr,
    amount: i128,
    expiry: u64,
    now: u64,
    later: u64,
)
    requires
        m.create_check(amount, expiry, now) is None,
        m.aid_counter < u64::MAX,
        !m.paused,
        later < expiry,
    ensures
        ({
            let after = m.after_create(donor, recipient, amount, expiry, now);
            let id = (m.aid_counter + 1) as u64;
            &&& after.aids.contains_key(id)
            &&& after.aids[id].amount == amount
            &&& after.claim_check(id, recipient, later) is None
        }),
{
}

/// A freshly created aid can be refunded, at or after its expiry, by its
/// donor or the administrator, and the refund returns the escrowed amount
/// to the donor; pausing does not stop it.
pub proof fn created_aid_is_refundable_after_expiry(
    m: ContractModel,
    donor: Addr,
    recipient: Addr,
    amount: i128,
    expiry: u64,
    now: u64,
    caller: Addr,
    later: u64,
)
    requires
        m.create_check(amount, expiry, now) is None,
        m.aid_counter < u64::MAX,
        caller@ == donor@ || (m.admin matches Some(a) && a@ == caller@),
        later >= expiry,
    ensures
        ({
            let after = m.after_create(donor, recipient, amount, expiry, now);
            let id = (m.aid_counter + 1) as u64;
            &&& after.aids[id].donor == donor
            &&& after.aids[id].amount == amount
            &&& after.refund_check(caller, id, later) is None
        }),
{
}

/// Pausing the contract blocks claims and nothing else that a refund
/// depends on.
pub proof fn pause_leaves_refunds_alone(m: ContractModel, paused: bool, caller: Addr, aid_id: u64, now: u64)
    ensures
        (ContractModel { paused, ..m }).refund_check(caller, aid_id, now) == m.refund_check(
            caller,
            aid_id,
            now,
        ),
        (ContractModel { paused: true, ..m }).claim_check(aid_id, caller, now) == Some(
            AidError::Paused,
        ),
{
}

/// While every stored id is at most the counter (which holds from the
/// empty storage on, until `initialize` restarts the counter over stored
/// aids), a creation takes a fresh id, leaves every stored record as it
/// was, and keeps the property; claims, refunds and pausing keep it too.
pub proof fn creation_never_overwrites(
    m: ContractModel,
    donor: Addr,
    recipient: Addr,
    amount: i128,
    expiry: u64,
    now: u64,
    aid_id: u64,
    status: AidStatus,
    paused: bool,
)
    requires
        ids_within_counter(m),
        m.aid_counter < u64::MAX,
    ensures
        ({
            let after = m.after_create(donor, recipient, amount, expiry, now);
            &&& !m.aids.contains_key((m.aid_counter + 1) as u64)
            &&& forall|k: u64| #[trigger] m.aids.contains_key(k) ==> after.aids.contains_key(k)
                && after.aids[k] == m.aids[k]
            &&& after.aid_counter > m.aid_counter
            &&& ids_within_counter(after)
        }),
        m.aids.contains_key(aid_id) ==> ids_within_counter(m.with_status(aid_id, status)),
        ids_within_counter(ContractModel { paused, ..m }),
{
    let after = m.after_create(donor, recipient, amount, expiry, now);
    assert forall|k: u64| #[trigger] after.aids.contains_key(k) implies k <= after.aid_counter by {
        if k != after.aid_counter {
            assert(m.aids.contains_key(k));
        }
    }
    if m.aids.contains_key(aid_id) {
        let w = m.with_status(aid_id, status);
        assert forall|k: u64| #[trigger] w.aids.contains_key(k) implies k <= w.aid_counter by {
            assert(m.aids.contains_key(k));
        }
    }
}

/// A creation is accepted exactly when its amount is positive and its
/// expiry lies after the current ledger position, whatever the size of the
/// amount, how far off the expiry is, or what the storage holds.
pub proof fn creation_accepted_exactly_for_positive_amount_and_future_expiry(
    m: ContractModel,
    other: ContractModel,
    amount: i128,
    expiry: u64,
    now: u64,
)
    ensures
        m.create_check(amount, expiry, now) is None <==> (amount > 0 && expiry > now),
        m.create_check(amount, expiry, now) is Some ==> m.create_check(amount, expiry, now)
            == Some(AidError::InvalidArgument),
        m.create_check(amount, expiry, now) == other.create_check(amount, expiry, now),
{
}

/// A claim is accepted exactly when the contract is not paused, the caller
/// is the aid's recipient, the expiry has not been reached and the aid is
/// still open; each refusal names the first of these that fails.
pub proof fn claim_accepted_exactly_when_open_for_its_recipient(
    m: ContractModel,
    aid_id: u64,
    recipient: Addr,
    now: u64,
)
    ensures
        m.claim_check(aid_id, recipient, now) is None <==> {
            &&& !m.paused
            &&& recipient@ == m.aids[aid_id].recipient@
            &&& now < m.aids[aid_id].expiry
            &&& m.aids[aid_id].status == AidStatus::Created
        },
        m.paused ==> m.claim_check(aid_id, recipient, now) == Some(AidError::Paused),
        (!m.paused && recipient@ != m.aids[aid_id].recipient@) ==> m.claim_check(
            aid_id,
            recipient,
            now,
        ) == Some(AidError::Unauthorized),
        (!m.paused && recipient@ == m.aids[aid_id].recipient@ && now >= m.aids[aid_id].expiry)
            ==> m.claim_check(aid_id, recipient, now) == Some(AidError::Expired),
        (!m.paused && recipient@ == m.aids[aid_id].recipient@ && now < m.aids[aid_id].expiry
            && m.aids[aid_id].status != AidStatus::Created) ==> m.claim_check(
            aid_id,
            recipient,
            now,
        ) == Some(AidError::AlreadyClaimed),
{
}

/// The outcome of a claim depends only on the pause flag and the claimed
/// record: other records, the id counter, the token and the administrator
/// play no part.
pub proof fn claim_depends_only_on_pause_and_its_record(
    m: ContractModel,
    other: ContractModel,
    aid_id: u64,
    recipient: Addr,
    now: u64,
)
    requires
        m.paused == other.paused,
        m.aids[aid_id] == other.aids[aid_id],
    ensures
        m.claim_check(aid_id, recipient, now) == other.claim_check(aid_id, recipient, now),
{
}

/// A refund is accepted exactly when the caller is the aid's donor or the
/// administrator, the expiry has been reached and the aid is still open;
/// each refusal names the first of these that fails.
pub proof fn refund_accepted_exactly_when_expired_and_open_for_donor_or_admin(
    m: ContractModel,
    caller: Addr,
    aid_id: u64,
    now: u64,
)
    ensures
        m.refund_check(caller, aid_id, now) is None <==> {
            &&& (caller@ == m.aids[aid_id].donor@ || (m.admin matches Some(a) && a@ == caller@))
            &&& now >= m.aids[aid_id].expiry
            &&& m.aids[aid_id].status == AidStatus::Created
        },
        !(caller@ == m.aids[aid_id].donor@ || (m.admin matches Some(a) && a@ == caller@)) ==> m.refund_check(
            caller,
            aid_id,
            now,
        ) == Some(AidError::Unauthorized),
        ((caller@ == m.aids[aid_id].donor@ || (m.admin matches Some(a) && a@ == caller@)) && now
            < m.aids[aid_id].expiry) ==> m.refund_check(caller, aid_id, now) == Some(
            AidError::NotExpiredYet,
        ),
        ((caller@ == m.aids[aid_id].donor@ || (m.admin matches Some(a) && a@ == caller@)) && now
            >= m.aids[aid_id].expiry && m.aids[aid_id].status == AidStatus::Refunded)
            ==> m.refund_check(caller, aid_id, now) == Some(AidError::AlreadyRefunded),
        ((caller@ == m.aids[aid_id].donor@ || (m.admin matches Some(a) && a@ == caller@)) && now
            >= m.aids[aid_id].expiry && (m.aids[aid_id].status == AidStatus::Claimed
            || m.aids[aid_id].status == AidStatus::Settled)) ==> m.refund_check(caller, aid_id, now)
            == Some(AidError::AlreadyClaimed),
{
}

/// The outcome of a refund depends only on the administrator and the
/// refunded record: other records, the id counter, the token and the pause
/// flag play no part.
pub proof fn refund_depends_only_on_admin_and_its_record(
    m: ContractModel,
    other: ContractModel,
    caller: Addr,
    aid_id: u64,
    now: u64,
)
    requires
        m.admin == other.admin,
        m.aids[aid_id] == other.aids[aid_id],
    ensures
        m.refund_check(caller, aid_id, now) == other.refund_check(caller, aid_id, now),
{
}

/// Creating an aid changes neither the claim nor the refund outcome of any
/// aid already stored.
pub proof fn creation_leaves_existing_outcomes_alone(
    m: ContractModel,
    donor: Addr,
    recipient: Addr,
    amount: i128,
    expiry: u64,
    now: u64,
    aid_id: u64,
    who: Addr,
    later: u64,
)
    requires
        ids_within_counter(m),
        m.aid_counter < u64::MAX,
        m.aids.contains_key(aid_id),
    ensures
        ({
            let after = m.after_create(donor, recipient, amount, expiry, now);
            &&& after.claim_check(aid_id, who, later) == m.claim_check(aid_id, who, later)
            &&& after.refund_check(who, aid_id, later) == m.refund_check(who, aid_id, later)
        }),
{
    let after = m.after_create(donor, recipient, amount, expiry, now);
    assert(aid_id != (m.aid_counter + 1) as u64);
    assert(after.aids[aid_id] == m.aids[aid_id]);
}

} // verus!
