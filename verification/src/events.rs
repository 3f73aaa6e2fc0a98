use vstd::prelude::*;

use crate::address::Addr;

verus! {

/// Single-topic names of the earlier event scheme, kept so that listeners
/// of that scheme keep working.
pub const AID_CREATED: &'static str = "aid_crt";
pub const AID_CLAIMED: &'static str = "aid_clm";
pub const AID_SETTLED: &'static str = "aid_stl";
pub const AID_REFUNDED: &'static str = "aid_ref";
pub const COMMISSION_PAID: &'static str = "com_paid";
pub const REFERRAL_ACCRUED: &'static str = "ref_acc";
pub const REFERRER_SET: &'static str = "ref_set";
pub const TIER_CONFIG_SET: &'static str = "tier_cfg";
pub const TREASURY_SET: &'static str = "trs_set";
pub const TREASURY_DEPOSIT: &'static str = "t_dep";
pub const TREASURY_WITHDRAW: &'static str = "t_wdw";
pub const TREASURY_EMERGENCY_WITHDRAW: &'static str = "t_emrg";
pub const PARAMETER_CHANGED: &'static str = "param_chg";
pub const CONTRACT_PAUSED: &'static str = "paused";
pub const CONTRACT_RESUMED: &'static str = "resumed";
pub const CONTRACT_UPGRADED: &'static str = "upgraded";

/// The data that an event carries, one variant per shape.
#[derive(Clone, Debug, PartialEq, Eq)]
pub enum EventData {
    /// `(aid_id, donor, recipient, amount, created_at, expires_at)`
    AidCreated {
        aid_id: u64,
        donor: Addr,
        recipient: Addr,
        amount: i128,
        created_at: u64,
        expires_at: u64,
    },
    /// `(aid_id, claimant, claimed_at)`
    AidClaimed { aid_id: u64, claimant: Addr, claimed_at: u64 },
    /// `(aid_id, recipient, amount, settled_at)`
    AidSettled { aid_id: u64, recipient: Addr, amount: i128, settled_at: u64 },
    /// `(aid_id, donor, amount, refunded_at)`
    AidRefunded { aid_id: u64, donor: Addr, amount: i128, refunded_at: u64 },
    /// `(recipient, amount, paid_at)`
    CommissionPaid { recipient: Addr, amount: i128, paid_at: u64 },
    /// `(category, depositor, amount, new_balance)`
    TreasuryDeposit { category: String, depositor: Addr, amount: i128, new_balance: i128 },
    /// `(category, recipient, amount, remaining_balance)`
    TreasuryWithdrawal {
        category: String,
        recipient: Addr,
        amount: i128,
        remaining_balance: i128,
    },
    /// `(actor, paused_at)`
    ContractPaused { actor: Addr, paused_at: u64 },
    /// `(actor, resumed_at)`
    ContractResumed { actor: Addr, resumed_at: u64 },
    /// `(actor, wasm_hash, upgraded_at)`
    ContractUpgraded { actor: Addr, wasm_hash: [u8; 32], upgraded_at: u64 },
    /// `(aid_id, party)`
    AidParty { aid_id: u64, party: Addr },
    /// `(aid_id, party, amount)`
    AidPayment { aid_id: u64, party: Addr, amount: i128 },
}

/// An event to publish: its topics, as symbol texts, and its data.
#[derive(Clone, Debug, PartialEq, Eq)]
pub struct Event {
    pub topics: Vec<String>,
    pub data: EventData,
}

/// The texts of a list of topics.
pub open spec fn texts(topics: Seq<String>) -> Seq<Seq<char>> {
    topics.map_values(|s: String| s@)
}

/// Whether `e` has exactly the topics `topics` and the data `data`.
pub open spec fn event_is(e: Event, topics: Seq<Seq<char>>, data: EventData) -> bool {
    &&& texts(e.topics@) == topics
    &&& e.data == data
}

fn two_topics(first: &str, second: &str) -> (v: Vec<String>)
    ensures
        texts(v@) == seq![first@, second@],
{
    let mut v: Vec<String> = Vec::new();
    v.push(first.to_owned());
    v.push(second.to_owned());
    assert(texts(v@) =~= seq![first@, second@]);
    v
}

/// The event `("aid", "created")`.
pub fn emit_aid_created(
    aid_id: u64,
    donor: &Addr,
    recipient: &Addr,
    amount: i128,
    created_at: u64,
    expires_at: u64,
) -> (e: Event)
    ensures
        event_is(
            e,
            seq!["aid"@, "created"@],
            EventData::AidCreated {
                aid_id,
                donor: *donor,
                recipient: *recipient,
                amount,
                created_at,
                expires_at,
            },
        ),
{
    Event {
        topics: two_topics("aid", "created"),
        data: EventData::AidCreated {
            aid_id,
            donor: *donor,
            recipient: *recipient,
            amount,
            created_at,
            expires_at,
        },
    }
}

/// The event `("aid", "claimed")`.
pub fn emit_aid_claimed(aid_id: u64, claimant: &Addr, claimed_at: u64) -> (e: Event)
    ensures
        event_is(
            e,
            seq!["aid"@, "claimed"@],
            EventData::AidClaimed { aid_id, claimant: *claimant, claimed_at },
        ),
{
    Event {
        topics: two_topics("aid", "claimed"),
        data: EventData::AidClaimed { aid_id, claimant: *claimant, claimed_at },
    }
}

/// The event `("aid", "settled")`.
pub fn emit_aid_settled(aid_id: u64, recipient: &Addr, amount: i128, settled_at: u64) -> (e: Event)
    ensures
        event_is(
            e,
            seq!["aid"@, "settled"@],
            EventData::AidSettled { aid_id, recipient: *recipient, amount, settled_at },
        ),
{
    Event {
        topics: two_topics("aid", "settled"),
        data: EventData::AidSettled { aid_id, recipient: *recipient, amount, settled_at },
    }
}

/// The event `("aid", "refunded")`.
pub fn emit_aid_refunded(aid_id: u64, donor: &Addr, amount: i128, refunded_at: u64) -> (e: Event)
    ensures
        event_is(
            e,
            seq!["aid"@, "refunded"@],
            EventData::AidRefunded { aid_id, donor: *donor, amount, refunded_at },
        ),
{
    Event {
        topics: two_topics("aid", "refunded"),
        data: EventData::AidRefunded { aid_id, donor: *donor, amount, refunded_at },
    }
}

/// The event `("comm", "paid")`.
pub fn emit_commission_paid(recipient: &Addr, amount: i128, paid_at: u64) -> (e: Event)
    ensures
        event_is(
            e,
            seq!["comm"@, "paid"@],
            EventData::CommissionPaid { recipient: *recipient, amount, paid_at },
        ),
{
    Event {
        topics: two_topics("comm", "paid"),
        data: EventData::CommissionPaid { recipient: *recipient, amount, paid_at },
    }
}

/// The event `("treasury", "deposit")`.
pub fn emit_treasury_deposit(category: &str, depositor: &Addr, amount: i128, new_balance: i128) -> (e: Event)
    ensures
        texts(e.topics@) == seq!["treasury"@, "deposit"@],
        e.data matches EventData::TreasuryDeposit { category: c, depositor: d, amount: a, new_balance: b }
            && c@ == category@ && d == *depositor && a == amount && b == new_balance,
{
    Event {
        topics: two_topics("treasury", "deposit"),
        data: EventData::TreasuryDeposit {
            category: category.to_owned(),
            depositor: *depositor,
            amount,
            new_balance,
        },
    }
}

/// The event `("treasury", "withdraw")`.
pub fn emit_treasury_withdrawal(
    category: &str,
    recipient: &Addr,
    amount: i128,
    remaining_balance: i128,
) -> (e: Event)
    ensures
        texts(e.topics@) == seq!["treasury"@, "withdraw"@],
        e.data matches EventData::TreasuryWithdrawal { category: c, recipient: r, amount: a, remaining_balance: b }
            && c@ == category@ && r == *recipient && a == amount && b == remaining_balance,
{
    Event {
        topics: two_topics("treasury", "withdraw"),
        data: EventData::TreasuryWithdrawal {
            category: category.to_owned(),
            recipient: *recipient,
            amount,
            remaining_balance,
        },
    }
}

/// The event `("contract", "paused")`.
pub fn emit_contract_paused(actor: &Addr, paused_at: u64) -> (e: Event)
    ensures
        event_is(
            e,
            seq!["contract"@, "paused"@],
            EventData::ContractPaused { actor: *actor, paused_at },
        ),
{
    Event {
        topics: two_topics("contract", "paused"),
        data: EventData::ContractPaused { actor: *actor, paused_at },
    }
}

/// The event `("contract", "resumed")`.
pub fn emit_contract_resumed(actor: &Addr, resumed_at: u64) -> (e: Event)
    ensures
        event_is(
            e,
            seq!["contract"@, "resumed"@],
            EventData::ContractResumed { actor: *actor, resumed_at },
        ),
{
    Event {
        topics: two_topics("contract", "resumed"),
        data: EventData::ContractResumed { actor: *actor, resumed_at },
    }
}

/// The event `("contract", "upgraded")`.
pub fn emit_contract_upgraded(actor: &Addr, wasm_hash: &[u8; 32], upgraded_at: u64) -> (e: Event)
    ensures
        event_is(
            e,
            seq!["contract"@, "upgraded"@],
            EventData::ContractUpgraded { actor: *actor, wasm_hash: *wasm_hash, upgraded_at },
        ),
{
    Event {
        topics: two_topics("contract", "upgraded"),
        data: EventData::ContractUpgraded { actor: *actor, wasm_hash: *wasm_hash, upgraded_at },
    }
}

/// An event of the earlier scheme: the single topic `topic` and `data`.
/// New events should use one of the typed constructors above.
pub fn emit(topic: &str, data: EventData) -> (e: Event)
    ensures
        texts(e.topics@) == seq![topic@],
        e.data == data,
{
    let mut topics: Vec<String> = Vec::new();
    topics.push(topic.to_owned());
    assert(texts(topics@) =~= seq![topic@]);
    Event { topics, data }
}

} // verus!
