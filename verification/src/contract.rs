use vstd::prelude::*;

use std::collections::BTreeMap;

use crate::address::Addr;
use crate::aid::{AidRecord, AidStatus};
use crate::errors::AidError;
use crate::events::{emit, event_is, Event, EventData, AID_CREATED};

verus! {

broadcast use {vstd::std_specs::btree::group_btree_axioms, vstd::laws_cmp::group_laws_cmp};

/// A movement of `amount` units of the token `token` from `from` to `to`.
#[derive(Clone, Copy, Debug, PartialEq, Eq)]
pub struct Transfer {
    pub token: Addr,
    pub from: Addr,
    pub to: Addr,
    pub amount: i128,
}

/// What an accepted request asks of the host: one token transfer and the
/// events to publish, in order. The host reverts the whole request when the
/// transfer fails.
#[derive(Clone, Debug, PartialEq, Eq)]
pub struct Effects {
    pub transfer: Transfer,
    pub events: Vec<Event>,
}

/// The contract's storage as a mathematical value.
pub struct ContractModel {
    /// The contract's own address, which holds the escrowed funds.
    pub address: Addr,
    pub admin: Option<Addr>,
    pub token: Option<Addr>,
    /// The id handed out last.
    pub aid_counter: u64,
    pub paused: bool,
    pub aids: Map<u64, AidRecord>,
}

impl ContractModel {
    /// Why `create_aid` refuses, if it does.
    pub open spec fn create_check(self, amount: i128, expiry: u64, now: u64) -> Option<AidError> {
        if amount <= 0 || expiry <= now {
            Some(AidError::InvalidArgument)
        } else {
            None
        }
    }

    /// The record that `create_aid` stores.
    pub open spec fn new_record(
        self,
        donor: Addr,
        recipient: Addr,
        amount: i128,
        expiry: u64,
        now: u64,
    ) -> AidRecord {
        AidRecord {
            id: (self.aid_counter + 1) as u64,
            donor,
            recipient,
            amount,
            status: AidStatus::Created,
            timestamp: now,
            expiry,
        }
    }

    /// The storage after an accepted `create_aid`.
    pub open spec fn after_create(
        self,
        donor: Addr,
        recipient: Addr,
        amount: i128,
        expiry: u64,
        now: u64,
    ) -> ContractModel {
        let rec = self.new_record(donor, recipient, amount, expiry, now);
        ContractModel { aid_counter: rec.id, aids: self.aids.insert(rec.id, rec), ..self }
    }

    /// Why `claim_aid` refuses, if it does.
    pub open spec fn claim_check(self, aid_id: u64, recipient: Addr, now: u64) -> Option<AidError> {
        if self.paused {
            Some(AidError::Paused)
        } else if self.aids[aid_id].recipient@ != recipient@ {
            Some(AidError::Unauthorized)
        } else if now >= self.aids[aid_id].expiry {
            Some(AidError::Expired)
        } else if self.aids[aid_id].status != AidStatus::Created {
            Some(AidError::AlreadyClaimed)
        } else {
            None
        }
    }

    /// Whether `caller` may ask for the refund of `rec`: its donor or the
    /// administrator.
    pub open spec fn may_refund(self, caller: Addr, rec: AidRecord) -> bool {
        ||| caller@ == rec.donor@
        ||| (self.admin matches Some(a) && a@ == caller@)
    }

    /// Why `refund_aid` refuses, if it does.
    pub open spec fn refund_check(self, caller: Addr, aid_id: u64, now: u64) -> Option<AidError> {
        let rec = self.aids[aid_id];
        if !self.may_refund(caller, rec) {
            Some(AidError::Unauthorized)
        } else if now < rec.expiry {
            Some(AidError::NotExpiredYet)
        } else {
            match rec.status {
                AidStatus::Created => None,
                AidStatus::Refunded => Some(AidError::AlreadyRefunded),
                _ => Some(AidError::AlreadyClaimed),
            }
        }
    }

    /// The storage with the status of aid `aid_id` set to `status`.
    pub open spec fn with_status(self, aid_id: u64, status: AidStatus) -> ContractModel {
        ContractModel {
            aids: self.aids.insert(aid_id, AidRecord { status, ..self.aids[aid_id] }),
            ..self
        }
    }
}

/// A request that changes storage, with the ledger position it is made at.
pub enum Request {
    Create { donor: Addr, recipient: Addr, amount: i128, expiry: u64, now: u64 },
    Claim { aid_id: u64, recipient: Addr, now: u64 },
    Refund { caller: Addr, aid_id: u64, now: u64 },
    SetPaused { admin: Addr, paused: bool },
}

impl ContractModel {
    /// Whether the contract can process `r` at all, rather than stop on a
    /// missing record, token or administrator, or on an exhausted id counter.
    pub open spec fn admits(self, r: Request) -> bool {
        match r {
            Request::Create { amount, expiry, now, .. } => self.create_check(amount, expiry, now)
                is None ==> (self.token is Some && self.aid_counter < u64::MAX),
            Request::Claim { aid_id, recipient, now } => {
                &&& (self.paused || self.aids.contains_key(aid_id))
                &&& self.claim_check(aid_id, recipient, now) is None ==> self.token is Some
            },
            Request::Refund { caller, aid_id, now } => {
                &&& self.aids.contains_key(aid_id)
                &&& self.refund_check(caller, aid_id, now) is None ==> self.token is Some
            },
            Request::SetPaused { .. } => self.admin is Some,
        }
    }

    /// Whether the contract accepts `r`.
    pub open spec fn accepts(self, r: Request) -> bool {
        match r {
            Request::Create { amount, expiry, now, .. } => self.create_check(amount, expiry, now)
                is None,
            Request::Claim { aid_id, recipient, now } => self.claim_check(aid_id, recipient, now)
                is None,
            Request::Refund { caller, aid_id, now } => self.refund_check(caller, aid_id, now)
                is None,
            Request::SetPaused { admin, .. } => self.admin.unwrap()@ == admin@,
        }
    }

    /// The storage after `r`: unchanged where `r` is refused.
    pub open spec fn apply(self, r: Request) -> ContractModel {
        if !self.accepts(r) {
            self
        } else {
            match r {
                Request::Create { donor, recipient, amount, expiry, now } => self.after_create(
                    donor,
                    recipient,
                    amount,
                    expiry,
                    now,
                ),
                Request::Claim { aid_id, .. } => self.with_status(aid_id, AidStatus::Settled),
                Request::Refund { aid_id, .. } => self.with_status(aid_id, AidStatus::Refunded),
                Request::SetPaused { paused, .. } => ContractModel { paused, ..self },
            }
        }
    }

    /// What `r` moves into the contract's escrow: the amount of an accepted
    /// creation, minus the amount paid out by an accepted claim or refund.
    pub open spec fn inflow(self, r: Request) -> int {
        if !self.accepts(r) {
            0
        } else {
            match r {
                Request::Create { amount, .. } => amount as int,
                Request::Claim { aid_id, .. } => -self.aids[aid_id].amount,
                Request::Refund { aid_id, .. } => -self.aids[aid_id].amount,
                Request::SetPaused { .. } => 0,
            }
        }
    }
}

/// The storage of one deployed aid contract.
pub struct AidContract {
    address: Addr,
    admin: Option<Addr>,
    token: Option<Addr>,
    aid_counter: u64,
    paused: bool,
    aids: BTreeMap<u64, AidRecord>,
}

impl View for AidContract {
    type V = ContractModel;

    closed spec fn view(&self) -> ContractModel {
        ContractModel {
            address: self.address,
            admin: self.admin,
            token: self.token,
            aid_counter: self.aid_counter,
            paused: self.paused,
            aids: self.aids@,
        }
    }
}

impl AidContract {
    /// The empty storage of a contract deployed at `address`.
    pub fn new(address: Addr) -> (c: AidContract)
        ensures
            c@ == (ContractModel {
                address,
                admin: None,
                token: None,
                aid_counter: 0,
                paused: false,
                aids: Map::empty(),
            }),
    {
        AidContract {
            address,
            admin: None,
            token: None,
            aid_counter: 0,
            paused: false,
            aids: BTreeMap::new(),
        }
    }

    /// Storage read back from the host: the given settings and no aid yet;
    /// the records a request needs are added with `load_record`.
    pub fn restore(
        address: Addr,
        admin: Option<Addr>,
        token: Option<Addr>,
        aid_counter: u64,
        paused: bool,
    ) -> (c: AidContract)
        ensures
            c@ == (ContractModel { address, admin, token, aid_counter, paused, aids: Map::empty() }),
    {
        AidContract { address, admin, token, aid_counter, paused, aids: BTreeMap::new() }
    }

    /// Puts `record` in storage under `aid_id`, replacing what was there.
    pub fn load_record(&mut self, aid_id: u64, record: AidRecord)
        ensures
            final(self)@ == (ContractModel {
                aids: old(self)@.aids.insert(aid_id, record),
                ..old(self)@
            }),
    {
        self.aids.insert(aid_id, record);
    }

    /// The contract's own address.
    pub fn address(&self) -> (a: Addr)
        ensures
            a == self@.address,
    {
        self.address
    }

    /// The administrator, once set.
    pub fn admin(&self) -> (a: Option<Addr>)
        ensures
            a == self@.admin,
    {
        self.admin
    }

    /// The token, once set.
    pub fn token(&self) -> (t: Option<Addr>)
        ensures
            t == self@.token,
    {
        self.token
    }

    /// The id handed out last.
    pub fn aid_counter(&self) -> (n: u64)
        ensures
            n == self@.aid_counter,
    {
        self.aid_counter
    }

    /// Whether claims are paused.
    pub fn is_paused(&self) -> (p: bool)
        ensures
            p == self@.paused,
    {
        self.paused
    }

    /// Sets the administrator and the token, and restarts the id counter.
    pub fn initialize(&mut self, admin: &Addr, token: &Addr)
        ensures
            final(self)@ == (ContractModel {
                admin: Some(*admin),
                token: Some(*token),
                aid_counter: 0,
                ..old(self)@
            }),
    {
        self.admin = Some(*admin);
        self.token = Some(*token);
        self.aid_counter = 0;
    }

    /// Creates an aid of `amount` from `donor` for `recipient`, open until
    /// `expiry`, at ledger position `now`; returns its id and the escrow
    /// transfer from the donor to the contract.
    pub fn create_aid(
        &mut self,
        donor: &Addr,
        recipient: &Addr,
        amount: i128,
        expiry: u64,
        now: u64,
    ) -> (r: Result<(u64, Effects), AidError>)
        requires
            old(self)@.create_check(amount, expiry, now) is None ==> {
                &&& old(self)@.token is Some
                &&& old(self)@.aid_counter < u64::MAX
            },
        ensures
            final(self)@ == old(self)@.apply(
                Request::Create { donor: *donor, recipient: *recipient, amount, expiry, now },
            ),
            match r {
                Err(e) => {
                    &&& old(self)@.create_check(amount, expiry, now) == Some(e)
                    &&& final(self)@ == old(self)@
                },
                Ok((id, eff)) => {
                    &&& old(self)@.create_check(amount, expiry, now) is None
                    &&& id == old(self)@.aid_counter + 1
                    &&& final(self)@ == old(self)@.after_create(*donor, *recipient, amount, expiry, now)
                    &&& eff.transfer == (Transfer {
                        token: old(self)@.token.unwrap(),
                        from: *donor,
                        to: old(self)@.address,
                        amount,
                    })
                    &&& eff.events@.len() == 1
                    &&& event_is(
                        eff.events@[0],
                        seq![AID_CREATED@],
                        EventData::AidCreated {
                            aid_id: id,
                            donor: *donor,
                            recipient: *recipient,
                            amount,
                            created_at: now,
                            expires_at: expiry,
                        },
                    )
                },
            },
    {
        if amount <= 0 {
            return Err(AidError::InvalidArgument);
        }
        if expiry <= now {
            return Err(AidError::InvalidArgument);
        }
        let token = self.get_token();
        let transfer = Transfer { token, from: *donor, to: self.address, amount };
        let aid_id = self.aid_counter + 1;
        self.aid_counter = aid_id;
        let record = AidRecord {
            id: aid_id,
            donor: *donor,
            recipient: *recipient,
            amount,
            status: AidStatus::Created,
            timestamp: now,
            expiry,
        };
        self.aids.insert(aid_id, record);
        let event = emit(
            AID_CREATED,
            EventData::AidCreated {
                aid_id,
                donor: *donor,
                recipient: *recipient,
                amount,
                created_at: now,
                expires_at: expiry,
            },
        );
        let mut events: Vec<Event> = Vec::new();
        events.push(event);
        Ok((aid_id, Effects { transfer, events }))
    }

    /// The record of aid `aid_id`, if there is one.
    pub fn get_aid(&self, aid_id: u64) -> (r: Option<AidRecord>)
        ensures
            r == (if self@.aids.contains_key(aid_id) {
                Some(self@.aids[aid_id])
            } else {
                None
            }),
    {
        match self.aids.get(&aid_id) {
            Some(rec) => Some(*rec),
            None => None,
        }
    }

    /// The token in which aid is paid.
    pub fn get_token(&self) -> (t: Addr)
        requires
            self@.token is Some,
        ensures
            t == self@.token.unwrap(),
    {
        self.token.unwrap()
    }

    /// Refunds aid `aid_id` to its donor at the request of `caller`, at
    /// ledger position `now`: the aid must have reached its expiry and still
    /// be open, and the caller must be its donor or the administrator.
    pub fn refund_aid(&mut self, caller: &Addr, aid_id: u64, now: u64) -> (r: Result<Effects, AidError>)
        requires
            old(self)@.aids.contains_key(aid_id),
            old(self)@.refund_check(*caller, aid_id, now) is None ==> old(self)@.token is Some,
        ensures
            final(self)@ == old(self)@.apply(Request::Refund { caller: *caller, aid_id, now }),
            match r {
                Err(e) => {
                    &&& old(self)@.refund_check(*caller, aid_id, now) == Some(e)
                    &&& final(self)@ == old(self)@
                },
                Ok(eff) => {
                    let rec = old(self)@.aids[aid_id];
                    &&& old(self)@.refund_check(*caller, aid_id, now) is None
                    &&& final(self)@ == old(self)@.with_status(aid_id, AidStatus::Refunded)
                    &&& eff.transfer == (Transfer {
                        token: old(self)@.token.unwrap(),
                        from: old(self)@.address,
                        to: rec.donor,
                        amount: rec.amount,
                    })
                    &&& eff.events@.len() == 1
                    &&& event_is(
                        eff.events@[0],
                        seq!["aid_refunded"@],
                        EventData::AidPayment { aid_id, party: rec.donor, amount: rec.amount },
                    )
                },
            },
    {
        let aid = self.get_aid(aid_id).unwrap();
        let is_donor = aid.donor.same_as(caller);
        let is_admin = match &self.admin {
            Some(a) => a.same_as(caller),
            None => false,
        };
        if !is_donor && !is_admin {
            return Err(AidError::Unauthorized);
        }
        if now < aid.expiry {
            return Err(AidError::NotExpiredYet);
        }
        match aid.status {
            AidStatus::Created => {},
            AidStatus::Refunded => {
                return Err(AidError::AlreadyRefunded);
            },
            _ => {
                return Err(AidError::AlreadyClaimed);
            },
        }
        let updated = AidRecord { status: AidStatus::Refunded, ..aid };
        let token = self.get_token();
        let transfer = Transfer { token, from: self.address, to: aid.donor, amount: aid.amount };
        self.aids.insert(aid_id, updated);
        let event = emit(
            "aid_refunded",
            EventData::AidPayment { aid_id, party: aid.donor, amount: aid.amount },
        );
        let mut events: Vec<Event> = Vec::new();
        events.push(event);
        Ok(Effects { transfer, events })
    }

    /// Pays aid `aid_id` out to `recipient` at ledger position `now`: the
    /// contract must not be paused, the caller must be the aid's recipient,
    /// the aid must not have reached its expiry and must still be open. The
    /// aid ends settled.
    pub fn claim_aid(&mut self, aid_id: u64, recipient: &Addr, now: u64) -> (r: Result<Effects, AidError>)
        requires
            old(self)@.paused || old(self)@.aids.contains_key(aid_id),
            old(self)@.claim_check(aid_id, *recipient, now) is None ==> old(self)@.token is Some,
        ensures
            final(self)@ == old(self)@.apply(Request::Claim { aid_id, recipient: *recipient, now }),
            match r {
                Err(e) => {
                    &&& old(self)@.claim_check(aid_id, *recipient, now) == Some(e)
                    &&& final(self)@ == old(self)@
                },
                Ok(eff) => {
                    let rec = old(self)@.aids[aid_id];
                    &&& old(self)@.claim_check(aid_id, *recipient, now) is None
                    &&& final(self)@ == old(self)@.with_status(aid_id, AidStatus::Settled)
                    &&& eff.transfer == (Transfer {
                        token: old(self)@.token.unwrap(),
                        from: old(self)@.address,
                        to: *recipient,
                        amount: rec.amount,
                    })
                    &&& eff.events@.len() == 2
                    &&& event_is(
                        eff.events@[0],
                        seq!["aid_claimed"@],
                        EventData::AidParty { aid_id, party: *recipient },
                    )
                    &&& event_is(
                        eff.events@[1],
                        seq!["aid_settled"@],
                        EventData::AidPayment { aid_id, party: *recipient, amount: rec.amount },
                    )
                },
            },
    {
        if self.paused {
            return Err(AidError::Paused);
        }
        let aid = self.get_aid(aid_id).unwrap();
        if !aid.recipient.same_as(recipient) {
            return Err(AidError::Unauthorized);
        }
        if now >= aid.expiry {
            return Err(AidError::Expired);
        }
        if aid.status != AidStatus::Created {
            return Err(AidError::AlreadyClaimed);
        }
        let token = self.get_token();
        let transfer = Transfer { token, from: self.address, to: *recipient, amount: aid.amount };
        let settled = AidRecord { status: AidStatus::Settled, ..aid };
        self.aids.insert(aid_id, settled);
        let claimed_event = emit("aid_claimed", EventData::AidParty { aid_id, party: *recipient });
        let settled_event = emit(
            "aid_settled",
            EventData::AidPayment { aid_id, party: *recipient, amount: aid.amount },
        );
        let mut events: Vec<Event> = Vec::new();
        events.push(claimed_event);
        events.push(settled_event);
        Ok(Effects { transfer, events })
    }

    /// Pauses or resumes claims; only the administrator may.
    pub fn set_paused(&mut self, admin: &Addr, paused: bool) -> (r: Result<(), AidError>)
        requires
            old(self)@.admin is Some,
        ensures
            final(self)@ == old(self)@.apply(Request::SetPaused { admin: *admin, paused }),
            old(self)@.admin.unwrap()@ == admin@ ==> {
                &&& r is Ok
                &&& final(self)@ == (ContractModel { paused, ..old(self)@ })
            },
            old(self)@.admin.unwrap()@ != admin@ ==> {
                &&& r == Err::<(), AidError>(AidError::Unauthorized)
                &&& final(self)@ == old(self)@
            },
    {
        let contract_admin = self.admin.unwrap();
        if !admin.same_as(&contract_admin) {
            return Err(AidError::Unauthorized);
        }
        self.paused = paused;
        Ok(())
    }
}

} // verus!
