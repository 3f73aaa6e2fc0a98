use aid_contract::address::{Addr, ADDR_LEN};
use aid_contract::aid::AidStatus;
use aid_contract::contract::{AidContract, Effects, Transfer};
use aid_contract::errors::AidError;
use aid_contract::events::{EventData, AID_CREATED};

/// A distinct address for each tag.
fn addr(kind: u8, tag: u8) -> Addr {
    let mut strkey = [b'A'; ADDR_LEN];
    strkey[0] = kind;
    strkey[ADDR_LEN - 1] = tag;
    Addr::new(strkey)
}

/// Balances of the token, moved by the transfers the contract asks for.
struct TokenLedger {
    balances: Vec<(Addr, i128)>,
}

impl TokenLedger {
    fn new() -> Self {
        TokenLedger { balances: Vec::new() }
    }

    fn balance(&self, who: &Addr) -> i128 {
        self.balances.iter().find(|(a, _)| a == who).map(|(_, b)| *b).unwrap_or(0)
    }

    fn set(&mut self, who: &Addr, amount: i128) {
        match self.balances.iter_mut().find(|(a, _)| a == who) {
            Some(entry) => entry.1 = amount,
            None => self.balances.push((*who, amount)),
        }
    }

    fn mint(&mut self, who: &Addr, amount: i128) {
        let b = self.balance(who);
        self.set(who, b + amount);
    }

    fn apply(&mut self, t: &Transfer) {
        let from = self.balance(&t.from);
        assert!(from >= t.amount, "insufficient balance");
        self.set(&t.from, from - t.amount);
        let to = self.balance(&t.to);
        self.set(&t.to, to + t.amount);
    }
}

struct Setup {
    contract: AidContract,
    ledger: TokenLedger,
    contract_id: Addr,
    token: Addr,
    admin: Addr,
    donor: Addr,
    recipient: Addr,
    now: u64,
}

fn setup() -> Setup {
    let admin = addr(b'G', 1);
    let donor = addr(b'G', 2);
    let recipient = addr(b'G', 3);
    let token = addr(b'C', 4);
    let contract_id = addr(b'C', 5);
    let mut ledger = TokenLedger::new();
    ledger.mint(&donor, 1_000);
    let mut contract = AidContract::new(contract_id);
    contract.initialize(&admin, &token);
    Setup { contract, ledger, contract_id, token, admin, donor, recipient, now: 0 }
}

impl Setup {
    fn create(&mut self, amount: i128, expiry: u64) -> u64 {
        let (donor, recipient, now) = (self.donor, self.recipient, self.now);
        let (id, eff) = self.contract.create_aid(&donor, &recipient, amount, expiry, now).unwrap();
        self.ledger.apply(&eff.transfer);
        id
    }

    fn try_claim(&mut self, aid_id: u64, recipient: &Addr) -> Result<Effects, AidError> {
        let now = self.now;
        let r = self.contract.claim_aid(aid_id, recipient, now);
        if let Ok(eff) = &r {
            self.ledger.apply(&eff.transfer);
        }
        r
    }

    fn try_refund(&mut self, caller: &Addr, aid_id: u64) -> Result<Effects, AidError> {
        let now = self.now;
        let r = self.contract.refund_aid(caller, aid_id, now);
        if let Ok(eff) = &r {
            self.ledger.apply(&eff.transfer);
        }
        r
    }

    fn advance_ledger(&mut self, delta: u64) {
        self.now += delta;
    }
}

#[test]
fn claim_transfers_escrow_and_settles() {
    let mut s = setup();
    let expiry = s.now + 100;
    let aid_id = s.create(500, expiry);
    assert_eq!(s.ledger.balance(&s.contract_id), 500);

    let recipient = s.recipient;
    s.try_claim(aid_id, &recipient).unwrap();

    assert_eq!(s.ledger.balance(&s.recipient), 500);
    assert_eq!(s.ledger.balance(&s.contract_id), 0);

    let record = s.contract.get_aid(aid_id).unwrap();
    assert_eq!(record.status, AidStatus::Settled);
}

#[test]
fn second_claim_returns_already_claimed() {
    let mut s = setup();
    let expiry = s.now + 100;
    let aid_id = s.create(500, expiry);
    let recipient = s.recipient;
    s.try_claim(aid_id, &recipient).unwrap();

    let result = s.try_claim(aid_id, &recipient);
    assert_eq!(result, Err(AidError::AlreadyClaimed));
}

#[test]
fn claim_after_expiry_is_rejected() {
    let mut s = setup();
    let expiry = s.now + 100;
    let aid_id = s.create(500, expiry);

    s.advance_ledger(101);

    let recipient = s.recipient;
    let result = s.try_claim(aid_id, &recipient);
    assert_eq!(result, Err(AidError::Expired));
}

#[test]
fn claim_by_wrong_address_is_unauthorized() {
    let mut s = setup();
    let stranger = addr(b'G', 9);
    let expiry = s.now + 100;
    let aid_id = s.create(500, expiry);

    let result = s.try_claim(aid_id, &stranger);
    assert_eq!(result, Err(AidError::Unauthorized));
}

#[test]
fn claim_while_paused_is_rejected() {
    let mut s = setup();
    let expiry = s.now + 100;
    let aid_id = s.create(500, expiry);
    let admin = s.admin;
    s.contract.set_paused(&admin, true).unwrap();

    let recipient = s.recipient;
    let result = s.try_claim(aid_id, &recipient);
    assert_eq!(result, Err(AidError::Paused));
}

#[test]
fn state_is_settled_before_transfer_state_is_consistent_on_success() {
    let mut s = setup();
    let expiry = s.now + 100;
    let aid_id = s.create(500, expiry);
    let recipient = s.recipient;
    s.try_claim(aid_id, &recipient).unwrap();

    let record = s.contract.get_aid(aid_id).unwrap();
    let moved = s.ledger.balance(&s.recipient) == 500;
    assert_eq!(record.status, AidStatus::Settled);
    assert!(moved);
}

#[test]
fn refund_aid_after_expiry_returns_funds_to_donor() {
    let mut s = setup();
    let expiry = s.now + 100;
    let aid_id = s.create(500, expiry);
    s.advance_ledger(101);

    let donor = s.donor;
    s.try_refund(&donor, aid_id).unwrap();

    assert_eq!(s.ledger.balance(&s.donor), 1_000);
    let record = s.contract.get_aid(aid_id).unwrap();
    assert_eq!(record.status, AidStatus::Refunded);
}

#[test]
fn refund_aid_before_expiry_is_rejected() {
    let mut s = setup();
    let expiry = s.now + 100;
    let aid_id = s.create(500, expiry);

    let donor = s.donor;
    let result = s.try_refund(&donor, aid_id);
    assert_eq!(result, Err(AidError::NotExpiredYet));
}

#[test]
fn refund_claimed_aid_is_rejected() {
    let mut s = setup();
    let expiry = s.now + 100;
    let aid_id = s.create(500, expiry);
    let recipient = s.recipient;
    s.try_claim(aid_id, &recipient).unwrap();
    s.advance_ledger(101);

    let donor = s.donor;
    let result = s.try_refund(&donor, aid_id);
    assert_eq!(result, Err(AidError::AlreadyClaimed));
}

#[test]
fn refund_refunded_aid_is_rejected() {
    let mut s = setup();
    let expiry = s.now + 100;
    let aid_id = s.create(500, expiry);
    s.advance_ledger(101);
    let donor = s.donor;
    s.try_refund(&donor, aid_id).unwrap();

    let result = s.try_refund(&donor, aid_id);
    assert_eq!(result, Err(AidError::AlreadyRefunded));
}

#[test]
fn refund_by_stranger_is_unauthorized() {
    let mut s = setup();
    let expiry = s.now + 100;
    let aid_id = s.create(500, expiry);
    s.advance_ledger(101);

    let stranger = addr(b'G', 9);
    let res = s.try_refund(&stranger, aid_id);
    assert_eq!(res, Err(AidError::Unauthorized));
}

#[test]
fn refund_by_admin_is_successful() {
    let mut s = setup();
    let expiry = s.now + 100;
    let aid_id = s.create(500, expiry);
    s.advance_ledger(101);

    let admin = s.admin;
    s.try_refund(&admin, aid_id).unwrap();

    assert_eq!(s.ledger.balance(&s.donor), 1_000);
    let record = s.contract.get_aid(aid_id).unwrap();
    assert_eq!(record.status, AidStatus::Refunded);
}

// ---- further cases ----

#[test]
fn create_stores_record_and_returns_escrow_transfer() {
    let mut s = setup();
    let (donor, recipient) = (s.donor, s.recipient);
    let (id, eff) = s.contract.create_aid(&donor, &recipient, 500, 100, 7).unwrap();
    assert_eq!(id, 1);
    assert_eq!(s.contract.aid_counter(), 1);
    assert_eq!(
        eff.transfer,
        Transfer { token: s.token, from: donor, to: s.contract_id, amount: 500 }
    );
    assert_eq!(eff.events.len(), 1);
    assert_eq!(eff.events[0].topics, vec![AID_CREATED.to_string()]);
    assert_eq!(
        eff.events[0].data,
        EventData::AidCreated {
            aid_id: 1,
            donor,
            recipient,
            amount: 500,
            created_at: 7,
            expires_at: 100,
        }
    );
    let rec = s.contract.get_aid(1).unwrap();
    assert_eq!(rec.id, 1);
    assert_eq!(rec.donor, donor);
    assert_eq!(rec.recipient, recipient);
    assert_eq!(rec.amount, 500);
    assert_eq!(rec.status, AidStatus::Created);
    assert_eq!(rec.timestamp, 7);
    assert_eq!(rec.expiry, 100);
}

#[test]
fn successive_aids_get_successive_ids() {
    let mut s = setup();
    let a = s.create(100, 50);
    let b = s.create(200, 60);
    assert_eq!((a, b), (1, 2));
    assert_eq!(s.contract.get_aid(1).unwrap().amount, 100);
    assert_eq!(s.contract.get_aid(2).unwrap().amount, 200);
    assert_eq!(s.ledger.balance(&s.contract_id), 300);
}

#[test]
fn create_rejects_non_positive_amount() {
    let mut s = setup();
    let (donor, recipient) = (s.donor, s.recipient);
    assert_eq!(
        s.contract.create_aid(&donor, &recipient, 0, 100, 0).err(),
        Some(AidError::InvalidArgument)
    );
    assert_eq!(
        s.contract.create_aid(&donor, &recipient, -5, 100, 0).err(),
        Some(AidError::InvalidArgument)
    );
    assert_eq!(s.contract.aid_counter(), 0);
    assert!(s.contract.get_aid(1).is_none());
}

#[test]
fn create_rejects_expiry_not_in_future() {
    let mut s = setup();
    let (donor, recipient) = (s.donor, s.recipient);
    assert_eq!(
        s.contract.create_aid(&donor, &recipient, 500, 10, 10).err(),
        Some(AidError::InvalidArgument)
    );
    assert_eq!(
        s.contract.create_aid(&donor, &recipient, 500, 9, 10).err(),
        Some(AidError::InvalidArgument)
    );
    assert!(s.contract.create_aid(&donor, &recipient, 500, 11, 10).is_ok());
}

#[test]
fn claim_at_expiry_is_expired_and_just_before_is_accepted() {
    let mut s = setup();
    let a = s.create(100, 100);
    let b = s.create(100, 100);
    let recipient = s.recipient;
    s.now = 100;
    assert_eq!(s.try_claim(a, &recipient), Err(AidError::Expired));
    s.now = 99;
    assert!(s.try_claim(b, &recipient).is_ok());
}

#[test]
fn claim_effects_carry_transfer_and_both_events() {
    let mut s = setup();
    let id = s.create(500, 100);
    let recipient = s.recipient;
    let eff = s.try_claim(id, &recipient).unwrap();
    assert_eq!(
        eff.transfer,
        Transfer { token: s.token, from: s.contract_id, to: recipient, amount: 500 }
    );
    assert_eq!(eff.events.len(), 2);
    assert_eq!(eff.events[0].topics, vec!["aid_claimed".to_string()]);
    assert_eq!(eff.events[0].data, EventData::AidParty { aid_id: id, party: recipient });
    assert_eq!(eff.events[1].topics, vec!["aid_settled".to_string()]);
    assert_eq!(
        eff.events[1].data,
        EventData::AidPayment { aid_id: id, party: recipient, amount: 500 }
    );
}

#[test]
fn refund_at_expiry_is_accepted_and_emits_refund_event() {
    let mut s = setup();
    let id = s.create(500, 100);
    s.now = 100;
    let donor = s.donor;
    let eff = s.try_refund(&donor, id).unwrap();
    assert_eq!(
        eff.transfer,
        Transfer { token: s.token, from: s.contract_id, to: donor, amount: 500 }
    );
    assert_eq!(eff.events.len(), 1);
    assert_eq!(eff.events[0].topics, vec!["aid_refunded".to_string()]);
    assert_eq!(
        eff.events[0].data,
        EventData::AidPayment { aid_id: id, party: donor, amount: 500 }
    );
}

#[test]
fn refused_requests_leave_storage_unchanged() {
    let mut s = setup();
    let id = s.create(500, 100);
    let before = s.contract.get_aid(id);
    let stranger = addr(b'G', 9);
    assert!(s.try_claim(id, &stranger).is_err());
    assert!(s.try_refund(&stranger, id).is_err());
    assert_eq!(s.contract.get_aid(id), before);
    assert_eq!(s.ledger.balance(&s.contract_id), 500);
}

#[test]
fn claimed_aid_cannot_be_refunded_nor_refunded_aid_claimed() {
    let mut s = setup();
    let a = s.create(100, 100);
    let b = s.create(100, 100);
    let (recipient, donor) = (s.recipient, s.donor);
    s.try_claim(a, &recipient).unwrap();
    s.now = 150;
    s.try_refund(&donor, b).unwrap();
    assert_eq!(s.try_refund(&donor, a), Err(AidError::AlreadyClaimed));
    s.now = 10;
    assert_eq!(s.try_claim(b, &recipient), Err(AidError::AlreadyClaimed));
    assert_eq!(s.ledger.balance(&s.contract_id), 0);
    assert_eq!(s.ledger.balance(&recipient), 100);
    assert_eq!(s.ledger.balance(&donor), 900);
}

#[test]
fn refund_works_while_paused() {
    let mut s = setup();
    let id = s.create(500, 100);
    let (admin, donor) = (s.admin, s.donor);
    s.contract.set_paused(&admin, true).unwrap();
    s.now = 100;
    assert!(s.try_refund(&donor, id).is_ok());
}

#[test]
fn set_paused_by_non_admin_is_unauthorized() {
    let mut s = setup();
    let donor = s.donor;
    assert_eq!(s.contract.set_paused(&donor, true), Err(AidError::Unauthorized));
    assert!(!s.contract.is_paused());
}

#[test]
fn resume_after_pause_allows_claims() {
    let mut s = setup();
    let id = s.create(500, 100);
    let (admin, recipient) = (s.admin, s.recipient);
    s.contract.set_paused(&admin, true).unwrap();
    assert!(s.contract.is_paused());
    s.contract.set_paused(&admin, false).unwrap();
    assert!(!s.contract.is_paused());
    assert!(s.try_claim(id, &recipient).is_ok());
}

#[test]
fn claim_and_refund_windows_do_not_overlap() {
    for now in [0u64, 50, 99, 100, 101, 500] {
        let mut s = setup();
        let id = s.create(100, 100);
        s.now = now;
        let (recipient, donor) = (s.recipient, s.donor);
        let mut probe = AidContract::restore(
            s.contract.address(),
            s.contract.admin(),
            s.contract.token(),
            s.contract.aid_counter(),
            s.contract.is_paused(),
        );
        probe.load_record(id, s.contract.get_aid(id).unwrap());
        let claim_ok = s.try_claim(id, &recipient).is_ok();
        let refund_ok = probe.refund_aid(&donor, id, now).is_ok();
        assert!(!(claim_ok && refund_ok));
        assert!(claim_ok || refund_ok);
    }
}

#[test]
fn initialize_sets_admin_and_token_and_restarts_counter() {
    let mut s = setup();
    s.create(100, 100);
    assert_eq!(s.contract.aid_counter(), 1);
    let new_admin = addr(b'G', 20);
    let new_token = addr(b'C', 21);
    s.contract.initialize(&new_admin, &new_token);
    assert_eq!(s.contract.admin(), Some(new_admin));
    assert_eq!(s.contract.token(), Some(new_token));
    assert_eq!(s.contract.get_token(), new_token);
    assert_eq!(s.contract.aid_counter(), 0);
    assert!(s.contract.get_aid(1).is_some());
}

#[test]
fn restore_and_load_record_rebuild_storage() {
    let s = setup();
    let rec = aid_contract::aid::AidRecord {
        id: 4,
        donor: s.donor,
        recipient: s.recipient,
        amount: 70,
        status: AidStatus::from(0),
        timestamp: 1,
        expiry: 9,
    };
    let mut c = AidContract::restore(s.contract_id, Some(s.admin), Some(s.token), 4, true);
    assert!(c.get_aid(4).is_none());
    c.load_record(4, rec);
    assert_eq!(c.get_aid(4), Some(rec));
    assert!(c.is_paused());
    assert_eq!(c.address(), s.contract_id);
    assert_eq!(c.admin(), Some(s.admin));
    assert_eq!(c.claim_aid(4, &s.recipient, 2), Err(AidError::Paused));
}

#[test]
fn new_contract_is_empty() {
    let c = AidContract::new(addr(b'C', 5));
    assert_eq!(c.admin(), None);
    assert_eq!(c.token(), None);
    assert_eq!(c.aid_counter(), 0);
    assert!(!c.is_paused());
    assert!(c.get_aid(1).is_none());
}

#[test]
fn status_codes_round_trip() {
    for s in [AidStatus::Created, AidStatus::Claimed, AidStatus::Settled, AidStatus::Refunded] {
        assert_eq!(AidStatus::from(s.code()), s);
    }
    assert_eq!(AidStatus::Created.code(), 0);
    assert_eq!(AidStatus::Claimed.code(), 1);
    assert_eq!(AidStatus::Settled.code(), 2);
    assert_eq!(AidStatus::Refunded.code(), 3);
    assert_eq!(AidStatus::from(3), AidStatus::Refunded);
}

#[test]
fn addresses_compare_by_every_byte() {
    let a = addr(b'G', 1);
    let b = addr(b'G', 1);
    let c = addr(b'G', 2);
    let d = addr(b'C', 1);
    assert!(a.same_as(&b));
    assert!(!a.same_as(&c));
    assert!(!a.same_as(&d));
}

#[test]
fn ids_count_up_and_escrow_matches_open_aids_over_a_run() {
    let mut s = setup();
    let (admin, donor, recipient) = (s.admin, s.donor, s.recipient);
    let a = s.create(100, 50);
    s.contract.set_paused(&admin, true).unwrap();
    let b = s.create(200, 60);
    assert!(s.try_claim(a, &recipient).is_err());
    s.contract.set_paused(&admin, false).unwrap();
    s.try_claim(a, &recipient).unwrap();
    assert!(s.contract.create_aid(&donor, &recipient, 0, 70, s.now).is_err());
    let c = s.create(300, 70);
    s.now = 60;
    s.try_refund(&donor, b).unwrap();
    let d = s.create(50, 90);
    assert_eq!((a, b, c, d), (1, 2, 3, 4));
    assert_eq!(s.contract.aid_counter(), 4);

    let expected = [(1u64, 100i128, 50u64), (2, 200, 60), (3, 300, 70), (4, 50, 90)];
    let mut open_total: i128 = 0;
    for (id, amount, expiry) in expected {
        let rec = s.contract.get_aid(id).unwrap();
        assert_eq!(rec.id, id);
        assert_eq!(rec.donor, donor);
        assert_eq!(rec.recipient, recipient);
        assert_eq!(rec.amount, amount);
        assert_eq!(rec.expiry, expiry);
        assert!(rec.amount > 0 && rec.timestamp < rec.expiry);
        assert_ne!(rec.status, AidStatus::Claimed);
        if rec.status == AidStatus::Created {
            open_total += rec.amount;
        }
    }
    assert_eq!(open_total, 350);
    assert_eq!(s.ledger.balance(&s.contract_id), open_total);
}
