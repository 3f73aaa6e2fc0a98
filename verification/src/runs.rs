//! Properties of whole sequences of requests, from a contract that has been
//! initialized once.

use vstd::prelude::*;

use crate::aid::{AidRecord, AidStatus};
use crate::contract::{ContractModel, Request};

verus! {

/// The storage after the requests `reqs`, in order.
pub open spec fn run(m: ContractModel, reqs: Seq<Request>) -> ContractModel
    decreases reqs.len(),
{
    if reqs.len() == 0 {
        m
    } else {
        run(m.apply(reqs[0]), reqs.drop_first())
    }
}

/// Whether the contract can process every request of `reqs` in turn.
pub open spec fn runnable(m: ContractModel, reqs: Seq<Request>) -> bool
    decreases reqs.len(),
{
    reqs.len() == 0 || (m.admits(reqs[0]) && runnable(m.apply(reqs[0]), reqs.drop_first()))
}

/// Whether `r` is a creation that the contract accepts in `m`.
pub open spec fn accepted_create(m: ContractModel, r: Request) -> bool {
    r is Create && m.accepts(r)
}

/// The ids returned by the accepted creations of `reqs`, in order.
pub open spec fn created_ids(m: ContractModel, reqs: Seq<Request>) -> Seq<u64>
    decreases reqs.len(),
{
    if reqs.len() == 0 {
        Seq::empty()
    } else {
        let rest = created_ids(m.apply(reqs[0]), reqs.drop_first());
        if accepted_create(m, reqs[0]) {
            seq![(m.aid_counter + 1) as u64] + rest
        } else {
            rest
        }
    }
}

/// The accepted creations of `reqs`, in order.
pub open spec fn accepted_creates(m: ContractModel, reqs: Seq<Request>) -> Seq<Request>
    decreases reqs.len(),
{
    if reqs.len() == 0 {
        Seq::empty()
    } else {
        let rest = accepted_creates(m.apply(reqs[0]), reqs.drop_first());
        if accepted_create(m, reqs[0]) {
            seq![reqs[0]] + rest
        } else {
            rest
        }
    }
}

/// Whether `rec` holds what the creation `r` asked for.
pub open spec fn record_of(rec: AidRecord, r: Request) -> bool {
    match r {
        Request::Create { donor, recipient, amount, expiry, now } => {
            &&& rec.donor == donor
            &&& rec.recipient == recipient
            &&& rec.amount == amount
            &&& rec.expiry == expiry
            &&& rec.timestamp == now
        },
        _ => false,
    }
}

/// Whether two records differ at most in their status.
pub open spec fn same_but_status(a: AidRecord, b: AidRecord) -> bool {
    a == AidRecord { status: a.status, ..b }
}

/// The contract's records are sound: each is stored under its own id, a
/// positive id not above the counter; its amount is positive, it was
/// created before its expiry, and its status is never the passing
/// `Claimed`.
pub open spec fn records_sound(m: ContractModel) -> bool {
    forall|k: u64| #[trigger] m.aids.contains_key(k) ==> {
        let rec = m.aids[k];
        &&& 1 <= k <= m.aid_counter
        &&& rec.id == k
        &&& rec.amount > 0
        &&& rec.timestamp < rec.expiry
        &&& rec.status != AidStatus::Claimed
    }
}

/// What record `k` holds in escrow: its amount while it is open, else 0.
pub open spec fn held(aids: Map<u64, AidRecord>, k: u64) -> int {
    if aids.contains_key(k) && aids[k].status == AidStatus::Created {
        aids[k].amount as int
    } else {
        0
    }
}

/// What the records `1..=n` hold in escrow.
pub open spec fn escrow_upto(aids: Map<u64, AidRecord>, n: nat) -> int
    decreases n,
{
    if n == 0 {
        0
    } else {
        escrow_upto(aids, (n - 1) as nat) + held(aids, n as u64)
    }
}

/// What the contract holds in escrow: the amounts of its open records.
pub open spec fn escrow(m: ContractModel) -> int {
    escrow_upto(m.aids, m.aid_counter as nat)
}

/// What the requests `reqs` move into the escrow, in total.
pub open spec fn net_inflow(m: ContractModel, reqs: Seq<Request>) -> int
    decreases reqs.len(),
{
    if reqs.len() == 0 {
        0
    } else {
        m.inflow(reqs[0]) + net_inflow(m.apply(reqs[0]), reqs.drop_first())
    }
}

proof fn escrow_frame(a: Map<u64, AidRecord>, b: Map<u64, AidRecord>, n: nat)
    requires
        n <= u64::MAX,
        forall|k: u64| 1 <= k <= n ==> #[trigger] held(a, k) == held(b, k),
    ensures
        escrow_upto(a, n) == escrow_upto(b, n),
    decreases n,
{
    if n > 0 {
        escrow_frame(a, b, (n - 1) as nat);
        assert(held(a, n as u64) == held(b, n as u64));
    }
}

proof fn escrow_point_update(a: Map<u64, AidRecord>, id: u64, rec: AidRecord, n: nat)
    requires
        n <= u64::MAX,
        1 <= id <= n,
    ensures
        escrow_upto(a.insert(id, rec), n) == escrow_upto(a, n) - held(a, id) + held(
            a.insert(id, rec),
            id,
        ),
    decreases n,
{
    let b = a.insert(id, rec);
    if n == id {
        assert forall|k: u64| 1 <= k <= (n - 1) as nat implies #[trigger] held(a, k) == held(b, k) by {
            assert(k != id);
        }
        escrow_frame(a, b, (n - 1) as nat);
    } else {
        escrow_point_update(a, id, rec, (n - 1) as nat);
        assert(held(a, n as u64) == held(b, n as u64));
    }
}

/// One request keeps the records sound and moves the escrow by exactly
/// what it transfers into or out of the contract.
pub proof fn step_keeps_records_and_escrow(m: ContractModel, r: Request)
    requires
        records_sound(m),
        m.admits(r),
    ensures
        records_sound(m.apply(r)),
        escrow(m.apply(r)) == escrow(m) + m.inflow(r),
        m.apply(r).aid_counter == m.aid_counter + (if accepted_create(m, r) { 1int } else { 0 }),
        forall|k: u64| #[trigger] m.aids.contains_key(k) ==> m.apply(r).aids.contains_key(k)
            && same_but_status(m.apply(r).aids[k], m.aids[k]),
{
    let m2 = m.apply(r);
    if m.accepts(r) {
        match r {
            Request::Create { donor, recipient, amount, expiry, now } => {
                let c = m.aid_counter;
                let id = (c + 1) as u64;
                assert(!m.aids.contains_key(id));
                assert forall|k: u64| 1 <= k <= c as nat implies #[trigger] held(m.aids, k) == held(
                    m2.aids,
                    k,
                ) by {
                    assert(k != id);
                }
                escrow_frame(m.aids, m2.aids, c as nat);
                assert(held(m2.aids, id) == amount);
                assert(escrow(m2) == escrow_upto(m2.aids, c as nat) + held(m2.aids, id));
                assert forall|k: u64| #[trigger] m2.aids.contains_key(k) implies {
                    let rec = m2.aids[k];
                    &&& 1 <= k <= m2.aid_counter
                    &&& rec.id == k
                    &&& rec.amount > 0
                    &&& rec.timestamp < rec.expiry
                    &&& rec.status != AidStatus::Claimed
                } by {
                    if k != id {
                        assert(m.aids.contains_key(k));
                    }
                }
            },
            Request::Claim { aid_id, .. } => {
                assert(m.aids.contains_key(aid_id));
                escrow_point_update(
                    m.aids,
                    aid_id,
                    AidRecord { status: AidStatus::Settled, ..m.aids[aid_id] },
                    m.aid_counter as nat,
                );
                assert forall|k: u64| #[trigger] m2.aids.contains_key(k) implies {
                    let rec = m2.aids[k];
                    &&& 1 <= k <= m2.aid_counter
                    &&& rec.id == k
                    &&& rec.amount > 0
                    &&& rec.timestamp < rec.expiry
                    &&& rec.status != AidStatus::Claimed
                } by {
                    assert(m.aids.contains_key(k));
                }
            },
            Request::Refund { aid_id, .. } => {
                escrow_point_update(
                    m.aids,
                    aid_id,
                    AidRecord { status: AidStatus::Refunded, ..m.aids[aid_id] },
                    m.aid_counter as nat,
                );
                assert forall|k: u64| #[trigger] m2.aids.contains_key(k) implies {
                    let rec = m2.aids[k];
                    &&& 1 <= k <= m2.aid_counter
                    &&& rec.id == k
                    &&& rec.amount > 0
                    &&& rec.timestamp < rec.expiry
                    &&& rec.status != AidStatus::Claimed
                } by {
                    assert(m.aids.contains_key(k));
                }
            },
            Request::SetPaused { .. } => {},
        }
    }
}

/// Over any runnable sequence of requests, from sound records: the
/// accepted creations return the ids after the counter, one by one; each
/// such id ends holding what its creation asked for; every record stored
/// before keeps all but its status; the records stay sound; and the escrow
/// changes by exactly what the requests move into and out of it.
pub proof fn requests_number_aids_and_track_escrow(m: ContractModel, reqs: Seq<Request>)
    requires
        records_sound(m),
        runnable(m, reqs),
    ensures
        ({
            let ids = created_ids(m, reqs);
            let creates = accepted_creates(m, reqs);
            let end = run(m, reqs);
            &&& ids.len() == creates.len()
            &&& end.aid_counter == m.aid_counter + ids.len()
            &&& forall|k: int| 0 <= k < ids.len() ==> #[trigger] ids[k] == m.aid_counter + k + 1
            &&& forall|k: int|
                0 <= k < ids.len() ==> end.aids.contains_key(#[trigger] ids[k]) && record_of(
                    end.aids[ids[k]],
                    creates[k],
                )
            &&& forall|key: u64| #[trigger] m.aids.contains_key(key) ==> end.aids.contains_key(key)
                && same_but_status(end.aids[key], m.aids[key])
            &&& records_sound(end)
            &&& escrow(end) == escrow(m) + net_inflow(m, reqs)
        }),
    decreases reqs.len(),
{
    if reqs.len() > 0 {
        let r = reqs[0];
        let m1 = m.apply(r);
        let rest = reqs.drop_first();
        step_keeps_records_and_escrow(m, r);
        requests_number_aids_and_track_escrow(m1, rest);
        let ids = created_ids(m, reqs);
        let creates = accepted_creates(m, reqs);
        let ids1 = created_ids(m1, rest);
        let creates1 = accepted_creates(m1, rest);
        let end = run(m, reqs);
        assert(end == run(m1, rest));
        if accepted_create(m, r) {
            let id = (m.aid_counter + 1) as u64;
            assert(ids == seq![id] + ids1);
            assert(creates == seq![r] + creates1);
            assert(m1.aids.contains_key(id));
            assert(record_of(m1.aids[id], r));
            assert forall|k: int| 0 <= k < ids.len() implies #[trigger] ids[k] == m.aid_counter + k + 1 by {
                if k > 0 {
                    assert(ids[k] == ids1[k - 1]);
                }
            }
            assert forall|k: int|
                0 <= k < ids.len() implies end.aids.contains_key(#[trigger] ids[k]) && record_of(
                end.aids[ids[k]],
                creates[k],
            ) by {
                if k > 0 {
                    assert(ids[k] == ids1[k - 1]);
                    assert(creates[k] == creates1[k - 1]);
                } else {
                    assert(ids[0] == id);
                    assert(creates[0] == r);
                    assert(end.aids.contains_key(id));
                    assert(same_but_status(end.aids[id], m1.aids[id]));
                }
            }
        } else {
            assert(ids == ids1);
            assert(creates == creates1);
        }
        assert forall|key: u64| #[trigger] m.aids.contains_key(key) implies end.aids.contains_key(key)
            && same_but_status(end.aids[key], m.aids[key]) by {
            assert(m1.aids.contains_key(key));
        }
    }
}

/// From a freshly initialized contract (no record, counter 0), over any
/// runnable sequence of requests: the k-th accepted creation returns id k,
/// so the ids are distinct and increasing; record k still holds the donor,
/// recipient, amount, expiry and creation position of the k-th creation;
/// and the escrow, the sum of the amounts of the open records, is exactly
/// what the requests moved into the contract minus what they paid out,
/// while every record keeps a positive amount, a creation before its expiry
/// and a status other than `Claimed`.
pub proof fn fresh_contract_numbers_aids_and_keeps_escrow(m: ContractModel, reqs: Seq<Request>)
    requires
        m.aid_counter == 0,
        m.aids == Map::<u64, AidRecord>::empty(),
        runnable(m, reqs),
    ensures
        ({
            let ids = created_ids(m, reqs);
            let creates = accepted_creates(m, reqs);
            let end = run(m, reqs);
            &&& forall|k: int| 0 <= k < ids.len() ==> #[trigger] ids[k] == k + 1
            &&& forall|j: int, k: int| 0 <= j < k < ids.len() ==> ids[j] < ids[k]
            &&& forall|k: int|
                0 <= k < ids.len() ==> end.aids.contains_key(#[trigger] ids[k]) && record_of(
                    end.aids[ids[k]],
                    creates[k],
                )
            &&& end.aid_counter == ids.len()
            &&& escrow(end) == net_inflow(m, reqs)
            &&& records_sound(end)
        }),
{
    assert(escrow_upto(m.aids, 0) == 0);
    requests_number_aids_and_track_escrow(m, reqs);
    let ids = created_ids(m, reqs);
    assert forall|j: int, k: int| 0 <= j < k < ids.len() implies ids[j] < ids[k] by {
        assert(ids[j] == j + 1);
        assert(ids[k] == k + 1);
    }
}

} // verus!
