use vstd::prelude::*;

use crate::contract::{
    accept_step, active_offers, cancel_step, create_step, find_offer, is_active, offers_valid,
};
use crate::lifecycle::with_status;
use crate::offer::{Address, EscrowError, Offer, OfferStatus, Payout};

verus! {

/// A valid creation adds exactly one offer: it is active, holds the whole
/// payment, and takes the next identifier, so the counter grows by one.
pub proof fn lemma_create_adds_one_active_offer(
    s: Seq<Offer>,
    caller: Address,
    recipient: Address,
    payment: u128,
    timestamp: u64,
)
    requires
        s.len() < u64::MAX,
        payment > 0,
        caller != recipient,
    ensures
        ({
            let (r, t) = create_step(s, caller, recipient, payment, timestamp);
            &&& r == Ok::<u64, EscrowError>((s.len() + 1) as u64)
            &&& t.len() == s.len() + 1
            &&& t.subrange(0, s.len() as int) == s
            &&& find_offer(t, (s.len() + 1) as u64) == Some(
                Offer {
                    offer_id: (s.len() + 1) as u64,
                    creator: caller,
                    recipient,
                    amount: payment,
                    status: OfferStatus::Active,
                    created_timestamp: timestamp,
                },
            )
        }),
{
    let (r, t) = create_step(s, caller, recipient, payment, timestamp);
    assert(t.subrange(0, s.len() as int) =~= s);
}

/// A creation with no payment is rejected as an invalid payment and
/// changes nothing, the counter included.
pub proof fn lemma_zero_payment_rejected(
    s: Seq<Offer>,
    caller: Address,
    recipient: Address,
    timestamp: u64,
)
    ensures
        create_step(s, caller, recipient, 0, timestamp) == (
            Err::<u64, EscrowError>(EscrowError::InvalidPayment),
            s,
        ),
{
}

/// A paid offer to oneself is rejected as a self-offer and changes nothing.
pub proof fn lemma_self_offer_rejected(s: Seq<Offer>, caller: Address, payment: u128, timestamp: u64)
    requires
        payment > 0,
    ensures
        create_step(s, caller, caller, payment, timestamp) == (
            Err::<u64, EscrowError>(EscrowError::SelfOfferRejected),
            s,
        ),
{
}

/// Accepting an existing offer succeeds exactly when the caller is its
/// recipient and it is active; the offer is then completed and the recipient
/// is paid its whole amount. Otherwise nothing changes.
pub proof fn lemma_accept_succeeds_iff(s: Seq<Offer>, caller: Address, offer_id: u64)
    requires
        find_offer(s, offer_id) is Some,
    ensures
        ({
            let o = find_offer(s, offer_id)->Some_0;
            let (r, t) = accept_step(s, caller, offer_id);
            &&& r is Ok <==> (caller == o.recipient && o.status == OfferStatus::Active)
            &&& r is Ok ==> r == Ok::<Payout, EscrowError>(
                Payout { to: o.recipient, amount: o.amount },
            )
            &&& r is Ok ==> find_offer(t, offer_id) == Some(
                with_status(o, OfferStatus::Completed),
            )
            &&& r is Ok ==> forall|i: int|
                0 <= i < s.len() && i != offer_id - 1 ==> #[trigger] t[i] == s[i]
            &&& r is Err ==> t == s
        }),
{
}

/// Cancelling an existing offer succeeds exactly when the caller is its
/// creator and it is active; the offer is then cancelled and the creator is
/// refunded its whole amount. Otherwise nothing changes.
pub proof fn lemma_cancel_succeeds_iff(s: Seq<Offer>, caller: Address, offer_id: u64)
    requires
        find_offer(s, offer_id) is Some,
    ensures
        ({
            let o = find_offer(s, offer_id)->Some_0;
            let (r, t) = cancel_step(s, caller, offer_id);
            &&& r is Ok <==> (caller == o.creator && o.status == OfferStatus::Active)
            &&& r is Ok ==> r == Ok::<Payout, EscrowError>(
                Payout { to: o.creator, amount: o.amount },
            )
            &&& r is Ok ==> find_offer(t, offer_id) == Some(
                with_status(o, OfferStatus::Cancelled),
            )
            &&& r is Ok ==> forall|i: int|
                0 <= i < s.len() && i != offer_id - 1 ==> #[trigger] t[i] == s[i]
            &&& r is Err ==> t == s
        }),
{
}

/// Once an offer is completed or cancelled, every later acceptance or
/// cancellation of it, by anyone, is rejected as not active, pays nothing
/// out and leaves the offers as they were.
pub proof fn lemma_resolved_offer_stays_resolved(s: Seq<Offer>, caller: Address, offer_id: u64)
    requires
        find_offer(s, offer_id) matches Some(o) && o.status != OfferStatus::Active,
    ensures
        accept_step(s, caller, offer_id) == (
            Err::<Payout, EscrowError>(EscrowError::OfferNotActive),
            s,
        ),
        cancel_step(s, caller, offer_id) == (
            Err::<Payout, EscrowError>(EscrowError::OfferNotActive),
            s,
        ),
{
}

/// Keeping the offers that satisfy `p` keeps their order of identifier, and
/// keeps only offers of `s`.
proof fn lemma_filter_keeps_order(s: Seq<Offer>, p: spec_fn(Offer) -> bool)
    requires
        forall|i: int, j: int| 0 <= i < j < s.len() ==> s[i].offer_id < s[j].offer_id,
    ensures
        forall|i: int, j: int|
            0 <= i < j < s.filter(p).len() ==> s.filter(p)[i].offer_id < s.filter(p)[j].offer_id,
        forall|k: int| 0 <= k < s.filter(p).len() ==> s.contains(#[trigger] s.filter(p)[k]),
    decreases s.len(),
{
    reveal(Seq::filter);
    if s.len() > 0 {
        let d = s.drop_last();
        lemma_filter_keeps_order(d, p);
        let f = d.filter(p);
        assert forall|k: int| 0 <= k < f.len() implies f[k].offer_id < s.last().offer_id
            && s.contains(f[k]) by {
            assert(d.contains(f[k]));
            let i = choose|i: int| 0 <= i < d.len() && d[i] == f[k];
            assert(s[i] == d[i]);
        }
        if p(s.last()) {
            let g = f.push(s.last());
            assert(s.filter(p) == g);
            assert forall|k: int| 0 <= k < g.len() implies s.contains(#[trigger] g[k]) by {
                if k < f.len() {
                    assert(g[k] == f[k]);
                } else {
                    assert(s[s.len() - 1] == g[k]);
                }
            }
            assert forall|i: int, j: int| 0 <= i < j < g.len() implies g[i].offer_id
                < g[j].offer_id by {
                assert(g[i] == f[i]);
                if j < f.len() {
                    assert(g[j] == f[j]);
                }
            }
        }
    }
}

/// The listing of active offers holds only active offers of the store, and
/// every active offer exactly once: it is listed, and no two listed offers
/// share an identifier.
pub proof fn lemma_active_listing_exact(s: Seq<Offer>)
    requires
        offers_valid(s),
    ensures
        forall|k: int|
            0 <= k < active_offers(s).len() ==> (#[trigger] active_offers(s)[k]).status
                == OfferStatus::Active && s.contains(active_offers(s)[k]),
        forall|i: int|
            0 <= i < s.len() && (#[trigger] s[i]).status == OfferStatus::Active
                ==> active_offers(s).contains(s[i]),
        forall|j1: int, j2: int|
            0 <= j1 < active_offers(s).len() && 0 <= j2 < active_offers(s).len() && j1 != j2
                ==> (#[trigger] active_offers(s)[j1]).offer_id != (#[trigger] active_offers(
                s,
            )[j2]).offer_id,
{
    let p = |o: Offer| is_active(o);
    assert forall|i: int, j: int| 0 <= i < j < s.len() implies s[i].offer_id < s[j].offer_id by {
        assert(s[i].offer_id == i + 1);
        assert(s[j].offer_id == j + 1);
    }
    lemma_filter_keeps_order(s, p);
    broadcast use Seq::lemma_filter_pred, Seq::lemma_filter_contains;
    assert forall|j1: int, j2: int|
        0 <= j1 < active_offers(s).len() && 0 <= j2 < active_offers(s).len() && j1 != j2
            implies (#[trigger] active_offers(s)[j1]).offer_id != (#[trigger] active_offers(
            s,
        )[j2]).offer_id by {
        if j1 < j2 {
            assert(s.filter(p)[j1].offer_id < s.filter(p)[j2].offer_id);
        } else {
            assert(s.filter(p)[j2].offer_id < s.filter(p)[j1].offer_id);
        }
    }
}

} // verus!
