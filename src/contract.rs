use vstd::prelude::*;

use crate::lifecycle::{accept_outcome, cancel_outcome, check_create, create_check, with_status};
use crate::offer::{Address, EscrowError, Offer, OfferStatus, Payout};

verus! {

/// Every offer is stored at position `id - 1`, holds a positive amount, and
/// names a recipient other than its creator.
pub open spec fn offers_valid(s: Seq<Offer>) -> bool {
    forall|i: int|
        0 <= i < s.len() ==> {
            &&& (#[trigger] s[i]).offer_id == i + 1
            &&& s[i].amount > 0
            &&& s[i].creator != s[i].recipient
        }
}

/// The offer with identifier `id`, if there is one.
pub open spec fn find_offer(s: Seq<Offer>, id: u64) -> Option<Offer> {
    if 1 <= id && id <= s.len() {
        Some(s[id - 1])
    } else {
        None
    }
}

/// The offer still holds its funds.
pub open spec fn is_active(o: Offer) -> bool {
    o.status == OfferStatus::Active
}

/// Offers that `user` created.
pub open spec fn created_by(user: Address) -> spec_fn(Offer) -> bool {
    |o: Offer| o.creator == user
}

/// Offers addressed to `user`.
pub open spec fn incoming_to(user: Address) -> spec_fn(Offer) -> bool {
    |o: Offer| o.recipient == user
}

/// Active offers that `user` created.
pub open spec fn active_created_by(user: Address) -> spec_fn(Offer) -> bool {
    |o: Offer| o.creator == user && o.status == OfferStatus::Active
}

/// Active offers addressed to `user`.
pub open spec fn active_incoming_to(user: Address) -> spec_fn(Offer) -> bool {
    |o: Offer| o.recipient == user && o.status == OfferStatus::Active
}

/// The active offers, in the order in which they are stored.
pub open spec fn active_offers(s: Seq<Offer>) -> Seq<Offer> {
    s.filter(|o: Offer| is_active(o))
}

/// The identifiers of the offers that satisfy `p`, in the order in which they are stored.
pub open spec fn ids_where(s: Seq<Offer>, p: spec_fn(Offer) -> bool) -> Seq<u64> {
    s.filter(p).map_values(|o: Offer| o.offer_id)
}

/// One creation on the offers `s`: what the call returns and the offers after it.
pub open spec fn create_step(
    s: Seq<Offer>,
    caller: Address,
    recipient: Address,
    payment: u128,
    timestamp: u64,
) -> (Result<u64, EscrowError>, Seq<Offer>) {
    match create_check(caller, recipient, payment) {
        Err(e) => (Err(e), s),
        Ok(_) => (
            Ok((s.len() + 1) as u64),
            s.push(
                Offer {
                    offer_id: (s.len() + 1) as u64,
                    creator: caller,
                    recipient,
                    amount: payment,
                    status: OfferStatus::Active,
                    created_timestamp: timestamp,
                },
            ),
        ),
    }
}

/// One acceptance on the offers `s`: what the call returns and the offers after it.
pub open spec fn accept_step(s: Seq<Offer>, caller: Address, offer_id: u64) -> (
    Result<Payout, EscrowError>,
    Seq<Offer>,
) {
    match find_offer(s, offer_id) {
        None => (Err(EscrowError::OfferNotFound), s),
        Some(o) => match accept_outcome(o, caller) {
            Ok(pay) => (Ok(pay), s.update(offer_id - 1, with_status(o, OfferStatus::Completed))),
            Err(e) => (Err(e), s),
        },
    }
}

/// One cancellation on the offers `s`: what the call returns and the offers after it.
pub open spec fn cancel_step(s: Seq<Offer>, caller: Address, offer_id: u64) -> (
    Result<Payout, EscrowError>,
    Seq<Offer>,
) {
    match find_offer(s, offer_id) {
        None => (Err(EscrowError::OfferNotFound), s),
        Some(o) => match cancel_outcome(o, caller) {
            Ok(pay) => (Ok(pay), s.update(offer_id - 1, with_status(o, OfferStatus::Cancelled))),
            Err(e) => (Err(e), s),
        },
    }
}

/// The escrow's whole state: the offers, by identifier, and for each address
/// the offers it created and the offers addressed to it.
pub struct EscrowContract {
    last_offer_id: u64,
    offers: Vec<Offer>,
    user_offers: Vec<(Address, u64)>,
    user_incoming_offers: Vec<(Address, u64)>,
}

impl View for EscrowContract {
    type V = Seq<Offer>;

    /// The offers ever created, the one with identifier `id` at position `id - 1`.
    closed spec fn view(&self) -> Seq<Offer> {
        self.offers@
    }
}

impl EscrowContract {
    /// The counter matches the stored offers, and each index entry records
    /// the creator, or the recipient, of the offer with the same position.
    pub closed spec fn wf(&self) -> bool {
        &&& self.last_offer_id == self.offers@.len()
        &&& offers_valid(self.offers@)
        &&& self.user_offers@.len() == self.offers@.len()
        &&& self.user_incoming_offers@.len() == self.offers@.len()
        &&& forall|i: int|
            0 <= i < self.offers@.len() ==> #[trigger] self.user_offers@[i] == (
                self.offers@[i].creator,
                self.offers@[i].offer_id,
            )
        &&& forall|i: int|
            0 <= i < self.offers@.len() ==> #[trigger] self.user_incoming_offers@[i] == (
                self.offers@[i].recipient,
                self.offers@[i].offer_id,
            )
    }

    /// What a well-formed escrow promises of its offers.
    pub proof fn lemma_wf_offers_valid(&self)
        requires
            self.wf(),
        ensures
            offers_valid(self@),
            self@.len() <= u64::MAX,
    {
    }

    /// An escrow with no offers; the first offer created gets identifier 1.
    pub fn init() -> (r: Self)
        ensures
            r.wf(),
            r@ == Seq::<Offer>::empty(),
    {
        EscrowContract {
            last_offer_id: 0,
            offers: Vec::new(),
            user_offers: Vec::new(),
            user_incoming_offers: Vec::new(),
        }
    }

    /// The identifier of the latest offer, 0 when there is none.
    pub fn last_offer_id(&self) -> (r: u64)
        requires
            self.wf(),
        ensures
            r == self@.len(),
    {
        self.last_offer_id
    }

    /// The offer with identifier `offer_id`.
    pub fn get_offer(&self, offer_id: u64) -> (r: Result<Offer, EscrowError>)
        requires
            self.wf(),
        ensures
            r == (match find_offer(self@, offer_id) {
                Some(o) => Ok::<Offer, EscrowError>(o),
                None => Err(EscrowError::OfferNotFound),
            }),
    {
        if offer_id == 0 || offer_id > self.last_offer_id {
            return Err(EscrowError::OfferNotFound);
        }
        let n: usize = self.offers.len();
        assert(offer_id - 1 < n);
        Ok(self.offers[(offer_id - 1) as usize])
    }

    /// Creates an offer of `payment`, escrowed from `caller`, for `recipient`,
    /// and returns its identifier, one more than the latest. A zero payment
    /// is rejected first, then an offer to oneself; a rejected call changes
    /// nothing, the counter included.
    pub fn create_offer(
        &mut self,
        caller: Address,
        recipient: Address,
        payment: u128,
        timestamp: u64,
    ) -> (r: Result<u64, EscrowError>)
        requires
            old(self).wf(),
            old(self)@.len() < u64::MAX,
        ensures
            final(self).wf(),
            (r, final(self)@) == create_step(old(self)@, caller, recipient, payment, timestamp),
            payment == 0 ==> r == Err::<u64, EscrowError>(EscrowError::InvalidPayment),
            payment > 0 && caller == recipient ==> r == Err::<u64, EscrowError>(
                EscrowError::SelfOfferRejected,
            ),
            payment > 0 && caller != recipient ==> {
                &&& r == Ok::<u64, EscrowError>((old(self)@.len() + 1) as u64)
                &&& final(self)@ == old(self)@.push(
                    Offer {
                        offer_id: (old(self)@.len() + 1) as u64,
                        creator: caller,
                        recipient,
                        amount: payment,
                        status: OfferStatus::Active,
                        created_timestamp: timestamp,
                    },
                )
            },
            r is Err ==> final(self)@ == old(self)@,
    {
        match check_create(&caller, &recipient, payment) {
            Err(e) => {
                return Err(e);
            },
            Ok(()) => {},
        }
        let new_offer_id = self.last_offer_id + 1;
        self.last_offer_id = new_offer_id;
        let offer = Offer {
            offer_id: new_offer_id,
            creator: caller,
            recipient,
            amount: payment,
            status: OfferStatus::Active,
            created_timestamp: timestamp,
        };
        self.offers.push(offer);
        self.user_offers.push((caller, new_offer_id));
        self.user_incoming_offers.push((recipient, new_offer_id));
        Ok(new_offer_id)
    }

    /// Index of the offer `offer_id` in the store, if it exists.
    fn position_of(&self, offer_id: u64) -> (r: Option<usize>)
        requires
            self.wf(),
        ensures
            r is None <==> find_offer(self@, offer_id) is None,
            r matches Some(i) ==> i == offer_id - 1 && i < self@.len(),
    {
        if offer_id == 0 || offer_id > self.last_offer_id {
            return None;
        }
        let n: usize = self.offers.len();
        assert(offer_id - 1 < n);
        Some((offer_id - 1) as usize)
    }

    /// The recipient of offer `offer_id` accepts it: the offer becomes
    /// `Completed` and its whole amount is paid out to the recipient. The
    /// status is settled before the payout is handed back, so the payout can
    /// happen at most once. A rejected call changes nothing.
    pub fn accept_offer(&mut self, caller: Address, offer_id: u64) -> (r: Result<
        Payout,
        EscrowError,
    >)
        requires
            old(self).wf(),
        ensures
            final(self).wf(),
            (r, final(self)@) == accept_step(old(self)@, caller, offer_id),
            find_offer(old(self)@, offer_id) is None ==> r == Err::<Payout, EscrowError>(
                EscrowError::OfferNotFound,
            ),
            find_offer(old(self)@, offer_id) matches Some(o) ==> r == accept_outcome(o, caller),
            find_offer(old(self)@, offer_id) matches Some(o) ==> (r is Ok <==> (o.status
                == OfferStatus::Active && caller == o.recipient)),
            find_offer(old(self)@, offer_id) matches Some(o) ==> (r is Ok ==> {
                &&& r == Ok::<Payout, EscrowError>(Payout { to: o.recipient, amount: o.amount })
                &&& final(self)@ == old(self)@.update(
                    offer_id - 1,
                    with_status(o, OfferStatus::Completed),
                )
            }),
            r is Err ==> final(self)@ == old(self)@,
    {
        let idx = match self.position_of(offer_id) {
            None => {
                return Err(EscrowError::OfferNotFound);
            },
            Some(i) => i,
        };
        let mut offer = self.offers[idx];
        let r = offer.accept(&caller);
        if r.is_ok() {
            self.offers.set(idx, offer);
        }
        proof {
            assert(self.offers@.len() == old(self).offers@.len());
            assert forall|i: int| 0 <= i < self.offers@.len() implies #[trigger] self.user_offers@[i] == (
                self.offers@[i].creator,
                self.offers@[i].offer_id,
            ) && self.user_incoming_offers@[i] == (self.offers@[i].recipient, self.offers@[i].offer_id) by {
                assert(old(self).user_offers@[i] == (old(self).offers@[i].creator, old(self).offers@[i].offer_id));
                assert(old(self).user_incoming_offers@[i] == (old(self).offers@[i].recipient, old(self).offers@[i].offer_id));
            }
        }
        r
    }

    /// The creator of offer `offer_id` cancels it: the offer becomes
    /// `Cancelled` and its whole amount is refunded to the creator. The
    /// status is settled before the refund is handed back, so the refund can
    /// happen at most once. A rejected call changes nothing.
    pub fn cancel_offer(&mut self, caller: Address, offer_id: u64) -> (r: Result<
        Payout,
        EscrowError,
    >)
        requires
            old(self).wf(),
        ensures
            final(self).wf(),
            (r, final(self)@) == cancel_step(old(self)@, caller, offer_id),
            find_offer(old(self)@, offer_id) is None ==> r == Err::<Payout, EscrowError>(
                EscrowError::OfferNotFound,
            ),
            find_offer(old(self)@, offer_id) matches Some(o) ==> r == cancel_outcome(o, caller),
            find_offer(old(self)@, offer_id) matches Some(o) ==> (r is Ok <==> (o.status
                == OfferStatus::Active && caller == o.creator)),
            find_offer(old(self)@, offer_id) matches Some(o) ==> (r is Ok ==> {
                &&& r == Ok::<Payout, EscrowError>(Payout { to: o.creator, amount: o.amount })
                &&& final(self)@ == old(self)@.update(
                    offer_id - 1,
                    with_status(o, OfferStatus::Cancelled),
                )
            }),
            r is Err ==> final(self)@ == old(self)@,
    {
        let idx = match self.position_of(offer_id) {
            None => {
                return Err(EscrowError::OfferNotFound);
            },
            Some(i) => i,
        };
        let mut offer = self.offers[idx];
        let r = offer.cancel(&caller);
        if r.is_ok() {
            self.offers.set(idx, offer);
        }
        proof {
            assert(self.offers@.len() == old(self).offers@.len());
            assert forall|i: int| 0 <= i < self.offers@.len() implies #[trigger] self.user_offers@[i] == (
                self.offers@[i].creator,
                self.offers@[i].offer_id,
            ) && self.user_incoming_offers@[i] == (self.offers@[i].recipient, self.offers@[i].offer_id) by {
                assert(old(self).user_offers@[i] == (old(self).offers@[i].creator, old(self).offers@[i].offer_id));
                assert(old(self).user_incoming_offers@[i] == (old(self).offers@[i].recipient, old(self).offers@[i].offer_id));
            }
        }
        r
    }

    /// All active offers, in order of identifier.
    pub fn get_active_offers(&self) -> (r: Vec<Offer>)
        requires
            self.wf(),
        ensures
            r@ == active_offers(self@),
    {
        let mut result: Vec<Offer> = Vec::new();
        let mut i: usize = 0;
        while i < self.offers.len()
            invariant
                i <= self.offers@.len(),
                result@ == active_offers(self.offers@.take(i as int)),
            decreases self.offers@.len() - i,
        {
            let offer = self.offers[i];
            proof {
                reveal(Seq::filter);
                assert(self.offers@.take(i + 1).drop_last() =~= self.offers@.take(i as int));
            }
            if offer.is_active() {
                result.push(offer);
            }
            i = i + 1;
        }
        assert(self.offers@.take(self.offers@.len() as int) =~= self.offers@);
        result
    }

    /// The offers in `index` listed under `user`, where each entry names the
    /// `party` of the offer at the same position, in order of identifier,
    /// the active ones only if `active_only`. `p` is that selection.
    fn offers_listed(
        &self,
        index: &Vec<(Address, u64)>,
        user: &Address,
        active_only: bool,
        Ghost(party): Ghost<spec_fn(Offer) -> Address>,
        Ghost(p): Ghost<spec_fn(Offer) -> bool>,
    ) -> (r: Vec<Offer>)
        requires
            self.wf(),
            index@.len() == self@.len(),
            forall|i: int|
                0 <= i < self@.len() ==> #[trigger] index@[i] == (party(self@[i]), self@[i].offer_id),
            forall|o: Offer| #[trigger] p(o) == (party(o) == *user && (!active_only || is_active(o))),
        ensures
            r@ == self@.filter(p),
    {
        let mut result: Vec<Offer> = Vec::new();
        let mut i: usize = 0;
        while i < index.len()
            invariant
                self.wf(),
                index@.len() == self@.len(),
                forall|j: int|
                    0 <= j < self@.len() ==> #[trigger] index@[j] == (party(self@[j]), self@[j].offer_id),
                forall|o: Offer| #[trigger] p(o) == (party(o) == *user && (!active_only || is_active(o))),
                i <= index@.len(),
                result@ == self@.take(i as int).filter(p),
            decreases index@.len() - i,
        {
            let (who, offer_id) = index[i];
            let ghost current = self@[i as int];
            proof {
                reveal(Seq::filter);
                assert(self@.take(i + 1).drop_last() =~= self@.take(i as int));
                assert(self@.take(i + 1).last() == current);
                assert(current.offer_id == i + 1);
                assert(index@[i as int] == (party(current), current.offer_id));
            }
            if who.same_as(user) {
                let offer = self.offers[(offer_id - 1) as usize];
                assert(offer == current);
                if !active_only || offer.is_active() {
                    result.push(offer);
                }
            }
            assert(p(current) == (party(current) == *user && (!active_only || is_active(current))));
            i = i + 1;
        }
        assert(self@.take(self@.len() as int) =~= self@);
        result
    }

    /// The identifiers of the offers that `user` created.
    pub fn get_user_offers(&self, user: Address) -> (r: Vec<u64>)
        requires
            self.wf(),
        ensures
            r@ == ids_where(self@, created_by(user)),
    {
        let listed = self.offers_listed(
            &self.user_offers,
            &user,
            false,
            Ghost(|o: Offer| o.creator),
            Ghost(created_by(user)),
        );
        ids_of(&listed)
    }

    /// The identifiers of the offers addressed to `user`.
    pub fn get_user_incoming_offers(&self, user: Address) -> (r: Vec<u64>)
        requires
            self.wf(),
        ensures
            r@ == ids_where(self@, incoming_to(user)),
    {
        let listed = self.offers_listed(
            &self.user_incoming_offers,
            &user,
            false,
            Ghost(|o: Offer| o.recipient),
            Ghost(incoming_to(user)),
        );
        ids_of(&listed)
    }

    /// The active offers that `user` created, in order of identifier.
    pub fn get_user_active_offers(&self, user: Address) -> (r: Vec<Offer>)
        requires
            self.wf(),
        ensures
            r@ == self@.filter(active_created_by(user)),
    {
        let listed = self.offers_listed(
            &self.user_offers,
            &user,
            true,
            Ghost(|o: Offer| o.creator),
            Ghost(active_created_by(user)),
        );
        listed
    }

    /// The active offers addressed to `user`, in order of identifier.
    pub fn get_user_incoming_active_offers(&self, user: Address) -> (r: Vec<Offer>)
        requires
            self.wf(),
        ensures
            r@ == self@.filter(active_incoming_to(user)),
    {
        let listed = self.offers_listed(
            &self.user_incoming_offers,
            &user,
            true,
            Ghost(|o: Offer| o.recipient),
            Ghost(active_incoming_to(user)),
        );
        listed
    }
}

/// The identifiers of `offers`, in the same order.
fn ids_of(offers: &Vec<Offer>) -> (r: Vec<u64>)
    ensures
        r@ == offers@.map_values(|o: Offer| o.offer_id),
{
    let mut ids: Vec<u64> = Vec::new();
    let mut i: usize = 0;
    while i < offers.len()
        invariant
            i <= offers@.len(),
            ids@ == offers@.take(i as int).map_values(|o: Offer| o.offer_id),
        decreases offers@.len() - i,
    {
        ids.push(offers[i].offer_id);
        assert(offers@.take(i + 1).map_values(|o: Offer| o.offer_id) =~= offers@.take(
            i as int,
        ).map_values(|o: Offer| o.offer_id).push(offers@[i as int].offer_id));
        i = i + 1;
    }
    assert(offers@.take(offers@.len() as int) =~= offers@);
    ids
}

} // verus!
