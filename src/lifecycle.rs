use vstd::prelude::*;

use crate::offer::{Address, EscrowError, Offer, OfferStatus, Payout};

verus! {

/// What creating an offer for `recipient` with `payment`, called by `caller`, yields:
/// the payment must be positive, and the recipient must be someone else.
pub open spec fn create_check(caller: Address, recipient: Address, payment: u128) -> Result<
    (),
    EscrowError,
> {
    if payment == 0 {
        Err(EscrowError::InvalidPayment)
    } else if caller == recipient {
        Err(EscrowError::SelfOfferRejected)
    } else {
        Ok(())
    }
}

/// `offer` with its status replaced.
pub open spec fn with_status(offer: Offer, status: OfferStatus) -> Offer {
    Offer { status, ..offer }
}

/// What accepting `offer` by `caller` yields: only the recipient of an active
/// offer may accept it, and is then paid the whole amount.
pub open spec fn accept_outcome(offer: Offer, caller: Address) -> Result<Payout, EscrowError> {
    if offer.status != OfferStatus::Active {
        Err(EscrowError::OfferNotActive)
    } else if caller != offer.recipient {
        Err(EscrowError::NotAuthorized)
    } else {
        Ok(Payout { to: offer.recipient, amount: offer.amount })
    }
}

/// What cancelling `offer` by `caller` yields: only the creator of an active
/// offer may cancel it, and is then refunded the whole amount.
pub open spec fn cancel_outcome(offer: Offer, caller: Address) -> Result<Payout, EscrowError> {
    if offer.status != OfferStatus::Active {
        Err(EscrowError::OfferNotActive)
    } else if caller != offer.creator {
        Err(EscrowError::NotAuthorized)
    } else {
        Ok(Payout { to: offer.creator, amount: offer.amount })
    }
}

/// Decides whether `caller` may create an offer for `recipient` with `payment`.
pub fn check_create(caller: &Address, recipient: &Address, payment: u128) -> (r: Result<
    (),
    EscrowError,
>)
    ensures
        r == create_check(*caller, *recipient, payment),
{
    if payment == 0 {
        Err(EscrowError::InvalidPayment)
    } else if caller.same_as(recipient) {
        Err(EscrowError::SelfOfferRejected)
    } else {
        Ok(())
    }
}

impl Offer {
    /// Whether the offer still holds its funds.
    pub fn is_active(&self) -> (r: bool)
        ensures
            r == (self.status == OfferStatus::Active),
    {
        self.status == OfferStatus::Active
    }

    /// Accepts the offer on behalf of `caller`. On success the offer is
    /// `Completed` and the returned payout goes to the recipient; on failure
    /// the offer is left as it was.
    pub fn accept(&mut self, caller: &Address) -> (r: Result<Payout, EscrowError>)
        ensures
            r == accept_outcome(*old(self), *caller),
            *final(self) == (match r {
                Ok(_) => with_status(*old(self), OfferStatus::Completed),
                Err(_) => *old(self),
            }),
    {
        if !self.is_active() {
            return Err(EscrowError::OfferNotActive);
        }
        if !caller.same_as(&self.recipient) {
            return Err(EscrowError::NotAuthorized);
        }
        self.status = OfferStatus::Completed;
        Ok(Payout { to: self.recipient, amount: self.amount })
    }

    /// Cancels the offer on behalf of `caller`. On success the offer is
    /// `Cancelled` and the returned payout refunds the creator; on failure
    /// the offer is left as it was.
    pub fn cancel(&mut self, caller: &Address) -> (r: Result<Payout, EscrowError>)
        ensures
            r == cancel_outcome(*old(self), *caller),
            *final(self) == (match r {
                Ok(_) => with_status(*old(self), OfferStatus::Cancelled),
                Err(_) => *old(self),
            }),
    {
        if !self.is_active() {
            return Err(EscrowError::OfferNotActive);
        }
        if !caller.same_as(&self.creator) {
            return Err(EscrowError::NotAuthorized);
        }
        self.status = OfferStatus::Cancelled;
        Ok(Payout { to: self.creator, amount: self.amount })
    }
}

/// A resolved offer stays resolved: accepting or cancelling it again is
/// rejected as not active, and moves no funds.
pub proof fn lemma_resolved_offer_rejects(offer: Offer, caller: Address)
    requires
        offer.status != OfferStatus::Active,
    ensures
        accept_outcome(offer, caller) == Err::<Payout, EscrowError>(EscrowError::OfferNotActive),
        cancel_outcome(offer, caller) == Err::<Payout, EscrowError>(EscrowError::OfferNotActive),
{
}

} // verus!
