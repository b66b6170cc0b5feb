use vstd::prelude::*;

verus! {

/// The identity of an account: its 32 address bytes.
#[derive(Clone, Copy, Debug, PartialEq, Eq)]
pub struct Address {
    pub bytes: [u8; 32],
}

impl Address {
    /// Whether two addresses name the same account, byte for byte.
    pub fn same_as(&self, other: &Address) -> (r: bool)
        ensures
            r == (*self == *other),
    {
        let mut i: usize = 0;
        while i < 32
            invariant
                i <= 32,
                forall|j: int| 0 <= j < i ==> self.bytes[j] == other.bytes[j],
            decreases 32 - i,
        {
            if self.bytes[i] != other.bytes[i] {
                return false;
            }
            i = i + 1;
        }
        assert(self.bytes =~= other.bytes);
        true
    }
}

/// Where an offer stands in its lifecycle. `Completed` and `Cancelled` are final.
#[derive(Clone, Copy, Debug, PartialEq, Eq, Structural)]
pub enum OfferStatus {
    Active,
    Completed,
    Cancelled,
}

/// One escrowed payment from `creator` to `recipient`. Only `status` ever changes.
#[derive(Clone, Copy, Debug, PartialEq, Eq)]
pub struct Offer {
    pub offer_id: u64,
    pub creator: Address,
    pub recipient: Address,
    pub amount: u128,
    pub status: OfferStatus,
    pub created_timestamp: u64,
}

/// The one fund movement that a resolved offer asks for: `amount` to `to`.
#[derive(Clone, Copy, Debug, PartialEq, Eq)]
pub struct Payout {
    pub to: Address,
    pub amount: u128,
}

/// Why a call was rejected. A rejected call changes nothing.
#[derive(Clone, Copy, Debug, PartialEq, Eq, Structural)]
pub enum EscrowError {
    InvalidPayment,
    SelfOfferRejected,
    OfferNotFound,
    OfferNotActive,
    NotAuthorized,
}

impl EscrowError {
    /// A human-readable message for the error.
    pub fn message(&self) -> &'static str {
        match self {
            EscrowError::InvalidPayment => "Payment must be greater than 0",
            EscrowError::SelfOfferRejected => "Cannot create an offer to yourself",
            EscrowError::OfferNotFound => "Offer does not exist",
            EscrowError::OfferNotActive => "Offer is not active",
            EscrowError::NotAuthorized => "Caller is not allowed to resolve this offer",
        }
    }
}

} // verus!
