use escrow_contract::{check_create, Address, EscrowContract, EscrowError, Offer, OfferStatus, Payout};

fn addr(b: u8) -> Address {
    Address { bytes: [b; 32] }
}

fn user_a() -> Address {
    addr(0xa1)
}

fn user_b() -> Address {
    addr(0xb2)
}

fn user_c() -> Address {
    addr(0xc3)
}

#[test]
fn init_starts_with_no_offers() {
    let c = EscrowContract::init();
    assert_eq!(c.last_offer_id(), 0);
    assert_eq!(c.get_offer(1), Err(EscrowError::OfferNotFound));
    assert!(c.get_active_offers().is_empty());
}

#[test]
fn create_then_accept_pays_recipient_once() {
    let mut c = EscrowContract::init();
    assert_eq!(c.create_offer(user_a(), user_b(), 100, 1_700_000_000), Ok(1));
    let offer = c.get_offer(1).unwrap();
    assert_eq!(
        offer,
        Offer {
            offer_id: 1,
            creator: user_a(),
            recipient: user_b(),
            amount: 100,
            status: OfferStatus::Active,
            created_timestamp: 1_700_000_000,
        }
    );
    assert_eq!(c.accept_offer(user_b(), 1), Ok(Payout { to: user_b(), amount: 100 }));
    assert_eq!(c.get_offer(1).unwrap().status, OfferStatus::Completed);
    assert_eq!(c.accept_offer(user_b(), 1), Err(EscrowError::OfferNotActive));
}

#[test]
fn create_then_cancel_refunds_creator() {
    let mut c = EscrowContract::init();
    assert_eq!(c.create_offer(user_a(), user_c(), 50, 5), Ok(1));
    assert_eq!(c.cancel_offer(user_a(), 1), Ok(Payout { to: user_a(), amount: 50 }));
    assert_eq!(c.get_offer(1).unwrap().status, OfferStatus::Cancelled);
    assert_eq!(c.accept_offer(user_c(), 1), Err(EscrowError::OfferNotActive));
}

#[test]
fn self_offer_is_rejected_without_effect() {
    let mut c = EscrowContract::init();
    assert_eq!(c.create_offer(user_a(), user_a(), 10, 5), Err(EscrowError::SelfOfferRejected));
    assert_eq!(c.last_offer_id(), 0);
    assert_eq!(c.get_offer(1), Err(EscrowError::OfferNotFound));
}

#[test]
fn zero_payment_is_rejected_without_effect() {
    let mut c = EscrowContract::init();
    assert_eq!(c.create_offer(user_a(), user_b(), 0, 5), Err(EscrowError::InvalidPayment));
    // a zero payment is reported first, even to oneself
    assert_eq!(c.create_offer(user_a(), user_a(), 0, 5), Err(EscrowError::InvalidPayment));
    assert_eq!(c.last_offer_id(), 0);
    assert_eq!(c.create_offer(user_a(), user_b(), 1, 5), Ok(1));
    assert_eq!(c.create_offer(user_a(), user_b(), 0, 5), Err(EscrowError::InvalidPayment));
    assert_eq!(c.last_offer_id(), 1);
}

#[test]
fn each_creation_advances_the_counter_by_one() {
    let mut c = EscrowContract::init();
    for k in 1..=5u64 {
        assert_eq!(c.create_offer(user_a(), user_b(), k as u128 * 10, k), Ok(k));
        assert_eq!(c.last_offer_id(), k);
        let o = c.get_offer(k).unwrap();
        assert_eq!(o.amount, k as u128 * 10);
        assert_eq!(o.status, OfferStatus::Active);
    }
}

#[test]
fn largest_amount_is_kept_whole() {
    let mut c = EscrowContract::init();
    assert_eq!(c.create_offer(user_a(), user_b(), u128::MAX, 0), Ok(1));
    assert_eq!(c.accept_offer(user_b(), 1), Ok(Payout { to: user_b(), amount: u128::MAX }));
}

#[test]
fn unknown_offer_is_not_found() {
    let mut c = EscrowContract::init();
    c.create_offer(user_a(), user_b(), 7, 0).unwrap();
    assert_eq!(c.accept_offer(user_b(), 0), Err(EscrowError::OfferNotFound));
    assert_eq!(c.accept_offer(user_b(), 2), Err(EscrowError::OfferNotFound));
    assert_eq!(c.cancel_offer(user_a(), 2), Err(EscrowError::OfferNotFound));
    assert_eq!(c.get_offer(u64::MAX), Err(EscrowError::OfferNotFound));
}

#[test]
fn only_recipient_accepts_and_only_creator_cancels() {
    let mut c = EscrowContract::init();
    c.create_offer(user_a(), user_b(), 7, 0).unwrap();
    assert_eq!(c.accept_offer(user_a(), 1), Err(EscrowError::NotAuthorized));
    assert_eq!(c.accept_offer(user_c(), 1), Err(EscrowError::NotAuthorized));
    assert_eq!(c.cancel_offer(user_b(), 1), Err(EscrowError::NotAuthorized));
    assert_eq!(c.cancel_offer(user_c(), 1), Err(EscrowError::NotAuthorized));
    assert_eq!(c.get_offer(1).unwrap().status, OfferStatus::Active);
}

#[test]
fn resolved_offers_reject_every_further_call() {
    let mut c = EscrowContract::init();
    c.create_offer(user_a(), user_b(), 7, 0).unwrap();
    c.create_offer(user_a(), user_b(), 8, 0).unwrap();
    c.accept_offer(user_b(), 1).unwrap();
    c.cancel_offer(user_a(), 2).unwrap();
    for id in 1..=2u64 {
        let before = c.get_offer(id).unwrap();
        for who in [user_a(), user_b(), user_c()] {
            assert_eq!(c.accept_offer(who, id), Err(EscrowError::OfferNotActive));
            assert_eq!(c.cancel_offer(who, id), Err(EscrowError::OfferNotActive));
        }
        assert_eq!(c.get_offer(id).unwrap(), before);
    }
}

#[test]
fn active_listing_holds_each_active_offer_once() {
    let mut c = EscrowContract::init();
    c.create_offer(user_a(), user_b(), 1, 0).unwrap();
    c.create_offer(user_b(), user_c(), 2, 0).unwrap();
    c.create_offer(user_c(), user_a(), 3, 0).unwrap();
    c.create_offer(user_a(), user_c(), 4, 0).unwrap();
    c.accept_offer(user_c(), 2).unwrap();
    c.cancel_offer(user_a(), 4).unwrap();
    let ids: Vec<u64> = c.get_active_offers().iter().map(|o| o.offer_id).collect();
    assert_eq!(ids, vec![1, 3]);
    assert!(c.get_active_offers().iter().all(|o| o.status == OfferStatus::Active));
}

#[test]
fn per_user_views_filter_by_party_and_status() {
    let mut c = EscrowContract::init();
    c.create_offer(user_a(), user_b(), 1, 0).unwrap();
    c.create_offer(user_a(), user_c(), 2, 0).unwrap();
    c.create_offer(user_b(), user_a(), 3, 0).unwrap();
    c.create_offer(user_a(), user_b(), 4, 0).unwrap();
    c.cancel_offer(user_a(), 1).unwrap();

    assert_eq!(c.get_user_offers(user_a()), vec![1, 2, 4]);
    assert_eq!(c.get_user_incoming_offers(user_b()), vec![1, 4]);
    assert_eq!(c.get_user_incoming_offers(user_a()), vec![3]);
    assert!(c.get_user_offers(user_c()).is_empty());

    let active_by_a: Vec<u64> = c.get_user_active_offers(user_a()).iter().map(|o| o.offer_id).collect();
    assert_eq!(active_by_a, vec![2, 4]);
    let active_to_b: Vec<u64> =
        c.get_user_incoming_active_offers(user_b()).iter().map(|o| o.offer_id).collect();
    assert_eq!(active_to_b, vec![4]);
    assert!(c.get_user_incoming_active_offers(addr(0)).is_empty());
}

#[test]
fn create_check_orders_its_rejections() {
    assert_eq!(check_create(&user_a(), &user_b(), 1), Ok(()));
    assert_eq!(check_create(&user_a(), &user_b(), 0), Err(EscrowError::InvalidPayment));
    assert_eq!(check_create(&user_a(), &user_a(), 1), Err(EscrowError::SelfOfferRejected));
    assert_eq!(check_create(&user_a(), &user_a(), 0), Err(EscrowError::InvalidPayment));
}

#[test]
fn offer_transitions_in_place() {
    let mut o = Offer {
        offer_id: 3,
        creator: user_a(),
        recipient: user_b(),
        amount: 9,
        status: OfferStatus::Active,
        created_timestamp: 0,
    };
    assert!(o.is_active());
    assert_eq!(o.cancel(&user_b()), Err(EscrowError::NotAuthorized));
    assert_eq!(o.accept(&user_b()), Ok(Payout { to: user_b(), amount: 9 }));
    assert_eq!(o.status, OfferStatus::Completed);
    assert!(!o.is_active());
    assert_eq!(o.cancel(&user_a()), Err(EscrowError::OfferNotActive));
}

#[test]
fn addresses_differ_in_any_byte() {
    let a = user_a();
    let mut b = a;
    assert!(a.same_as(&b));
    b.bytes[31] ^= 1;
    assert!(!a.same_as(&b));
}

#[test]
fn errors_have_messages() {
    assert_eq!(EscrowError::OfferNotActive.message(), "Offer is not active");
    assert_eq!(EscrowError::InvalidPayment.message(), "Payment must be greater than 0");
    assert_ne!(EscrowError::NotAuthorized.message(), EscrowError::OfferNotFound.message());
}
