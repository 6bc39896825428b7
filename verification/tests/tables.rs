use escrow::error::EscrowError;
use escrow::identity::Identity;
use escrow::record::{check_custody, Escrow, Vault};
use escrow::settlement::{
    platform_fee, settle_dispute, settle_refund, settle_release, Settlement, PLATFORM_FEE_BPS,
};
use escrow::status::{role_allowed, transition, EscrowStatus, Operation, Role};

const STATUSES: [EscrowStatus; 6] = [
    EscrowStatus::Initialized,
    EscrowStatus::Funded,
    EscrowStatus::Released,
    EscrowStatus::Refunded,
    EscrowStatus::Disputed,
    EscrowStatus::Resolved,
];

const OPERATIONS: [Operation; 5] = [
    Operation::Fund,
    Operation::Release,
    Operation::Refund,
    Operation::OpenDispute,
    Operation::ResolveDispute,
];

fn record(status: EscrowStatus) -> Escrow {
    Escrow {
        buyer: Identity::new([1u8; 32]),
        seller: Identity::new([2u8; 32]),
        platform: Identity::new([3u8; 32]),
        order_id: String::from("order-7"),
        amount: 500,
        status,
        created_at: 1,
        funded_at: None,
        released_at: None,
        refunded_at: None,
        disputed_at: None,
        resolved_at: None,
        resolution_buyer_amount: None,
        resolution_seller_amount: None,
    }
}

#[test]
fn transition_table() {
    let expected = [
        (EscrowStatus::Initialized, Operation::Fund, EscrowStatus::Funded),
        (EscrowStatus::Funded, Operation::Release, EscrowStatus::Released),
        (EscrowStatus::Funded, Operation::Refund, EscrowStatus::Refunded),
        (EscrowStatus::Funded, Operation::OpenDispute, EscrowStatus::Disputed),
        (EscrowStatus::Disputed, Operation::Refund, EscrowStatus::Refunded),
        (EscrowStatus::Disputed, Operation::ResolveDispute, EscrowStatus::Resolved),
    ];
    for from in STATUSES {
        for op in OPERATIONS {
            let want = expected.iter().find(|(f, o, _)| *f == from && *o == op).map(|(_, _, t)| *t);
            assert_eq!(transition(from, op), want);
        }
    }
}

#[test]
fn terminal_statuses_have_no_way_out() {
    for from in STATUSES {
        let stuck = OPERATIONS.iter().all(|op| transition(from, *op).is_none());
        assert_eq!(from.is_terminal(), stuck);
    }
    assert!(EscrowStatus::Released.is_terminal());
    assert!(EscrowStatus::Refunded.is_terminal());
    assert!(EscrowStatus::Resolved.is_terminal());
    assert!(!EscrowStatus::Initialized.is_terminal());
    assert!(!EscrowStatus::Funded.is_terminal());
    assert!(!EscrowStatus::Disputed.is_terminal());
}

#[test]
fn resolved_is_entered_from_disputed_only() {
    for from in STATUSES {
        for op in OPERATIONS {
            match transition(from, op) {
                Some(EscrowStatus::Resolved) => assert_eq!(from, EscrowStatus::Disputed),
                Some(EscrowStatus::Disputed) => assert_eq!(from, EscrowStatus::Funded),
                Some(EscrowStatus::Released) => assert_eq!(from, EscrowStatus::Funded),
                Some(EscrowStatus::Funded) => assert_eq!(from, EscrowStatus::Initialized),
                _ => {}
            }
        }
    }
}

#[test]
fn authorization_table() {
    let expected = [
        (Operation::Fund, [true, false, false]),
        (Operation::Release, [true, false, true]),
        (Operation::Refund, [false, true, true]),
        (Operation::OpenDispute, [true, true, false]),
        (Operation::ResolveDispute, [false, false, true]),
    ];
    for (op, row) in expected {
        assert_eq!(role_allowed(op, Role::Buyer), row[0]);
        assert_eq!(role_allowed(op, Role::Seller), row[1]);
        assert_eq!(role_allowed(op, Role::Platform), row[2]);
    }
}

#[test]
fn authorization_goes_by_the_stored_parties() {
    let escrow = record(EscrowStatus::Funded);
    let buyer = Identity::new([1u8; 32]);
    let seller = Identity::new([2u8; 32]);
    let platform = Identity::new([3u8; 32]);
    let stranger = Identity::new([4u8; 32]);
    assert!(escrow.has_role(&buyer, Role::Buyer));
    assert!(!escrow.has_role(&buyer, Role::Seller));
    assert!(!escrow.has_role(&stranger, Role::Platform));
    assert!(escrow.is_authorized(Operation::Fund, &buyer));
    assert!(!escrow.is_authorized(Operation::Fund, &seller));
    assert!(escrow.is_authorized(Operation::Release, &platform));
    assert!(!escrow.is_authorized(Operation::Release, &seller));
    assert!(escrow.is_authorized(Operation::Refund, &seller));
    assert!(!escrow.is_authorized(Operation::Refund, &buyer));
    assert!(escrow.is_authorized(Operation::OpenDispute, &seller));
    assert!(!escrow.is_authorized(Operation::OpenDispute, &platform));
    assert!(escrow.is_authorized(Operation::ResolveDispute, &platform));
    assert!(!escrow.is_authorized(Operation::ResolveDispute, &buyer));
    for op in OPERATIONS {
        assert!(!escrow.is_authorized(op, &stranger));
    }
}

#[test]
fn identities_compare_by_bytes() {
    let a = Identity::new([7u8; 32]);
    let b = Identity::new([7u8; 32]);
    assert!(a.same(&b));
    assert_eq!(a.to_bytes(), [7u8; 32]);
    for i in 0..32 {
        let mut bytes = [7u8; 32];
        bytes[i] = 8;
        let c = Identity::new(bytes);
        assert!(!a.same(&c));
        assert!(!c.same(&a));
        assert!(c.same(&c));
    }
}

#[test]
fn custody_follows_the_status() {
    for status in STATUSES {
        let escrow = record(status);
        let holds = status == EscrowStatus::Funded || status == EscrowStatus::Disputed;
        assert_eq!(status.holds_funds(), holds);
        assert_eq!(check_custody(&escrow, &Vault { balance: 500 }), holds);
        assert_eq!(check_custody(&escrow, &Vault { balance: 0 }), !holds);
        assert!(!check_custody(&escrow, &Vault { balance: 499 }));
    }
}

#[test]
fn fee_formula() {
    assert_eq!(PLATFORM_FEE_BPS, 1000);
    assert_eq!(platform_fee(1000, 1000), Ok(100));
    assert_eq!(platform_fee(7, 1000), Ok(0));
    assert_eq!(platform_fee(9, 1000), Ok(0));
    assert_eq!(platform_fee(10, 1000), Ok(1));
    assert_eq!(platform_fee(12_345, 250), Ok(308));
    assert_eq!(platform_fee(0, 1000), Ok(0));
    assert_eq!(platform_fee(1000, 0), Ok(0));
    assert_eq!(platform_fee(u64::MAX, 1), Ok(u64::MAX / 10000));
    assert_eq!(platform_fee(u64::MAX, 2), Err(EscrowError::ArithmeticOverflow));
    assert_eq!(platform_fee(u64::MAX / 1000 + 1, 1000), Err(EscrowError::ArithmeticOverflow));
}

#[test]
fn settlement_formulas() {
    assert_eq!(
        settle_release(1000, 1000),
        Ok(Settlement { buyer_amount: 0, seller_amount: 900, fee: 100 })
    );
    assert_eq!(
        settle_release(1000, 10000),
        Ok(Settlement { buyer_amount: 0, seller_amount: 0, fee: 1000 })
    );
    assert_eq!(
        settle_release(1000, 10001),
        Ok(Settlement { buyer_amount: 0, seller_amount: 0, fee: 1000 })
    );
    assert_eq!(settle_release(1000, 10010), Err(EscrowError::ArithmeticOverflow));
    assert_eq!(settle_release(1000, 20000), Err(EscrowError::ArithmeticOverflow));
    assert_eq!(settle_refund(77), Settlement { buyer_amount: 77, seller_amount: 0, fee: 0 });
    assert_eq!(
        settle_dispute(1000, 30, 1000),
        Ok(Settlement { buyer_amount: 300, seller_amount: 630, fee: 70 })
    );
    assert_eq!(
        settle_dispute(1000, 30, 500),
        Ok(Settlement { buyer_amount: 300, seller_amount: 665, fee: 35 })
    );
    assert_eq!(settle_dispute(1000, 101, 1000), Err(EscrowError::InvalidPercentage));
    assert_eq!(settle_dispute(u64::MAX, 101, 1000), Err(EscrowError::InvalidPercentage));
    assert_eq!(settle_dispute(u64::MAX, 2, 1000), Err(EscrowError::ArithmeticOverflow));
    assert_eq!(
        settle_dispute(u64::MAX, 1, 0),
        Ok(Settlement {
            buyer_amount: u64::MAX / 100,
            seller_amount: u64::MAX - u64::MAX / 100,
            fee: 0
        })
    );
}

#[test]
fn error_messages() {
    assert_eq!(EscrowError::InvalidStatus.message(), "Invalid escrow status for this operation");
    assert_eq!(EscrowError::Unauthorized.message(), "Unauthorized to perform this action");
    assert_eq!(EscrowError::InvalidAmount.message(), "Invalid amount");
    assert_eq!(EscrowError::InvalidPercentage.message(), "Invalid percentage (must be 0-100)");
    assert_eq!(EscrowError::ArithmeticOverflow.message(), "Arithmetic overflow in settlement");
    assert_eq!(EscrowError::InvalidInput.message(), "Escrow already exists for this order");
}
