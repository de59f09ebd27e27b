use bonding_curve::codec::{BondingCurveState, StateRecord};
use bonding_curve::errors::CurveError;
use bonding_curve::handlers::{process_instruction, AccountRef, CustodyOp};

fn ident(b: u8) -> Vec<u8> {
    vec![b; 32]
}

fn record_with(token_reserve: u64, collateral_reserve: u64) -> StateRecord {
    let state = BondingCurveState {
        initialized: true,
        token_reserve,
        token_mint: ident(2),
        collateral_reserve,
        collateral_mint: ident(4),
        total_supply: 1_000_000_000,
        migration_threshold: 800_000_000,
    };
    StateRecord { identity: ident(1), owner: ident(9), data: state.encode() }
}

fn migrate_accounts() -> Vec<AccountRef> {
    // The venue's receiving account and the token subsystem.
    vec![
        AccountRef { identity: ident(30), owner: ident(31) },
        AccountRef { identity: ident(13), owner: ident(14) },
    ]
}

#[test]
fn migrate_below_the_threshold_is_a_successful_noop() {
    let mut state = record_with(799_999_999, 100);
    let before = state.data.clone();
    let ops =
        process_instruction(&ident(9), &mut state, &migrate_accounts(), &vec![3]).unwrap();
    assert!(ops.is_empty());
    assert_eq!(state.data, before);
}

#[test]
fn migrate_at_the_threshold_pays_out_net_of_the_fee() {
    let mut state = record_with(800_000_000, 100);
    let before = state.data.clone();
    let ops =
        process_instruction(&ident(9), &mut state, &migrate_accounts(), &vec![3]).unwrap();
    assert_eq!(ops.len(), 1);
    match &ops[0] {
        CustodyOp::Transfer { from, to, authority, amount } => {
            assert_eq!(from, &ident(1));
            assert_eq!(to, &ident(30));
            assert_eq!(authority, &ident(1));
            // Collected 100 - 30 beyond the seed, minus the fee of 6.
            assert_eq!(*amount, 64);
        },
        _ => panic!("expected the collateral to move to the venue"),
    }
    assert_eq!(state.data, before);
}

#[test]
fn migrate_with_too_little_collected_fails() {
    // Collateral below the seed reserve.
    let mut state = record_with(800_000_000, 20);
    let r = process_instruction(&ident(9), &mut state, &migrate_accounts(), &vec![3]);
    assert_eq!(r.err(), Some(CurveError::ArithmeticOverflow));

    // Collected, but less than the fee.
    let mut state = record_with(800_000_000, 33);
    let r = process_instruction(&ident(9), &mut state, &migrate_accounts(), &vec![3]);
    assert_eq!(r.err(), Some(CurveError::ArithmeticOverflow));
}

#[test]
fn migrate_pays_exactly_nothing_at_the_fee_boundary() {
    let mut state = record_with(800_000_000, 36);
    let ops =
        process_instruction(&ident(9), &mut state, &migrate_accounts(), &vec![3]).unwrap();
    assert_eq!(ops.len(), 1);
    match &ops[0] {
        CustodyOp::Transfer { amount, .. } => assert_eq!(*amount, 0),
        _ => panic!("expected a transfer of the zero payout"),
    }
}

#[test]
fn migrate_on_a_fresh_record_is_rejected() {
    let mut state = StateRecord { identity: ident(1), owner: ident(9), data: vec![0u8; 97] };
    let r = process_instruction(&ident(9), &mut state, &migrate_accounts(), &vec![3]);
    assert_eq!(r.err(), Some(CurveError::UninitializedAccount));
}
