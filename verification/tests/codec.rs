use bonding_curve::codec::{
    bytes_eq, write_reserves, BondingCurveState, StateRecord, STATE_LEN,
};
use bonding_curve::errors::CurveError;

fn ident(b: u8) -> Vec<u8> {
    vec![b; 32]
}

fn sample_state() -> BondingCurveState {
    BondingCurveState {
        initialized: true,
        token_reserve: 1_073_000_000,
        token_mint: ident(2),
        collateral_reserve: 30,
        collateral_mint: ident(4),
        total_supply: 1_000_000_000,
        migration_threshold: 800_000_000,
    }
}

#[test]
fn encode_then_decode_round_trips() {
    let encoded = sample_state().encode();
    assert_eq!(encoded.len(), STATE_LEN);
    let record = StateRecord { identity: ident(1), owner: ident(9), data: encoded };
    let decoded = BondingCurveState::from_account_info(&record, &ident(9)).unwrap();
    assert!(decoded.is_initialized());
    assert_eq!(decoded.vtoken_reserve_amount(), 1_073_000_000);
    assert_eq!(decoded.vtoken_mint(), ident(2));
    assert_eq!(decoded.vsol_reserve_amount(), 30);
    assert_eq!(decoded.vsol_mint(), ident(4));
    assert_eq!(decoded.total_supply(), 1_000_000_000);
    assert_eq!(decoded.allocation_at_migration(), 800_000_000);
}

#[test]
fn layout_fields_sit_at_fixed_offsets() {
    let encoded = sample_state().encode();
    assert_eq!(encoded[0], 1);
    assert_eq!(&encoded[1..9], &1_073_000_000u64.to_le_bytes());
    assert_eq!(&encoded[9..41], ident(2).as_slice());
    assert_eq!(&encoded[41..49], &30u64.to_le_bytes());
    assert_eq!(&encoded[49..81], ident(4).as_slice());
    assert_eq!(&encoded[81..89], &1_000_000_000u64.to_le_bytes());
    assert_eq!(&encoded[89..97], &800_000_000u64.to_le_bytes());
}

#[test]
fn wrong_size_record_is_rejected() {
    let record = StateRecord { identity: ident(1), owner: ident(9), data: vec![0u8; 96] };
    assert!(matches!(
        BondingCurveState::from_account_info(&record, &ident(9)),
        Err(CurveError::InvalidLayout)
    ));
}

#[test]
fn foreign_owner_is_rejected() {
    let record = StateRecord { identity: ident(1), owner: ident(8), data: vec![0u8; STATE_LEN] };
    assert!(matches!(
        BondingCurveState::from_account_info(&record, &ident(9)),
        Err(CurveError::InvalidLayout)
    ));
}

#[test]
fn write_reserves_touches_only_the_reserve_bytes() {
    let mut data = sample_state().encode();
    let before = data.clone();
    write_reserves(&mut data, 1_073_001_000, 31);
    assert_eq!(&data[1..9], &1_073_001_000u64.to_le_bytes());
    assert_eq!(&data[41..49], &31u64.to_le_bytes());
    for i in 0..STATE_LEN {
        if !(1..9).contains(&i) && !(41..49).contains(&i) {
            assert_eq!(data[i], before[i]);
        }
    }
}

#[test]
fn bytes_eq_compares_contents() {
    assert!(bytes_eq(&vec![1, 2, 3], &vec![1, 2, 3]));
    assert!(!bytes_eq(&vec![1, 2, 3], &vec![1, 2, 4]));
    assert!(!bytes_eq(&vec![1, 2, 3], &vec![1, 2]));
    assert!(bytes_eq(&Vec::new(), &Vec::new()));
}
