use bonding_curve::authority::derive_authority;
use bonding_curve::codec::{BondingCurveState, StateRecord, STATE_LEN};
use bonding_curve::errors::CurveError;
use bonding_curve::handlers::{process_instruction, AccountRef, CustodyOp};

fn ident(b: u8) -> Vec<u8> {
    vec![b; 32]
}

fn acct(id: u8, owner: u8) -> AccountRef {
    AccountRef { identity: ident(id), owner: ident(owner) }
}

fn program_id() -> Vec<u8> {
    ident(9)
}

fn fresh_record() -> StateRecord {
    StateRecord { identity: ident(1), owner: ident(9), data: vec![0u8; STATE_LEN] }
}

fn init_accounts() -> Vec<AccountRef> {
    // Token mint, custodial holding account, collateral mint.
    vec![acct(2, 8), acct(3, 8), acct(4, 8)]
}

fn initialized_record(bump: u8) -> StateRecord {
    let mut state = fresh_record();
    let ops = process_instruction(&program_id(), &mut state, &init_accounts(), &vec![0, bump]);
    assert!(ops.is_ok());
    state
}

fn trade_accounts(custodial: Vec<u8>) -> Vec<AccountRef> {
    let token_program = ident(13);
    vec![
        // Buyer or seller, their token account, the token mint, the custodial
        // account, the collateral mint, the token subsystem.
        acct(21, 21),
        AccountRef { identity: ident(22), owner: token_program.clone() },
        acct(2, 8),
        AccountRef { identity: custodial, owner: token_program.clone() },
        acct(4, 8),
        AccountRef { identity: token_program.clone(), owner: ident(14) },
    ]
}

fn buy_data(bump: u8, amount: u64) -> Vec<u8> {
    let mut data = vec![1, bump];
    data.extend_from_slice(&amount.to_le_bytes());
    data
}

fn sell_data(amount: u64) -> Vec<u8> {
    let mut data = vec![2];
    data.extend_from_slice(&amount.to_le_bytes());
    data
}

fn decoded(state: &StateRecord) -> BondingCurveState {
    BondingCurveState::from_account_info(state, &program_id()).unwrap()
}

#[test]
fn test_initialize() {
    let bump = 254u8;
    let mut state = fresh_record();
    let ops =
        process_instruction(&program_id(), &mut state, &init_accounts(), &vec![0, bump]).unwrap();

    let s = decoded(&state);
    assert!(s.is_initialized());
    assert_eq!(s.vtoken_reserve_amount(), 1_073_000_000);
    assert_eq!(s.vsol_reserve_amount(), 30);
    assert_eq!(s.vtoken_mint(), ident(2));
    assert_eq!(s.vsol_mint(), ident(4));
    assert_eq!(s.total_supply(), 1_000_000_000);
    assert_eq!(s.allocation_at_migration(), 800_000_000);

    assert_eq!(ops.len(), 1);
    let derived = derive_authority(&program_id(), &state.identity, bump).0;
    match &ops[0] {
        CustodyOp::CreateTokenAccount { token, owner, mint, signer } => {
            assert_eq!(token, &ident(3));
            assert_eq!(owner, &derived);
            assert_eq!(mint, &ident(2));
            assert_eq!(signer.state_identity, state.identity);
            assert_eq!(signer.bump, bump);
        },
        _ => panic!("expected the custodial account to be created"),
    }
}

#[test]
fn test_buy() {
    let bump = 7u8;
    let mut state = initialized_record(bump);
    let custodial = derive_authority(&program_id(), &state.identity, bump).0;
    let accounts = trade_accounts(custodial.clone());

    let ops =
        process_instruction(&program_id(), &mut state, &accounts, &buy_data(bump, 1000)).unwrap();

    let s = decoded(&state);
    assert_eq!(s.vtoken_reserve_amount(), 1_073_001_000);
    assert_eq!(s.vsol_reserve_amount(), 31);

    assert_eq!(ops.len(), 2);
    match &ops[0] {
        CustodyOp::Transfer { from, to, authority, amount } => {
            assert_eq!(from, &ident(22));
            assert_eq!(to, &custodial);
            assert_eq!(authority, &ident(21));
            assert_eq!(*amount, 1);
        },
        _ => panic!("expected the buyer to pay the cost first"),
    }
    match &ops[1] {
        CustodyOp::MintTo { mint, destination, authority, amount, signer } => {
            assert_eq!(mint, &ident(2));
            assert_eq!(destination, &ident(22));
            assert_eq!(authority, &custodial);
            assert_eq!(*amount, 1000);
            assert_eq!(signer.bump, bump);
        },
        _ => panic!("expected the bought tokens to be minted"),
    }
}

#[test]
fn sell_after_buy_refunds_no_more_than_the_cost() {
    let bump = 7u8;
    let mut state = initialized_record(bump);
    let custodial = derive_authority(&program_id(), &state.identity, bump).0;
    let accounts = trade_accounts(custodial.clone());

    process_instruction(&program_id(), &mut state, &accounts, &buy_data(bump, 1000)).unwrap();
    let cost = decoded(&state).vsol_reserve_amount() - 30;

    let ops = process_instruction(&program_id(), &mut state, &accounts, &sell_data(1000)).unwrap();
    let s = decoded(&state);
    assert_eq!(s.vtoken_reserve_amount(), 1_073_000_000);
    let refund = match &ops[1] {
        CustodyOp::Transfer { from, to, authority, amount } => {
            assert_eq!(from, &custodial);
            assert_eq!(to, &ident(22));
            assert_eq!(authority, &state.identity);
            *amount
        },
        _ => panic!("expected the refund transfer"),
    };
    assert!(refund <= cost);
    assert_eq!(s.vsol_reserve_amount(), 31 - refund);
    match &ops[0] {
        CustodyOp::Burn { source, mint, authority, amount } => {
            assert_eq!(source, &ident(22));
            assert_eq!(mint, &ident(2));
            assert_eq!(authority, &ident(21));
            assert_eq!(*amount, 1000);
        },
        _ => panic!("expected the sold tokens to be burned"),
    }
}

#[test]
fn initialize_twice_fails_and_leaves_the_state_alone() {
    let bump = 254u8;
    let mut state = initialized_record(bump);
    let before = state.data.clone();
    let second =
        process_instruction(&program_id(), &mut state, &init_accounts(), &vec![0, bump]);
    assert_eq!(second.err(), Some(CurveError::InvalidState));
    assert_eq!(state.data, before);
}

#[test]
fn buy_on_a_fresh_record_is_rejected() {
    let bump = 3u8;
    let mut state = fresh_record();
    let custodial = derive_authority(&program_id(), &state.identity, bump).0;
    let r = process_instruction(
        &program_id(),
        &mut state,
        &trade_accounts(custodial),
        &buy_data(bump, 1000),
    );
    assert_eq!(r.err(), Some(CurveError::UninitializedAccount));
}

#[test]
fn buy_with_a_wrong_custodial_account_is_rejected() {
    let bump = 3u8;
    let mut state = initialized_record(bump);
    let r = process_instruction(
        &program_id(),
        &mut state,
        &trade_accounts(ident(44)),
        &buy_data(bump, 1000),
    );
    assert_eq!(r.err(), Some(CurveError::AddressMismatch));
}

#[test]
fn buy_with_a_foreign_token_account_is_rejected() {
    let bump = 3u8;
    let mut state = initialized_record(bump);
    let custodial = derive_authority(&program_id(), &state.identity, bump).0;
    let mut accounts = trade_accounts(custodial);
    accounts[1].owner = ident(40);
    let r = process_instruction(&program_id(), &mut state, &accounts, &buy_data(bump, 1000));
    assert_eq!(r.err(), Some(CurveError::OwnerMismatch));
}

#[test]
fn buy_with_an_unbound_mint_is_rejected() {
    let bump = 3u8;
    let mut state = initialized_record(bump);
    let custodial = derive_authority(&program_id(), &state.identity, bump).0;
    let mut accounts = trade_accounts(custodial);
    accounts[2].identity = ident(41);
    let r = process_instruction(&program_id(), &mut state, &accounts, &buy_data(bump, 1000));
    assert_eq!(r.err(), Some(CurveError::AddressMismatch));
}

#[test]
fn wrong_account_arity_is_rejected() {
    let mut state = fresh_record();
    let r = process_instruction(&program_id(), &mut state, &vec![acct(2, 8)], &vec![0, 1]);
    assert_eq!(r.err(), Some(CurveError::NotEnoughAccounts));
}

#[test]
fn zero_amounts_are_rejected_end_to_end() {
    let bump = 3u8;
    let mut state = initialized_record(bump);
    let custodial = derive_authority(&program_id(), &state.identity, bump).0;
    let accounts = trade_accounts(custodial);
    let buy = process_instruction(&program_id(), &mut state, &accounts, &buy_data(bump, 0));
    assert_eq!(buy.err(), Some(CurveError::InvalidAmount));
    let sell = process_instruction(&program_id(), &mut state, &accounts, &sell_data(0));
    assert_eq!(sell.err(), Some(CurveError::InvalidAmount));
}

#[test]
fn selling_the_whole_reserve_is_rejected_end_to_end() {
    let bump = 3u8;
    let mut state = initialized_record(bump);
    let custodial = derive_authority(&program_id(), &state.identity, bump).0;
    let accounts = trade_accounts(custodial);
    let r = process_instruction(
        &program_id(),
        &mut state,
        &accounts,
        &sell_data(1_073_000_000),
    );
    assert_eq!(r.err(), Some(CurveError::InvalidAmount));
}
