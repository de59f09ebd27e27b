use vstd::prelude::*;

use crate::authority::{derive_authority, derived_identity, SigningCapability, SigningCapabilityView};
use crate::codec::{
    bytes_eq, copy_bytes, decoded, with_reserves, write_reserves, BondingCurveState,
    BondingCurveStateView, StateRecord, StateRecordView, STATE_LEN,
};
use crate::errors::CurveError;
use crate::instruction::{parse_result, BondingCurveInstruction};
use crate::pricing::{calculate_cost, calculate_refund, cost_result, refund_result};
use crate::{ALLOCATION_AT_MIGRATION, INITIAL_VSOL, INITIAL_VTOKEN, MIGRATION_FEE, TOTAL_SUPPLY};

verus! {

/// A read-only account handle as the host supplies it: its identity and the
/// identity of the subsystem that owns it.
pub struct AccountRef {
    pub identity: Vec<u8>,
    pub owner: Vec<u8>,
}

/// The mathematical image of an account handle.
#[verifier::ext_equal]
pub struct AccountRefView {
    pub identity: Seq<u8>,
    pub owner: Seq<u8>,
}

impl View for AccountRef {
    type V = AccountRefView;

    open spec fn view(&self) -> AccountRefView {
        AccountRefView { identity: self.identity@, owner: self.owner@ }
    }
}

/// One operation a handler asks the external token-custody subsystem to
/// perform, in order, after the handler returns.
pub enum CustodyOp {
    /// Create the custodial holding account for `mint`, owned by `owner`,
    /// signed for with the derived capability.
    CreateTokenAccount { token: Vec<u8>, owner: Vec<u8>, mint: Vec<u8>, signer: SigningCapability },
    /// Move `amount` units from `from` to `to` on `authority`'s say-so.
    Transfer { from: Vec<u8>, to: Vec<u8>, authority: Vec<u8>, amount: u64 },
    /// Mint `amount` new tokens of `mint` to `destination`, signed for with
    /// the derived capability.
    MintTo {
        mint: Vec<u8>,
        destination: Vec<u8>,
        authority: Vec<u8>,
        amount: u64,
        signer: SigningCapability,
    },
    /// Burn `amount` tokens of `mint` held by `source`.
    Burn { source: Vec<u8>, mint: Vec<u8>, authority: Vec<u8>, amount: u64 },
}

/// The mathematical image of a custody operation.
#[verifier::ext_equal]
pub enum CustodyOpView {
    CreateTokenAccount {
        token: Seq<u8>,
        owner: Seq<u8>,
        mint: Seq<u8>,
        signer: SigningCapabilityView,
    },
    Transfer { from: Seq<u8>, to: Seq<u8>, authority: Seq<u8>, amount: u64 },
    MintTo {
        mint: Seq<u8>,
        destination: Seq<u8>,
        authority: Seq<u8>,
        amount: u64,
        signer: SigningCapabilityView,
    },
    Burn { source: Seq<u8>, mint: Seq<u8>, authority: Seq<u8>, amount: u64 },
}

impl View for CustodyOp {
    type V = CustodyOpView;

    open spec fn view(&self) -> CustodyOpView {
        match self {
            CustodyOp::CreateTokenAccount { token, owner, mint, signer } => (
            CustodyOpView::CreateTokenAccount {
                token: token@,
                owner: owner@,
                mint: mint@,
                signer: signer@,
            }),
            CustodyOp::Transfer { from, to, authority, amount } => (CustodyOpView::Transfer {
                from: from@,
                to: to@,
                authority: authority@,
                amount: *amount,
            }),
            CustodyOp::MintTo { mint, destination, authority, amount, signer } => (
            CustodyOpView::MintTo {
                mint: mint@,
                destination: destination@,
                authority: authority@,
                amount: *amount,
                signer: signer@,
            }),
            CustodyOp::Burn { source, mint, authority, amount } => (CustodyOpView::Burn {
                source: source@,
                mint: mint@,
                authority: authority@,
                amount: *amount,
            }),
        }
    }
}

/// Everything a successful handler leaves behind: the state record's bytes
/// and the custody operations it asks for, in order.
#[verifier::ext_equal]
pub struct Effects {
    pub data: Seq<u8>,
    pub ops: Seq<CustodyOpView>,
}

/// The images of a sequence of account handles.
pub open spec fn account_views(s: Seq<AccountRef>) -> Seq<AccountRefView> {
    s.map_values(|a: AccountRef| a@)
}

/// The images of a sequence of custody operations.
pub open spec fn op_views(s: Seq<CustodyOp>) -> Seq<CustodyOpView> {
    s.map_values(|op: CustodyOp| op@)
}

/// An account handle carries full 32-byte identities.
pub open spec fn account_wf(a: AccountRefView) -> bool {
    &&& a.identity.len() == 32
    &&& a.owner.len() == 32
}

/// Every account handle in the sequence carries full identities.
pub open spec fn accounts_wf(s: Seq<AccountRefView>) -> bool {
    forall|i: int| 0 <= i < s.len() ==> #[trigger] account_wf(s[i])
}

/// The record has the fixed size and is owned by this program.
pub open spec fn layout_ok(program_id: Seq<u8>, state: StateRecordView) -> bool {
    &&& state.data.len() == STATE_LEN
    &&& state.owner == program_id
}

/// What Initialize does. Accounts: the token mint, the custodial holding
/// account, the collateral mint. A record that is already set up is never
/// re-seeded; otherwise the full initial state is written and the custody
/// subsystem is asked to create the custodial account for the token mint,
/// owned by the derived authority.
pub open spec fn initialize_outcome(
    program_id: Seq<u8>,
    state: StateRecordView,
    accounts: Seq<AccountRefView>,
    bump: u8,
) -> Result<Effects, CurveError> {
    if accounts.len() != 3 {
        Err(CurveError::NotEnoughAccounts)
    } else if !layout_ok(program_id, state) {
        Err(CurveError::InvalidLayout)
    } else if decoded(state.data).initialized {
        Err(CurveError::InvalidState)
    } else {
        Ok(
            Effects {
                data: crate::codec::encoded(
                    BondingCurveStateView {
                        initialized: true,
                        token_reserve: INITIAL_VTOKEN,
                        token_mint: accounts[0].identity,
                        collateral_reserve: INITIAL_VSOL,
                        collateral_mint: accounts[2].identity,
                        total_supply: TOTAL_SUPPLY,
                        migration_threshold: ALLOCATION_AT_MIGRATION,
                    },
                ),
                ops: seq![
                    CustodyOpView::CreateTokenAccount {
                        token: accounts[1].identity,
                        owner: derived_identity(state.identity, bump, program_id),
                        mint: accounts[0].identity,
                        signer: SigningCapabilityView { state_identity: state.identity, bump },
                    },
                ],
            },
        )
    }
}

/// What Buy does. Accounts: the buyer, the buyer's token account, the token
/// mint, the custodial holding account, the collateral mint, the token
/// subsystem. The custodial identity must equal the derived authority, the
/// two token accounts must be owned by the token subsystem, the mints must be
/// the ones bound at Initialize. The buyer then pays the priced cost into the
/// custodial account and is minted `amount` tokens, and both reserves grow
/// accordingly.
pub open spec fn buy_outcome(
    program_id: Seq<u8>,
    state: StateRecordView,
    accounts: Seq<AccountRefView>,
    bump: u8,
    amount: u64,
) -> Result<Effects, CurveError> {
    if accounts.len() != 6 {
        Err(CurveError::NotEnoughAccounts)
    } else if accounts[3].identity != derived_identity(state.identity, bump, program_id) {
        Err(CurveError::AddressMismatch)
    } else if !layout_ok(program_id, state) {
        Err(CurveError::InvalidLayout)
    } else {
        let cur = decoded(state.data);
        if !cur.initialized {
            Err(CurveError::UninitializedAccount)
        } else if accounts[1].owner != accounts[5].identity || accounts[3].owner
            != accounts[5].identity {
            Err(CurveError::OwnerMismatch)
        } else if accounts[2].identity != cur.token_mint || accounts[4].identity
            != cur.collateral_mint {
            Err(CurveError::AddressMismatch)
        } else {
            match cost_result(cur.token_reserve, cur.collateral_reserve, amount) {
                Err(e) => Err(e),
                Ok(cost) => if cur.collateral_reserve + cost > u64::MAX {
                    Err(CurveError::ArithmeticOverflow)
                } else {
                    Ok(
                        Effects {
                            data: with_reserves(
                                state.data,
                                (cur.token_reserve + amount) as u64,
                                (cur.collateral_reserve + cost) as u64,
                            ),
                            ops: seq![
                                CustodyOpView::Transfer {
                                    from: accounts[1].identity,
                                    to: accounts[3].identity,
                                    authority: accounts[0].identity,
                                    amount: cost,
                                },
                                CustodyOpView::MintTo {
                                    mint: accounts[2].identity,
                                    destination: accounts[1].identity,
                                    authority: derived_identity(state.identity, bump, program_id),
                                    amount,
                                    signer: SigningCapabilityView {
                                        state_identity: state.identity,
                                        bump,
                                    },
                                },
                            ],
                        },
                    )
                },
            }
        }
    }
}

/// What Sell does. Accounts: the seller, the seller's token account, the
/// token mint, the custodial holding account, the collateral mint, the token
/// subsystem. After the analogous checks, `amount` tokens are burned from the
/// seller, the priced refund moves from the custodial account back to the
/// seller with the state record as authority, and both reserves shrink
/// accordingly.
pub open spec fn sell_outcome(
    program_id: Seq<u8>,
    state: StateRecordView,
    accounts: Seq<AccountRefView>,
    amount: u64,
) -> Result<Effects, CurveError> {
    if accounts.len() != 6 {
        Err(CurveError::NotEnoughAccounts)
    } else if !layout_ok(program_id, state) {
        Err(CurveError::InvalidLayout)
    } else {
        let cur = decoded(state.data);
        if !cur.initialized {
            Err(CurveError::UninitializedAccount)
        } else if accounts[1].owner != accounts[5].identity || accounts[3].owner
            != accounts[5].identity {
            Err(CurveError::OwnerMismatch)
        } else if accounts[2].identity != cur.token_mint || accounts[4].identity
            != cur.collateral_mint {
            Err(CurveError::AddressMismatch)
        } else {
            match refund_result(cur.token_reserve, cur.collateral_reserve, amount) {
                Err(e) => Err(e),
                Ok(refund) => if refund > cur.collateral_reserve {
                    Err(CurveError::ArithmeticOverflow)
                } else {
                    Ok(
                        Effects {
                            data: with_reserves(
                                state.data,
                                (cur.token_reserve - amount) as u64,
                                (cur.collateral_reserve - refund) as u64,
                            ),
                            ops: seq![
                                CustodyOpView::Burn {
                                    source: accounts[1].identity,
                                    mint: accounts[2].identity,
                                    authority: accounts[0].identity,
                                    amount,
                                },
                                CustodyOpView::Transfer {
                                    from: accounts[3].identity,
                                    to: accounts[1].identity,
                                    authority: state.identity,
                                    amount: refund,
                                },
                            ],
                        },
                    )
                },
            }
        }
    }
}

/// What Migrate does. Accounts: the external venue's receiving account, the
/// token subsystem. Below the migration threshold it is a no-op that still
/// succeeds, so callers may poll it. At or above the threshold the collateral
/// collected beyond the seed, net of the fixed fee, moves from the state
/// record to the venue, the record acting as its own signer; collecting less
/// than seed plus fee is an arithmetic failure, never a wrap. The record
/// itself is not changed.
pub open spec fn migrate_outcome(
    program_id: Seq<u8>,
    state: StateRecordView,
    accounts: Seq<AccountRefView>,
) -> Result<Effects, CurveError> {
    if accounts.len() != 2 {
        Err(CurveError::NotEnoughAccounts)
    } else if !layout_ok(program_id, state) {
        Err(CurveError::InvalidLayout)
    } else {
        let cur = decoded(state.data);
        if !cur.initialized {
            Err(CurveError::UninitializedAccount)
        } else if cur.token_reserve >= cur.migration_threshold {
            if cur.collateral_reserve < INITIAL_VSOL {
                Err(CurveError::ArithmeticOverflow)
            } else if cur.collateral_reserve - INITIAL_VSOL < MIGRATION_FEE {
                Err(CurveError::ArithmeticOverflow)
            } else {
                Ok(
                    Effects {
                        data: state.data,
                        ops: seq![
                            CustodyOpView::Transfer {
                                from: state.identity,
                                to: accounts[0].identity,
                                authority: state.identity,
                                amount: (cur.collateral_reserve - INITIAL_VSOL
                                    - MIGRATION_FEE) as u64,
                            },
                        ],
                    },
                )
            }
        } else {
            Ok(Effects { data: state.data, ops: Seq::empty() })
        }
    }
}

/// What one whole invocation does: decode the instruction, then run its
/// handler.
pub open spec fn instruction_outcome(
    program_id: Seq<u8>,
    state: StateRecordView,
    accounts: Seq<AccountRefView>,
    data: Seq<u8>,
) -> Result<Effects, CurveError> {
    match parse_result(data) {
        Err(e) => Err(e),
        Ok(ins) => match ins {
            BondingCurveInstruction::Initialize { bump } => initialize_outcome(
                program_id,
                state,
                accounts,
                bump,
            ),
            BondingCurveInstruction::Buy { bump, amount } => buy_outcome(
                program_id,
                state,
                accounts,
                bump,
                amount,
            ),
            BondingCurveInstruction::Sell { amount } => sell_outcome(
                program_id,
                state,
                accounts,
                amount,
            ),
            BondingCurveInstruction::Migrate => migrate_outcome(program_id, state, accounts),
        },
    }
}

/// A record that is already set up is never re-seeded: Initialize on it
/// fails, whatever the accounts and discriminator.
pub proof fn lemma_initialize_rejects_initialized(
    program_id: Seq<u8>,
    state: StateRecordView,
    accounts: Seq<AccountRefView>,
    bump: u8,
)
    requires
        accounts.len() == 3,
        layout_ok(program_id, state),
        decoded(state.data).initialized,
    ensures
        initialize_outcome(program_id, state, accounts, bump) == Err::<Effects, CurveError>(
            CurveError::InvalidState,
        ),
{
}

/// Migrate below the threshold is a no-op that succeeds: the record's bytes
/// stay as they are and no custody operation is issued.
pub proof fn lemma_migrate_below_threshold_is_noop(
    program_id: Seq<u8>,
    state: StateRecordView,
    accounts: Seq<AccountRefView>,
)
    requires
        accounts.len() == 2,
        layout_ok(program_id, state),
        decoded(state.data).initialized,
        decoded(state.data).token_reserve < decoded(state.data).migration_threshold,
    ensures
        migrate_outcome(program_id, state, accounts) == Ok::<Effects, CurveError>(
            Effects { data: state.data, ops: Seq::empty() },
        ),
{
}

/// What a successful Initialize writes decodes to the seed state, bound to
/// the supplied mint identities.
pub proof fn lemma_initialize_writes_seed_state(
    program_id: Seq<u8>,
    state: StateRecordView,
    accounts: Seq<AccountRefView>,
    bump: u8,
)
    requires
        accounts_wf(accounts),
        initialize_outcome(program_id, state, accounts, bump) is Ok,
    ensures
        ({
            let d = decoded(initialize_outcome(program_id, state, accounts, bump)->Ok_0.data);
            &&& d.initialized
            &&& d.token_reserve == INITIAL_VTOKEN
            &&& d.collateral_reserve == INITIAL_VSOL
            &&& d.token_mint == accounts[0].identity
            &&& d.collateral_mint == accounts[2].identity
            &&& d.total_supply == TOTAL_SUPPLY
            &&& d.migration_threshold == ALLOCATION_AT_MIGRATION
        }),
{
    assert(account_wf(accounts[0]));
    assert(account_wf(accounts[2]));
    crate::codec::lemma_encode_decode_round_trip(
        BondingCurveStateView {
            initialized: true,
            token_reserve: INITIAL_VTOKEN,
            token_mint: accounts[0].identity,
            collateral_reserve: INITIAL_VSOL,
            collateral_mint: accounts[2].identity,
            total_supply: TOTAL_SUPPLY,
            migration_threshold: ALLOCATION_AT_MIGRATION,
        },
    );
}

/// The reserve product never shrinks across a successful Buy: the decoded
/// reserves after the handler multiply to at least what they did before.
pub proof fn lemma_buy_never_lowers_reserve_product(
    program_id: Seq<u8>,
    state: StateRecordView,
    accounts: Seq<AccountRefView>,
    bump: u8,
    amount: u64,
)
    requires
        buy_outcome(program_id, state, accounts, bump, amount) is Ok,
    ensures
        ({
            let pre = decoded(state.data);
            let post = decoded(buy_outcome(program_id, state, accounts, bump, amount)->Ok_0.data);
            pre.token_reserve * pre.collateral_reserve <= post.token_reserve
                * post.collateral_reserve
        }),
{
    let pre = decoded(state.data);
    let cost = cost_result(pre.token_reserve, pre.collateral_reserve, amount)->Ok_0;
    crate::codec::lemma_with_reserves_decoded(
        state.data,
        (pre.token_reserve + amount) as u64,
        (pre.collateral_reserve + cost) as u64,
    );
    crate::pricing::lemma_buy_raises_reserve_product(
        pre.token_reserve,
        pre.collateral_reserve,
        amount,
        cost,
    );
}

/// The reserve product never grows across a successful Sell: the decoded
/// reserves after the handler multiply to at most what they did before.
pub proof fn lemma_sell_never_raises_reserve_product(
    program_id: Seq<u8>,
    state: StateRecordView,
    accounts: Seq<AccountRefView>,
    amount: u64,
)
    requires
        sell_outcome(program_id, state, accounts, amount) is Ok,
    ensures
        ({
            let pre = decoded(state.data);
            let post = decoded(sell_outcome(program_id, state, accounts, amount)->Ok_0.data);
            post.token_reserve * post.collateral_reserve <= pre.token_reserve
                * pre.collateral_reserve
        }),
{
    let pre = decoded(state.data);
    let refund = refund_result(pre.token_reserve, pre.collateral_reserve, amount)->Ok_0;
    crate::codec::lemma_with_reserves_decoded(
        state.data,
        (pre.token_reserve - amount) as u64,
        (pre.collateral_reserve - refund) as u64,
    );
    crate::pricing::lemma_sell_lowers_reserve_product(
        pre.token_reserve,
        pre.collateral_reserve,
        amount,
        refund,
    );
}

/// Sets up a fresh market: writes the seed state and asks the custody
/// subsystem to create the custodial holding account. Accounts: the token
/// mint, the custodial holding account, the collateral mint.
pub fn initialize(
    program_id: &Vec<u8>,
    state: &mut StateRecord,
    accounts: &Vec<AccountRef>,
    bump: u8,
) -> (r: Result<Vec<CustodyOp>, CurveError>)
    requires
        accounts_wf(account_views(accounts@)),
    ensures
        ({
            let outcome = initialize_outcome(program_id@, old(state)@, account_views(accounts@), bump);
            match r {
                Ok(ops) => outcome matches Ok(e) && final(state)@.data == e.data
                    && op_views(ops@) == e.ops
                    && final(state)@.identity == old(state)@.identity
                    && final(state)@.owner == old(state)@.owner,
                Err(err) => outcome == Err::<Effects, CurveError>(err)
                    && final(state)@ == old(state)@,
            }
        }),
{
    if accounts.len() != 3 {
        return Err(CurveError::NotEnoughAccounts);
    }
    let cur = match BondingCurveState::from_account_info(state, program_id) {
        Ok(cur) => cur,
        Err(e) => {
            return Err(e);
        },
    };
    if cur.is_initialized() {
        return Err(CurveError::InvalidState);
    }
    let new_state = BondingCurveState {
        initialized: true,
        token_reserve: INITIAL_VTOKEN,
        token_mint: copy_bytes(&accounts[0].identity, 0, accounts[0].identity.len()),
        collateral_reserve: INITIAL_VSOL,
        collateral_mint: copy_bytes(&accounts[2].identity, 0, accounts[2].identity.len()),
        total_supply: TOTAL_SUPPLY,
        migration_threshold: ALLOCATION_AT_MIGRATION,
    };
    proof {
        assert(account_wf(account_views(accounts@)[0]));
        assert(account_wf(account_views(accounts@)[2]));
        assert(accounts@[0].identity@.subrange(0, accounts@[0].identity@.len() as int)
            =~= accounts@[0].identity@);
        assert(accounts@[2].identity@.subrange(0, accounts@[2].identity@.len() as int)
            =~= accounts@[2].identity@);
    }
    state.data = new_state.encode();
    let (derived, capability) = derive_authority(program_id, &state.identity, bump);
    let op = CustodyOp::CreateTokenAccount {
        token: copy_bytes(&accounts[1].identity, 0, accounts[1].identity.len()),
        owner: derived,
        mint: copy_bytes(&accounts[0].identity, 0, accounts[0].identity.len()),
        signer: capability,
    };
    let mut ops: Vec<CustodyOp> = Vec::new();
    ops.push(op);
    proof {
        assert(accounts@[1].identity@.subrange(0, accounts@[1].identity@.len() as int)
            =~= accounts@[1].identity@);
        let outcome = initialize_outcome(program_id@, old(state)@, account_views(accounts@), bump);
        assert(op_views(ops@) =~= outcome->Ok_0.ops);
    }
    Ok(ops)
}

/// Prices and applies a buy of `amount` tokens. Accounts: the buyer, the
/// buyer's token account, the token mint, the custodial holding account, the
/// collateral mint, the token subsystem. The state is updated before the
/// custody operations run; the host commits or discards the whole invocation
/// atomically.
pub fn buy(
    program_id: &Vec<u8>,
    state: &mut StateRecord,
    accounts: &Vec<AccountRef>,
    bump: u8,
    amount: u64,
) -> (r: Result<Vec<CustodyOp>, CurveError>)
    ensures
        ({
            let outcome = buy_outcome(
                program_id@,
                old(state)@,
                account_views(accounts@),
                bump,
                amount,
            );
            match r {
                Ok(ops) => outcome matches Ok(e) && final(state)@.data == e.data
                    && op_views(ops@) == e.ops
                    && final(state)@.identity == old(state)@.identity
                    && final(state)@.owner == old(state)@.owner,
                Err(err) => outcome == Err::<Effects, CurveError>(err)
                    && final(state)@ == old(state)@,
            }
        }),
{
    if accounts.len() != 6 {
        return Err(CurveError::NotEnoughAccounts);
    }
    let (derived, capability) = derive_authority(program_id, &state.identity, bump);
    if !bytes_eq(&accounts[3].identity, &derived) {
        return Err(CurveError::AddressMismatch);
    }
    let cur = match BondingCurveState::from_account_info(state, program_id) {
        Ok(cur) => cur,
        Err(e) => {
            return Err(e);
        },
    };
    if !cur.is_initialized() {
        return Err(CurveError::UninitializedAccount);
    }
    if !bytes_eq(&accounts[1].owner, &accounts[5].identity) || !bytes_eq(
        &accounts[3].owner,
        &accounts[5].identity,
    ) {
        return Err(CurveError::OwnerMismatch);
    }
    if !bytes_eq(&accounts[2].identity, &cur.token_mint) || !bytes_eq(
        &accounts[4].identity,
        &cur.collateral_mint,
    ) {
        return Err(CurveError::AddressMismatch);
    }
    let total_cost = match calculate_cost(cur.token_reserve, cur.collateral_reserve, amount) {
        Ok(cost) => cost,
        Err(e) => {
            return Err(e);
        },
    };
    let new_collateral = match cur.collateral_reserve.checked_add(total_cost) {
        Some(c) => c,
        None => {
            return Err(CurveError::ArithmeticOverflow);
        },
    };
    let new_token = cur.token_reserve + amount;
    write_reserves(&mut state.data, new_token, new_collateral);
    let mut ops: Vec<CustodyOp> = Vec::new();
    ops.push(
        CustodyOp::Transfer {
            from: copy_bytes(&accounts[1].identity, 0, accounts[1].identity.len()),
            to: copy_bytes(&accounts[3].identity, 0, accounts[3].identity.len()),
            authority: copy_bytes(&accounts[0].identity, 0, accounts[0].identity.len()),
            amount: total_cost,
        },
    );
    ops.push(
        CustodyOp::MintTo {
            mint: copy_bytes(&accounts[2].identity, 0, accounts[2].identity.len()),
            destination: copy_bytes(&accounts[1].identity, 0, accounts[1].identity.len()),
            authority: derived,
            amount,
            signer: capability,
        },
    );
    proof {
        assert(accounts@[0].identity@.subrange(0, accounts@[0].identity@.len() as int)
            =~= accounts@[0].identity@);
        assert(accounts@[1].identity@.subrange(0, accounts@[1].identity@.len() as int)
            =~= accounts@[1].identity@);
        assert(accounts@[2].identity@.subrange(0, accounts@[2].identity@.len() as int)
            =~= accounts@[2].identity@);
        assert(accounts@[3].identity@.subrange(0, accounts@[3].identity@.len() as int)
            =~= accounts@[3].identity@);
        let outcome = buy_outcome(program_id@, old(state)@, account_views(accounts@), bump, amount);
        assert(op_views(ops@) =~= outcome->Ok_0.ops);
    }
    Ok(ops)
}

/// Prices and applies a sell of `amount` tokens. Accounts: the seller, the
/// seller's token account, the token mint, the custodial holding account,
/// the collateral mint, the token subsystem. Same ordering caveat as Buy.
pub fn sell(
    program_id: &Vec<u8>,
    state: &mut StateRecord,
    accounts: &Vec<AccountRef>,
    amount: u64,
) -> (r: Result<Vec<CustodyOp>, CurveError>)
    ensures
        ({
            let outcome = sell_outcome(program_id@, old(state)@, account_views(accounts@), amount);
            match r {
                Ok(ops) => outcome matches Ok(e) && final(state)@.data == e.data
                    && op_views(ops@) == e.ops
                    && final(state)@.identity == old(state)@.identity
                    && final(state)@.owner == old(state)@.owner,
                Err(err) => outcome == Err::<Effects, CurveError>(err)
                    && final(state)@ == old(state)@,
            }
        }),
{
    if accounts.len() != 6 {
        return Err(CurveError::NotEnoughAccounts);
    }
    let cur = match BondingCurveState::from_account_info(state, program_id) {
        Ok(cur) => cur,
        Err(e) => {
            return Err(e);
        },
    };
    if !cur.is_initialized() {
        return Err(CurveError::UninitializedAccount);
    }
    if !bytes_eq(&accounts[1].owner, &accounts[5].identity) || !bytes_eq(
        &accounts[3].owner,
        &accounts[5].identity,
    ) {
        return Err(CurveError::OwnerMismatch);
    }
    if !bytes_eq(&accounts[2].identity, &cur.token_mint) || !bytes_eq(
        &accounts[4].identity,
        &cur.collateral_mint,
    ) {
        return Err(CurveError::AddressMismatch);
    }
    let refund = match calculate_refund(cur.token_reserve, cur.collateral_reserve, amount) {
        Ok(refund) => refund,
        Err(e) => {
            return Err(e);
        },
    };
    let new_collateral = match cur.collateral_reserve.checked_sub(refund) {
        Some(c) => c,
        None => {
            return Err(CurveError::ArithmeticOverflow);
        },
    };
    let new_token = cur.token_reserve - amount;
    write_reserves(&mut state.data, new_token, new_collateral);
    let mut ops: Vec<CustodyOp> = Vec::new();
    ops.push(
        CustodyOp::Burn {
            source: copy_bytes(&accounts[1].identity, 0, accounts[1].identity.len()),
            mint: copy_bytes(&accounts[2].identity, 0, accounts[2].identity.len()),
            authority: copy_bytes(&accounts[0].identity, 0, accounts[0].identity.len()),
            amount,
        },
    );
    ops.push(
        CustodyOp::Transfer {
            from: copy_bytes(&accounts[3].identity, 0, accounts[3].identity.len()),
            to: copy_bytes(&accounts[1].identity, 0, accounts[1].identity.len()),
            authority: copy_bytes(&state.identity, 0, state.identity.len()),
            amount: refund,
        },
    );
    proof {
        assert(accounts@[0].identity@.subrange(0, accounts@[0].identity@.len() as int)
            =~= accounts@[0].identity@);
        assert(accounts@[1].identity@.subrange(0, accounts@[1].identity@.len() as int)
            =~= accounts@[1].identity@);
        assert(accounts@[2].identity@.subrange(0, accounts@[2].identity@.len() as int)
            =~= accounts@[2].identity@);
        assert(accounts@[3].identity@.subrange(0, accounts@[3].identity@.len() as int)
            =~= accounts@[3].identity@);
        assert(old(state)@.identity.subrange(0, old(state)@.identity.len() as int)
            =~= old(state)@.identity);
        let outcome = sell_outcome(program_id@, old(state)@, account_views(accounts@), amount);
        assert(op_views(ops@) =~= outcome->Ok_0.ops);
    }
    Ok(ops)
}

/// Pays out the collected collateral, net of the fixed fee, once the token
/// reserve has crossed the migration threshold; below it, a successful
/// no-op. Accounts: the venue's receiving account, the token subsystem. The
/// record itself is never written.
pub fn migrate(program_id: &Vec<u8>, state: &StateRecord, accounts: &Vec<AccountRef>) -> (r:
    Result<Vec<CustodyOp>, CurveError>)
    ensures
        ({
            let outcome = migrate_outcome(program_id@, state@, account_views(accounts@));
            match r {
                Ok(ops) => outcome matches Ok(e) && op_views(ops@) == e.ops,
                Err(err) => outcome == Err::<Effects, CurveError>(err),
            }
        }),
{
    if accounts.len() != 2 {
        return Err(CurveError::NotEnoughAccounts);
    }
    let cur = match BondingCurveState::from_account_info(state, program_id) {
        Ok(cur) => cur,
        Err(e) => {
            return Err(e);
        },
    };
    if !cur.is_initialized() {
        return Err(CurveError::UninitializedAccount);
    }
    let mut ops: Vec<CustodyOp> = Vec::new();
    if cur.vtoken_reserve_amount() >= cur.allocation_at_migration() {
        let collected = match cur.vsol_reserve_amount().checked_sub(INITIAL_VSOL) {
            Some(c) => c,
            None => {
                return Err(CurveError::ArithmeticOverflow);
            },
        };
        let payout = match collected.checked_sub(MIGRATION_FEE) {
            Some(p) => p,
            None => {
                return Err(CurveError::ArithmeticOverflow);
            },
        };
        ops.push(
            CustodyOp::Transfer {
                from: copy_bytes(&state.identity, 0, state.identity.len()),
                to: copy_bytes(&accounts[0].identity, 0, accounts[0].identity.len()),
                authority: copy_bytes(&state.identity, 0, state.identity.len()),
                amount: payout,
            },
        );
    }
    proof {
        assert(accounts@[0].identity@.subrange(0, accounts@[0].identity@.len() as int)
            =~= accounts@[0].identity@);
        assert(state@.identity.subrange(0, state@.identity.len() as int) =~= state@.identity);
        let outcome = migrate_outcome(program_id@, state@, account_views(accounts@));
        assert(op_views(ops@) =~= outcome->Ok_0.ops);
    }
    Ok(ops)
}

/// One whole invocation: decodes the instruction buffer, dispatches to the
/// one handler it selects, and hands back the custody operations the host
/// must issue. The state record is the first account; `accounts` are the
/// rest, in the order each handler documents.
pub fn process_instruction(
    program_id: &Vec<u8>,
    state: &mut StateRecord,
    accounts: &Vec<AccountRef>,
    instruction_data: &Vec<u8>,
) -> (r: Result<Vec<CustodyOp>, CurveError>)
    requires
        accounts_wf(account_views(accounts@)),
    ensures
        ({
            let outcome = instruction_outcome(
                program_id@,
                old(state)@,
                account_views(accounts@),
                instruction_data@,
            );
            match r {
                Ok(ops) => outcome matches Ok(e) && final(state)@.data == e.data
                    && op_views(ops@) == e.ops
                    && final(state)@.identity == old(state)@.identity
                    && final(state)@.owner == old(state)@.owner,
                Err(err) => outcome == Err::<Effects, CurveError>(err)
                    && final(state)@ == old(state)@,
            }
        }),
{
    let ins = match BondingCurveInstruction::parse(instruction_data) {
        Ok(ins) => ins,
        Err(e) => {
            return Err(e);
        },
    };
    match ins {
        BondingCurveInstruction::Initialize { bump } => initialize(program_id, state, accounts, bump),
        BondingCurveInstruction::Buy { bump, amount } => buy(program_id, state, accounts, bump, amount),
        BondingCurveInstruction::Sell { amount } => sell(program_id, state, accounts, amount),
        BondingCurveInstruction::Migrate => migrate(program_id, &*state, accounts),
    }
}

} // verus!
