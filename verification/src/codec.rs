use vstd::prelude::*;

use crate::errors::CurveError;
use vstd::bytes::{
    lemma_auto_spec_u64_to_from_le_bytes, spec_u64_from_le_bytes, spec_u64_to_le_bytes,
    u64_from_le_bytes, u64_to_le_bytes,
};
use vstd::slice::slice_subrange;

verus! {

broadcast use vstd::seq::group_seq_axioms;

/// Fixed byte size of the state record: 1 + 8 + 32 + 8 + 32 + 8 + 8.
pub const STATE_LEN: usize = 97;

/// The persistent record of one market, decoded into plain fields. The raw
/// record lays these out in declared order, without padding, integers
/// little-endian: the initialized flag at offset 0, the token reserve at 1,
/// the token mint at 9, the collateral reserve at 41, the collateral mint at
/// 49, the total supply at 81 and the migration threshold at 89.
pub struct BondingCurveState {
    pub initialized: bool,
    pub token_reserve: u64,
    pub token_mint: Vec<u8>,
    pub collateral_reserve: u64,
    pub collateral_mint: Vec<u8>,
    pub total_supply: u64,
    pub migration_threshold: u64,
}

/// The mathematical image of a state record.
#[verifier::ext_equal]
pub struct BondingCurveStateView {
    pub initialized: bool,
    pub token_reserve: u64,
    pub token_mint: Seq<u8>,
    pub collateral_reserve: u64,
    pub collateral_mint: Seq<u8>,
    pub total_supply: u64,
    pub migration_threshold: u64,
}

impl BondingCurveStateView {
    /// Both mint identities have their full 32 bytes.
    pub open spec fn wf(self) -> bool {
        &&& self.token_mint.len() == 32
        &&& self.collateral_mint.len() == 32
    }
}

impl View for BondingCurveState {
    type V = BondingCurveStateView;

    open spec fn view(&self) -> BondingCurveStateView {
        BondingCurveStateView {
            initialized: self.initialized,
            token_reserve: self.token_reserve,
            token_mint: self.token_mint@,
            collateral_reserve: self.collateral_reserve,
            collateral_mint: self.collateral_mint@,
            total_supply: self.total_supply,
            migration_threshold: self.migration_threshold,
        }
    }
}

/// An account record as the host hands it over: its identity, the identity
/// of the program that owns it, and its raw byte buffer.
pub struct StateRecord {
    pub identity: Vec<u8>,
    pub owner: Vec<u8>,
    pub data: Vec<u8>,
}

/// The mathematical image of an account record.
#[verifier::ext_equal]
pub struct StateRecordView {
    pub identity: Seq<u8>,
    pub owner: Seq<u8>,
    pub data: Seq<u8>,
}

impl View for StateRecord {
    type V = StateRecordView;

    open spec fn view(&self) -> StateRecordView {
        StateRecordView { identity: self.identity@, owner: self.owner@, data: self.data@ }
    }
}

/// The state a record of the fixed size holds, field by field.
pub open spec fn decoded(s: Seq<u8>) -> BondingCurveStateView
    recommends
        s.len() == STATE_LEN,
{
    BondingCurveStateView {
        initialized: s[0] != 0,
        token_reserve: spec_u64_from_le_bytes(s.subrange(1, 9)),
        token_mint: s.subrange(9, 41),
        collateral_reserve: spec_u64_from_le_bytes(s.subrange(41, 49)),
        collateral_mint: s.subrange(49, 81),
        total_supply: spec_u64_from_le_bytes(s.subrange(81, 89)),
        migration_threshold: spec_u64_from_le_bytes(s.subrange(89, 97)),
    }
}

/// The bytes that encode a state, field by field at the fixed offsets.
pub open spec fn encoded(v: BondingCurveStateView) -> Seq<u8> {
    seq![if v.initialized { 1u8 } else { 0u8 }] + spec_u64_to_le_bytes(v.token_reserve)
        + v.token_mint + spec_u64_to_le_bytes(v.collateral_reserve) + v.collateral_mint
        + spec_u64_to_le_bytes(v.total_supply) + spec_u64_to_le_bytes(v.migration_threshold)
}

/// Encoding a well-formed state and decoding the bytes gives the state back.
pub proof fn lemma_encode_decode_round_trip(v: BondingCurveStateView)
    requires
        v.wf(),
    ensures
        encoded(v).len() == STATE_LEN,
        decoded(encoded(v)) == v,
{
    lemma_auto_spec_u64_to_from_le_bytes();
    let s = encoded(v);
    assert(s.subrange(1, 9) =~= spec_u64_to_le_bytes(v.token_reserve));
    assert(s.subrange(9, 41) =~= v.token_mint);
    assert(s.subrange(41, 49) =~= spec_u64_to_le_bytes(v.collateral_reserve));
    assert(s.subrange(49, 81) =~= v.collateral_mint);
    assert(s.subrange(81, 89) =~= spec_u64_to_le_bytes(v.total_supply));
    assert(s.subrange(89, 97) =~= spec_u64_to_le_bytes(v.migration_threshold));
    assert(decoded(s) =~= v);
}

/// Record bytes with the two reserve fields replaced and every other byte as
/// it was.
pub open spec fn with_reserves(s: Seq<u8>, token_reserve: u64, collateral_reserve: u64) -> Seq<u8>
    recommends
        s.len() == STATE_LEN,
{
    s.subrange(0, 1) + spec_u64_to_le_bytes(token_reserve) + s.subrange(9, 41)
        + spec_u64_to_le_bytes(collateral_reserve) + s.subrange(49, 97)
}

/// Replacing the reserve bytes changes exactly the two reserve fields of the
/// decoded state.
pub proof fn lemma_with_reserves_decoded(s: Seq<u8>, token_reserve: u64, collateral_reserve: u64)
    requires
        s.len() == STATE_LEN,
    ensures
        with_reserves(s, token_reserve, collateral_reserve).len() == STATE_LEN,
        decoded(with_reserves(s, token_reserve, collateral_reserve))
            == (BondingCurveStateView { token_reserve, collateral_reserve, ..decoded(s) }),
{
    lemma_auto_spec_u64_to_from_le_bytes();
    let w = with_reserves(s, token_reserve, collateral_reserve);
    assert(w.subrange(1, 9) =~= spec_u64_to_le_bytes(token_reserve));
    assert(w.subrange(9, 41) =~= s.subrange(9, 41));
    assert(w.subrange(41, 49) =~= spec_u64_to_le_bytes(collateral_reserve));
    assert(w.subrange(49, 81) =~= s.subrange(49, 81));
    assert(w.subrange(81, 89) =~= s.subrange(81, 89));
    assert(w.subrange(89, 97) =~= s.subrange(89, 97));
    assert(decoded(w) =~= (BondingCurveStateView {
        token_reserve,
        collateral_reserve,
        ..decoded(s)
    }));
}

/// Whether two byte strings hold the same bytes.
pub fn bytes_eq(a: &Vec<u8>, b: &Vec<u8>) -> (r: bool)
    ensures
        r <==> a@ == b@,
{
    if a.len() != b.len() {
        return false;
    }
    let mut i: usize = 0;
    while i < a.len()
        invariant
            i <= a@.len(),
            a@.len() == b@.len(),
            forall|j: int| 0 <= j < i ==> a@[j] == b@[j],
        decreases a@.len() - i,
    {
        if a[i] != b[i] {
            return false;
        }
        i += 1;
    }
    proof {
        assert(a@ =~= b@);
    }
    true
}

/// A copy of the bytes of `src` from `from` up to `to`.
pub fn copy_bytes(src: &Vec<u8>, from: usize, to: usize) -> (r: Vec<u8>)
    requires
        from <= to <= src@.len(),
    ensures
        r@ == src@.subrange(from as int, to as int),
{
    let mut out: Vec<u8> = Vec::new();
    let mut i: usize = from;
    while i < to
        invariant
            from <= i <= to <= src@.len(),
            out@ == src@.subrange(from as int, i as int),
        decreases to - i,
    {
        out.push(src[i]);
        i += 1;
        proof {
            assert(out@ =~= src@.subrange(from as int, i as int));
        }
    }
    out
}

/// Appends every byte of `src` to `out`.
pub fn append_bytes(out: &mut Vec<u8>, src: &Vec<u8>)
    ensures
        final(out)@ == old(out)@ + src@,
{
    let mut i: usize = 0;
    while i < src.len()
        invariant
            i <= src@.len(),
            out@ == old(out)@ + src@.subrange(0, i as int),
        decreases src@.len() - i,
    {
        out.push(src[i]);
        i += 1;
        proof {
            assert(old(out)@ + src@.subrange(0, i - 1) + seq![src@[i - 1]] =~= old(out)@
                + src@.subrange(0, i as int));
        }
    }
    proof {
        assert(old(out)@ + src@.subrange(0, src@.len() as int) =~= old(out)@ + src@);
    }
}

/// The unsigned 64-bit little-endian integer at `off`.
pub fn read_u64_le(data: &Vec<u8>, off: usize) -> (r: u64)
    requires
        off + 8 <= data@.len(),
    ensures
        r == spec_u64_from_le_bytes(data@.subrange(off as int, off + 8)),
{
    let n = data.len();
    assert(off + 8 <= n);
    u64_from_le_bytes(slice_subrange(data.as_slice(), off, off + 8))
}

/// Overwrites the 8 bytes at `off` with `v` little-endian, leaving every
/// other byte as it was.
pub fn write_u64_le(data: &mut Vec<u8>, off: usize, v: u64)
    requires
        off + 8 <= old(data)@.len(),
    ensures
        final(data)@.len() == old(data)@.len(),
        final(data)@.subrange(off as int, off + 8) == spec_u64_to_le_bytes(v),
        forall|j: int|
            0 <= j < old(data)@.len() && !(off <= j < off + 8) ==> final(data)@[j] == old(
                data,
            )@[j],
{
    proof {
        lemma_auto_spec_u64_to_from_le_bytes();
    }
    let bytes = u64_to_le_bytes(v);
    let mut i: usize = 0;
    while i < 8
        invariant
            i <= 8,
            off + 8 <= old(data)@.len(),
            bytes@ == spec_u64_to_le_bytes(v),
            bytes@.len() == 8,
            data@.len() == old(data)@.len(),
            forall|j: int| 0 <= j < i ==> data@[off + j] == bytes@[j],
            forall|j: int|
                0 <= j < old(data)@.len() && !(off <= j < off + i) ==> data@[j] == old(data)@[j],
        decreases 8 - i,
    {
        let n = data.len();
        assert(off + i < n);
        data[off + i] = bytes[i];
        i += 1;
    }
    proof {
        assert(data@.subrange(off as int, off + 8) =~= spec_u64_to_le_bytes(v));
    }
}

/// Rewrites exactly the two reserve fields of a record of the fixed size.
pub fn write_reserves(data: &mut Vec<u8>, token_reserve: u64, collateral_reserve: u64)
    requires
        old(data)@.len() == STATE_LEN,
    ensures
        final(data)@ == with_reserves(old(data)@, token_reserve, collateral_reserve),
{
    write_u64_le(data, 1, token_reserve);
    write_u64_le(data, 41, collateral_reserve);
    proof {
        lemma_auto_spec_u64_to_from_le_bytes();
        assert(data@ =~= with_reserves(old(data)@, token_reserve, collateral_reserve));
    }
}

impl BondingCurveState {
    /// Decodes a record without looking at its length or owner; the caller
    /// vouches that the buffer has the fixed size.
    pub fn from_account_info_unchecked(record: &StateRecord) -> (r: BondingCurveState)
        requires
            record@.data.len() == STATE_LEN,
        ensures
            r@ == decoded(record@.data),
    {
        let data = &record.data;
        let initialized = data[0] != 0;
        let token_reserve = read_u64_le(data, 1);
        let token_mint = copy_bytes(data, 9, 41);
        let collateral_reserve = read_u64_le(data, 41);
        let collateral_mint = copy_bytes(data, 49, 81);
        let total_supply = read_u64_le(data, 81);
        let migration_threshold = read_u64_le(data, 89);
        let r = BondingCurveState {
            initialized,
            token_reserve,
            token_mint,
            collateral_reserve,
            collateral_mint,
            total_supply,
            migration_threshold,
        };
        proof {
            assert(r@ =~= decoded(record@.data));
        }
        r
    }

    /// Decodes a record, rejecting one whose byte length is not the fixed
    /// size or whose owning program is not this one.
    pub fn from_account_info(record: &StateRecord, program_id: &Vec<u8>) -> (r: Result<
        BondingCurveState,
        CurveError,
    >)
        ensures
            record@.data.len() == STATE_LEN && record@.owner == program_id@ ==> (r matches Ok(s)
                && s@ == decoded(record@.data)),
            !(record@.data.len() == STATE_LEN && record@.owner == program_id@) ==> r == Err::<
                BondingCurveState,
                CurveError,
            >(CurveError::InvalidLayout),
    {
        if record.data.len() != STATE_LEN {
            return Err(CurveError::InvalidLayout);
        }
        if !bytes_eq(&record.owner, program_id) {
            return Err(CurveError::InvalidLayout);
        }
        Ok(Self::from_account_info_unchecked(record))
    }

    /// The raw bytes of this state at the fixed offsets.
    pub fn encode(&self) -> (r: Vec<u8>)
        requires
            self@.wf(),
        ensures
            r@ == encoded(self@),
            r@.len() == STATE_LEN,
    {
        proof {
            lemma_auto_spec_u64_to_from_le_bytes();
        }
        let mut out: Vec<u8> = Vec::new();
        out.push(if self.initialized {
            1
        } else {
            0
        });
        let mut field = u64_to_le_bytes(self.token_reserve);
        out.append(&mut field);
        append_bytes(&mut out, &self.token_mint);
        let mut field = u64_to_le_bytes(self.collateral_reserve);
        out.append(&mut field);
        append_bytes(&mut out, &self.collateral_mint);
        let mut field = u64_to_le_bytes(self.total_supply);
        out.append(&mut field);
        let mut field = u64_to_le_bytes(self.migration_threshold);
        out.append(&mut field);
        proof {
            assert(out@ =~= encoded(self@));
        }
        out
    }

    /// Whether the record has been set up.
    pub fn is_initialized(&self) -> (r: bool)
        ensures
            r == self@.initialized,
    {
        self.initialized
    }

    /// The virtual reserve of the token side of the curve.
    pub fn vtoken_reserve_amount(&self) -> (r: u64)
        ensures
            r == self@.token_reserve,
    {
        self.token_reserve
    }

    /// The identity of the token whose supply this curve controls.
    pub fn vtoken_mint(&self) -> (r: Vec<u8>)
        ensures
            r@ == self@.token_mint,
    {
        let r = copy_bytes(&self.token_mint, 0, self.token_mint.len());
        proof {
            assert(self.token_mint@.subrange(0, self.token_mint@.len() as int)
                =~= self.token_mint@);
        }
        r
    }

    /// The virtual reserve of the collateral side of the curve.
    pub fn vsol_reserve_amount(&self) -> (r: u64)
        ensures
            r == self@.collateral_reserve,
    {
        self.collateral_reserve
    }

    /// The identity of the collateral asset.
    pub fn vsol_mint(&self) -> (r: Vec<u8>)
        ensures
            r@ == self@.collateral_mint,
    {
        let r = copy_bytes(&self.collateral_mint, 0, self.collateral_mint.len());
        proof {
            assert(self.collateral_mint@.subrange(0, self.collateral_mint@.len() as int)
                =~= self.collateral_mint@);
        }
        r
    }

    /// The nominal total token supply fixed at initialization.
    pub fn total_supply(&self) -> (r: u64)
        ensures
            r == self@.total_supply,
    {
        self.total_supply
    }

    /// The token-reserve level at which migration unlocks.
    pub fn allocation_at_migration(&self) -> (r: u64)
        ensures
            r == self@.migration_threshold,
    {
        self.migration_threshold
    }
}

} // verus!
