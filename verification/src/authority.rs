use vstd::prelude::*;

use crate::codec::{append_bytes, copy_bytes};

verus! {

/// The SHA-256 digest of a byte string; a function of the bytes alone.
pub uninterp spec fn sha256_of(bytes: Seq<u8>) -> Seq<u8>;

/// Relies on solana_nostd_sha256::hash: returns the SHA-256 digest of the
/// input, 32 bytes long, determined by the input bytes alone.
#[verifier::external_body]
pub(crate) fn sha256(bytes: &Vec<u8>) -> (r: Vec<u8>)
    ensures
        r@ == sha256_of(bytes@),
        r@.len() == 32,
{
    solana_nostd_sha256::hash(bytes.as_slice()).to_vec()
}

/// The fixed salt that ends every derivation preimage.
pub open spec fn salt_bytes() -> Seq<u8> {
    seq![114u8, 97u8, 110u8, 100u8, 111u8, 109u8, 95u8, 115u8, 101u8, 101u8, 100u8]
}

/// The bytes hashed to derive the custodial authority: the state identity,
/// the discriminator byte, the program identity, and the fixed salt.
pub open spec fn derive_preimage(state_identity: Seq<u8>, bump: u8, program_id: Seq<u8>) -> Seq<
    u8,
> {
    state_identity + seq![bump] + program_id + salt_bytes()
}

/// The custodial authority bound to a state record and discriminator byte.
pub open spec fn derived_identity(state_identity: Seq<u8>, bump: u8, program_id: Seq<u8>) -> Seq<
    u8,
> {
    sha256_of(derive_preimage(state_identity, bump, program_id))
}

/// The proof of authority a handler passes along with a custody operation
/// that only the derived authority may sign: the seeds the derivation used.
/// It is only ever handed to the custody subsystem for the current
/// invocation, never stored.
pub struct SigningCapability {
    pub state_identity: Vec<u8>,
    pub bump: u8,
}

/// The mathematical image of a signing capability.
#[verifier::ext_equal]
pub struct SigningCapabilityView {
    pub state_identity: Seq<u8>,
    pub bump: u8,
}

impl View for SigningCapability {
    type V = SigningCapabilityView;

    open spec fn view(&self) -> SigningCapabilityView {
        SigningCapabilityView { state_identity: self.state_identity@, bump: self.bump }
    }
}

/// The fixed salt as bytes.
fn salt() -> (r: Vec<u8>)
    ensures
        r@ == salt_bytes(),
{
    let mut v: Vec<u8> = Vec::new();
    v.push(114);
    v.push(97);
    v.push(110);
    v.push(100);
    v.push(111);
    v.push(109);
    v.push(95);
    v.push(115);
    v.push(101);
    v.push(101);
    v.push(100);
    proof {
        assert(v@ =~= salt_bytes());
    }
    v
}

/// Derives the custodial authority for a state record and discriminator
/// byte, and the signing capability that authorizes custody operations on
/// its behalf for the current invocation.
pub fn derive_authority(program_id: &Vec<u8>, state_identity: &Vec<u8>, bump: u8) -> (r: (
    Vec<u8>,
    SigningCapability,
))
    ensures
        r.0@ == derived_identity(state_identity@, bump, program_id@),
        r.0@.len() == 32,
        r.1@ == (SigningCapabilityView { state_identity: state_identity@, bump }),
{
    let mut preimage = copy_bytes(state_identity, 0, state_identity.len());
    proof {
        assert(state_identity@.subrange(0, state_identity@.len() as int) =~= state_identity@);
    }
    preimage.push(bump);
    append_bytes(&mut preimage, program_id);
    let mut tail = salt();
    preimage.append(&mut tail);
    proof {
        assert(preimage@ =~= derive_preimage(state_identity@, bump, program_id@));
    }
    let address = sha256(&preimage);
    let capability = SigningCapability {
        state_identity: copy_bytes(state_identity, 0, state_identity.len()),
        bump,
    };
    (address, capability)
}

} // verus!
