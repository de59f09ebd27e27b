use bonding_curve::authority::derive_authority;

#[test]
fn derive_matches_the_reference_hash() {
    let program_id = vec![9u8; 32];
    let state_identity = vec![1u8; 32];
    let bump = 42u8;
    let (address, capability) = derive_authority(&program_id, &state_identity, bump);
    let expected = solana_nostd_sha256::hashv(&[
        state_identity.as_slice(),
        &[bump],
        program_id.as_slice(),
        b"random_seed",
    ]);
    assert_eq!(address, expected.to_vec());
    assert_eq!(capability.state_identity, state_identity);
    assert_eq!(capability.bump, bump);
}

#[test]
fn derive_actually_hashes() {
    let program_id = vec![9u8; 32];
    let state_identity = vec![1u8; 32];
    let (address, _) = derive_authority(&program_id, &state_identity, 0);
    assert_eq!(address.len(), 32);
    // The digest is neither the state identity nor the whole preimage.
    assert_ne!(address, state_identity);
    let (other_bump, _) = derive_authority(&program_id, &state_identity, 1);
    assert_ne!(address, other_bump);
}
