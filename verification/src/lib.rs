//! A constant-product bonding-curve market maker, written as a deterministic
//! state-transition engine: a fixed-layout codec for the persistent state
//! record, the pricing formulas for buys and sells, the derivation of the
//! custodial authority, and the instruction state machine Initialize, Buy,
//! Sell, Migrate. Every handler validates eagerly, mutates the record bytes
//! through the codec, and hands back the custody operations for the host to
//! perform; its exact outcome is stated as a spec function and proved.

use vstd::prelude::*;

pub mod authority;
pub mod codec;
pub mod errors;
pub mod handlers;
pub mod instruction;
pub mod pricing;

verus! {

/// Collateral units deducted from the migrated amount as the migration fee.
pub const MIGRATION_FEE: u64 = 6;

/// Seed virtual token reserve written by Initialize.
pub const INITIAL_VTOKEN: u64 = 1_073_000_000;

/// Seed virtual collateral reserve written by Initialize.
pub const INITIAL_VSOL: u64 = 30;

/// Nominal total token supply recorded at Initialize; constant afterwards.
pub const TOTAL_SUPPLY: u64 = 1_000_000_000;

/// Token-reserve level at which Migrate starts paying out.
pub const ALLOCATION_AT_MIGRATION: u64 = 800_000_000;

} // verus!
