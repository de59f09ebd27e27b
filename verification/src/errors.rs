use vstd::prelude::*;

verus! {

/// Every failure the engine can report. Each invocation ends with at most one
/// of these; the host then discards any uncommitted writes.
#[derive(Clone, Copy, Debug, PartialEq, Eq, Structural)]
pub enum CurveError {
    /// The instruction payload is shorter than its opcode requires.
    TruncatedInstruction,
    /// The leading byte of the instruction selects no known opcode.
    UnknownOpcode,
    /// The supplied account set has the wrong arity for the handler.
    NotEnoughAccounts,
    /// The state record has not been initialized yet.
    UninitializedAccount,
    /// A supplied account identity differs from a derived or bound identity.
    AddressMismatch,
    /// An account is not owned by the expected subsystem.
    OwnerMismatch,
    /// A zero amount, or an amount that violates a reserve-floor constraint.
    InvalidAmount,
    /// A 64-bit arithmetic step would wrap.
    ArithmeticOverflow,
    /// The reserves are inconsistent with the curve, or the record is already
    /// set up where a fresh one is required.
    InvalidState,
    /// The state record's byte length or owning-program identity is wrong.
    InvalidLayout,
}

} // verus!
