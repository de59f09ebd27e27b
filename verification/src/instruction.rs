use vstd::prelude::*;

use crate::codec::read_u64_le;
use crate::errors::CurveError;
use vstd::bytes::spec_u64_from_le_bytes;

verus! {

/// One decoded instruction. The leading byte of the raw buffer selects the
/// opcode; the rest is its fixed-width little-endian payload.
#[derive(Clone, Copy, Debug, PartialEq, Eq, Structural)]
pub enum BondingCurveInstruction {
    Initialize { bump: u8 },
    Buy { bump: u8, amount: u64 },
    Sell { amount: u64 },
    Migrate,
}

/// What decoding an instruction buffer yields: opcode 0 is Initialize with a
/// discriminator byte, 1 is Buy with a discriminator byte and an amount, 2 is
/// Sell with an amount, 3 is Migrate with no payload. Any other leading byte
/// is unknown; a payload shorter than its opcode requires is truncated, as is
/// an empty buffer. Bytes past the payload are ignored.
pub open spec fn parse_result(data: Seq<u8>) -> Result<BondingCurveInstruction, CurveError> {
    if data.len() < 1 {
        Err(CurveError::TruncatedInstruction)
    } else if data[0] == 0 {
        if data.len() < 2 {
            Err(CurveError::TruncatedInstruction)
        } else {
            Ok(BondingCurveInstruction::Initialize { bump: data[1] })
        }
    } else if data[0] == 1 {
        if data.len() < 10 {
            Err(CurveError::TruncatedInstruction)
        } else {
            Ok(
                BondingCurveInstruction::Buy {
                    bump: data[1],
                    amount: spec_u64_from_le_bytes(data.subrange(2, 10)),
                },
            )
        }
    } else if data[0] == 2 {
        if data.len() < 9 {
            Err(CurveError::TruncatedInstruction)
        } else {
            Ok(BondingCurveInstruction::Sell { amount: spec_u64_from_le_bytes(data.subrange(1, 9)) })
        }
    } else if data[0] == 3 {
        Ok(BondingCurveInstruction::Migrate)
    } else {
        Err(CurveError::UnknownOpcode)
    }
}

impl BondingCurveInstruction {
    /// Decodes an instruction buffer.
    pub fn parse(data: &Vec<u8>) -> (r: Result<BondingCurveInstruction, CurveError>)
        ensures
            r == parse_result(data@),
    {
        if data.len() < 1 {
            return Err(CurveError::TruncatedInstruction);
        }
        let opcode = data[0];
        if opcode == 0 {
            if data.len() < 2 {
                return Err(CurveError::TruncatedInstruction);
            }
            Ok(BondingCurveInstruction::Initialize { bump: data[1] })
        } else if opcode == 1 {
            if data.len() < 10 {
                return Err(CurveError::TruncatedInstruction);
            }
            Ok(BondingCurveInstruction::Buy { bump: data[1], amount: read_u64_le(data, 2) })
        } else if opcode == 2 {
            if data.len() < 9 {
                return Err(CurveError::TruncatedInstruction);
            }
            Ok(BondingCurveInstruction::Sell { amount: read_u64_le(data, 1) })
        } else if opcode == 3 {
            Ok(BondingCurveInstruction::Migrate)
        } else {
            Err(CurveError::UnknownOpcode)
        }
    }
}

} // verus!
