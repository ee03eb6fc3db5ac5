//! Wire-format decoding of the three operations this program accepts.
//!
//! Byte 0 is the opcode: `0` = Initialize, `1` = exchange native units for
//! tokens, `2` = exchange tokens for native units. For opcodes 1 and 2 the
//! four bytes that follow hold the amount, little-endian unsigned 32-bit.

use crate::errors::TokenTracingError;
use vstd::bytes::spec_u32_from_le_bytes;
use vstd::bytes::u32_from_le_bytes;
use vstd::prelude::*;
use vstd::slice::slice_subrange;

verus! {

/// One decoded operation; it lives only for the duration of one dispatch.
#[derive(Clone, Copy, Debug, PartialEq, Eq, Structural)]
pub enum TokenTracingInstruction {
    Initialize,
    ExchangeSOLToToken { amount: u32 },
    ExchangeTokenToSOL { amount: u32 },
}

/// The amount read from the bytes after the opcode: the little-endian value
/// of the first four, or a decode failure when fewer than four remain.
pub open spec fn spec_get_amount(rest: Seq<u8>) -> Result<u32, TokenTracingError> {
    if rest.len() >= 4 {
        Ok(spec_u32_from_le_bytes(rest.subrange(0, 4)))
    } else {
        Err(TokenTracingError::InvalidInstructionData)
    }
}

/// What decoding a raw buffer yields: an empty buffer is refused outright,
/// an unknown opcode or a truncated amount is refused as bad data.
pub open spec fn spec_unpack(input: Seq<u8>) -> Result<
    TokenTracingInstruction,
    TokenTracingError,
> {
    if input.len() == 0 {
        Err(TokenTracingError::InvalidInstruction)
    } else {
        let rest = input.subrange(1, input.len() as int);
        if input[0] == 0 {
            Ok(TokenTracingInstruction::Initialize)
        } else if input[0] == 1 {
            match spec_get_amount(rest) {
                Ok(amount) => Ok(TokenTracingInstruction::ExchangeSOLToToken { amount }),
                Err(e) => Err(e),
            }
        } else if input[0] == 2 {
            match spec_get_amount(rest) {
                Ok(amount) => Ok(TokenTracingInstruction::ExchangeTokenToSOL { amount }),
                Err(e) => Err(e),
            }
        } else {
            Err(TokenTracingError::InvalidInstructionData)
        }
    }
}

impl TokenTracingInstruction {
    /// Decodes a raw instruction buffer into one tagged operation.
    pub fn unpack(input: &[u8]) -> (r: Result<Self, TokenTracingError>)
        ensures
            r == spec_unpack(input@),
    {
        if input.len() == 0 {
            return Err(TokenTracingError::InvalidInstruction);
        }
        let tag = input[0];
        let rest = slice_subrange(input, 1, input.len());
        match tag {
            0 => Ok(TokenTracingInstruction::Initialize),
            1 => match Self::get_amount(rest) {
                Ok(amount) => Ok(TokenTracingInstruction::ExchangeSOLToToken { amount }),
                Err(e) => Err(e),
            },
            2 => match Self::get_amount(rest) {
                Ok(amount) => Ok(TokenTracingInstruction::ExchangeTokenToSOL { amount }),
                Err(e) => Err(e),
            },
            _ => Err(TokenTracingError::InvalidInstructionData),
        }
    }

    /// Reads the exchange amount from the bytes that follow the opcode.
    pub fn get_amount(rest: &[u8]) -> (r: Result<u32, TokenTracingError>)
        ensures
            r == spec_get_amount(rest@),
    {
        if rest.len() < 4 {
            return Err(TokenTracingError::InvalidInstructionData);
        }
        let four = slice_subrange(rest, 0, 4);
        Ok(u32_from_le_bytes(four))
    }
}

} // verus!
