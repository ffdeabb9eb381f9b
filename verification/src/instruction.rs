use vstd::prelude::*;

use crate::error::ProgramError;

verus! {

/// One decoded instruction: an operation selector and two byte operands.
///
/// Wire layout (fixed, versionless): byte 0 is the selector, byte 1 the
/// first operand, byte 2 the second operand. A buffer of any other length
/// is malformed.
#[derive(Clone, Copy, Debug, PartialEq, Eq, Structural)]
pub struct CalculatorInstructions {
    pub operation: u8,
    pub first_number: u8,
    pub second_number: u8,
}

/// The instruction that a well-formed three-byte buffer decodes to.
pub open spec fn spec_instruction_of(bytes: Seq<u8>) -> CalculatorInstructions
    recommends
        bytes.len() == 3,
{
    CalculatorInstructions { operation: bytes[0], first_number: bytes[1], second_number: bytes[2] }
}

/// The value an instruction evaluates to, in the 32-bit width of the
/// stored field.
///
/// Selector 0 adds the operands; the sum is taken in the wider type, so
/// it is never truncated (it is at most 510). Selector 1 subtracts with
/// eight-bit wraparound: when the first operand is smaller than the
/// second, the difference wraps modulo 256 rather than signalling an
/// error. Any other selector yields zero.
pub open spec fn spec_evaluate(ins: CalculatorInstructions) -> u32 {
    if ins.operation == 0 {
        (ins.first_number + ins.second_number) as u32
    } else if ins.operation == 1 {
        ((ins.first_number - ins.second_number + 0x100) % 0x100) as u32
    } else {
        0u32
    }
}

impl CalculatorInstructions {
    /// Decode an instruction from its three-byte wire form.
    ///
    /// Succeeds exactly on buffers of length three; every other length is
    /// reported as malformed instruction data, never as an abort.
    pub fn try_from_slice(bytes: &Vec<u8>) -> (r: Result<CalculatorInstructions, ProgramError>)
        ensures
            bytes@.len() == 3 ==> r == Ok::<CalculatorInstructions, ProgramError>(
                spec_instruction_of(bytes@),
            ),
            bytes@.len() != 3 ==> r == Err::<CalculatorInstructions, ProgramError>(
                ProgramError::InvalidInstructionData,
            ),
    {
        if bytes.len() != 3 {
            return Err(ProgramError::InvalidInstructionData);
        }
        Ok(CalculatorInstructions {
            operation: bytes[0],
            first_number: bytes[1],
            second_number: bytes[2],
        })
    }

    /// Evaluate the instruction: add on selector 0, subtract with
    /// eight-bit wraparound on selector 1, and yield zero on any other
    /// selector.
    pub fn evaluate(&self) -> (result: u32)
        ensures
            result == spec_evaluate(*self),
            self.operation == 0 ==> result == self.first_number + self.second_number,
            self.operation == 1 && self.first_number >= self.second_number ==> result
                == self.first_number - self.second_number,
            self.operation == 1 && self.first_number < self.second_number ==> result
                == self.first_number + 0x100 - self.second_number,
            self.operation != 0 && self.operation != 1 ==> result == 0,
    {
        match self.operation {
            0 => self.first_number as u32 + self.second_number as u32,
            1 => {
                if self.first_number >= self.second_number {
                    (self.first_number - self.second_number) as u32
                } else {
                    self.first_number as u32 + 0x100 - self.second_number as u32
                }
            },
            _ => 0,
        }
    }
}

} // verus!
