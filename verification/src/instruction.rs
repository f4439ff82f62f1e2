//! The leading byte of an instruction selects what it does.
use vstd::prelude::*;
use crate::error::StreamError;

verus! {

/// The instructions the program accepts.
#[derive(Clone, Copy, Debug, PartialEq, Eq, Structural)]
pub enum StreamInstruction {
    /// Tag 1.
    CreateStream,
    /// Tag 2.
    UnstakeTokens,
    /// Tag 3.
    Withdraw,
    /// Tag 4.
    CloseStream,
}

/// The instruction that the leading byte `tag` selects; the rest of the data is
/// that instruction's argument. Any other tag is invalid instruction data.
pub fn instruction_for_tag(tag: u8) -> (r: Result<StreamInstruction, StreamError>)
    ensures
        r == (if tag == 1 {
            Ok(StreamInstruction::CreateStream)
        } else if tag == 2 {
            Ok(StreamInstruction::UnstakeTokens)
        } else if tag == 3 {
            Ok(StreamInstruction::Withdraw)
        } else if tag == 4 {
            Ok(StreamInstruction::CloseStream)
        } else {
            Err(StreamError::InvalidInstructionData)
        }),
{
    if tag == 1 {
        Ok(StreamInstruction::CreateStream)
    } else if tag == 2 {
        Ok(StreamInstruction::UnstakeTokens)
    } else if tag == 3 {
        Ok(StreamInstruction::Withdraw)
    } else if tag == 4 {
        Ok(StreamInstruction::CloseStream)
    } else {
        Err(StreamError::InvalidInstructionData)
    }
}

} // verus!
