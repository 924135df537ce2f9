use vstd::prelude::*;
use crate::error::EscrowError;
use crate::state::{le_value, read_u64_le};

verus! {

/// The instructions that the escrow program accepts.
#[derive(Clone, Copy, Debug, PartialEq, Eq, Structural)]
pub enum EscrowInstruction {
    /// Starts an escrow that expects `amount` of the counter-asset.
    ///
    /// Accounts: the initializer (signer), the temporary token account, the
    /// token account to receive into, the escrow storage account, the rent
    /// sysvar, the token program.
    InitEscrow { amount: u64 },
}

/// The instruction that `input` encodes: tag 0 and exactly eight bytes of
/// little-endian amount; `None` for any other shape.
pub open spec fn spec_unpack_instruction(input: Seq<u8>) -> Option<EscrowInstruction> {
    if input.len() == 9 && input[0] == 0 {
        Some(EscrowInstruction::InitEscrow { amount: le_value(input.subrange(1, 9)) })
    } else {
        None
    }
}

impl EscrowInstruction {
    /// Decodes instruction bytes.
    pub fn unpack(input: &[u8]) -> (r: Result<EscrowInstruction, EscrowError>)
        ensures
            match spec_unpack_instruction(input@) {
                Some(ins) => r == Ok::<EscrowInstruction, EscrowError>(ins),
                None => r == Err::<EscrowInstruction, EscrowError>(
                    EscrowError::InvalidInstruction,
                ),
            },
            input@.len() == 0 ==> r is Err,
            input@.len() > 0 && input@[0] != 0 ==> r is Err,
    {
        if input.len() == 0 {
            return Err(EscrowError::InvalidInstruction);
        }
        if input[0] != 0 || input.len() != 9 {
            return Err(EscrowError::InvalidInstruction);
        }
        let amount = read_u64_le(input, 1);
        Ok(EscrowInstruction::InitEscrow { amount })
    }
}

} // verus!
