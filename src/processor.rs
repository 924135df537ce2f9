use vstd::prelude::*;
use crate::error::{EscrowError, ProcessError};
use crate::instruction::{spec_unpack_instruction, EscrowInstruction};
use crate::pubkey::Pubkey;
use crate::state::{escrow_view_wf, lemma_pack_unpack, spec_pack, spec_unpack, Escrow, EscrowView};
use crate::token::{
    meta_is, program_address_of, set_authority, set_owner_data, token_program_id,
    token_program_key, try_find_program_address, Instruction,
};

verus! {

/// What the program sees of one account of an invocation.
#[derive(Clone, Debug, PartialEq, Eq)]
pub struct Account {
    pub key: Pubkey,
    /// The program that owns the account.
    pub owner: Pubkey,
    /// Whether the account signed the transaction.
    pub is_signer: bool,
    pub lamports: u64,
    pub data: Vec<u8>,
}

/// The seed of the escrow program's derived authority: the bytes of "escrow".
pub open spec fn escrow_seed() -> Seq<u8> {
    seq![101u8, 115u8, 99u8, 114u8, 111u8, 119u8]
}

/// The first check that an initialization fails, in the order the accounts
/// are consumed; `None` where all pass. `rent_minimum` is the balance that
/// keeps the storage account rent-exempt for its data length, or `None` where
/// the rent sysvar could not be read.
pub open spec fn init_failure(a: Seq<Account>, program_id: Seq<u8>, rent_minimum: Option<u64>)
    -> Option<ProcessError> {
    if a.len() < 1 {
        Some(ProcessError::NotEnoughAccountKeys)
    } else if !a[0].is_signer {
        Some(ProcessError::MissingRequiredSignature)
    } else if a.len() < 3 {
        Some(ProcessError::NotEnoughAccountKeys)
    } else if a[2].owner@ != token_program_key() {
        Some(ProcessError::IncorrectProgramId)
    } else if a.len() < 5 {
        Some(ProcessError::NotEnoughAccountKeys)
    } else if rent_minimum is None {
        Some(ProcessError::InvalidArgument)
    } else if a[3].lamports < rent_minimum->Some_0 {
        Some(ProcessError::Custom(EscrowError::NotRentExempt))
    } else if a[3].data@.len() != 105 || a[3].data@[0] > 1 {
        Some(ProcessError::InvalidAccountData)
    } else if program_address_of(escrow_seed(), program_id) is None {
        Some(ProcessError::ProgramAddressNotFound)
    } else if a.len() < 6 {
        Some(ProcessError::NotEnoughAccountKeys)
    } else if a[5].key@ != token_program_key() {
        Some(ProcessError::IncorrectProgramId)
    } else {
        None
    }
}

/// The record that an initialization with accounts `a` writes.
pub open spec fn init_record(a: Seq<Account>, amount: u64) -> EscrowView {
    EscrowView {
        is_initialized: true,
        initializer_pubkey: a[0].key@,
        temp_token_account_pubkey: a[1].key@,
        initializer_token_to_receive_account_pubkey: a[2].key@,
        expected_amount: amount,
    }
}

/// `after` is `before` with the storage account's data replaced by the packed
/// record.
pub open spec fn init_effect(before: Seq<Account>, after: Seq<Account>, amount: u64) -> bool {
    &&& before.len() >= 4
    &&& after.len() == before.len()
    &&& forall|i: int| 0 <= i < before.len() && i != 3 ==> after[i] == before[i]
    &&& after[3].key == before[3].key
    &&& after[3].owner == before[3].owner
    &&& after[3].is_signer == before[3].is_signer
    &&& after[3].lamports == before[3].lamports
    &&& after[3].data@ == spec_pack(init_record(before, amount))
}

/// `ix` asks the token program (account 5) to make `authority` the owner of
/// the temporary account (account 1), signed by the initializer (account 0).
pub open spec fn owner_transfer_is(ix: Instruction, a: Seq<Account>, authority: Seq<u8>) -> bool {
    &&& ix.program_id@ == a[5].key@
    &&& ix.data@ == set_owner_data(authority)
    &&& ix.accounts@.len() == 3
    &&& meta_is(ix.accounts@[0], a[1].key@, false, true)
    &&& meta_is(ix.accounts@[1], a[0].key@, false, false)
    &&& meta_is(ix.accounts@[2], a[0].key@, true, false)
}

/// What an initialization returns and leaves behind: the first failing check
/// with the accounts untouched, or the record written and the ownership
/// transfer to the derived authority.
pub open spec fn init_escrow_post(
    before: Seq<Account>,
    after: Seq<Account>,
    program_id: Seq<u8>,
    amount: u64,
    rent_minimum: Option<u64>,
    r: Result<Instruction, ProcessError>,
) -> bool {
    match r {
        Err(e) => init_failure(before, program_id, rent_minimum) == Some(e) && after == before,
        Ok(ix) => {
            &&& init_failure(before, program_id, rent_minimum) is None
            &&& init_effect(before, after, amount)
            &&& owner_transfer_is(ix, before, program_address_of(escrow_seed(), program_id)->Some_0.0)
        },
    }
}

/// The escrow program's entry points.
pub struct Processor;

impl Processor {
    /// Decodes the instruction and runs it. On success the storage account
    /// holds the new record and the result is the token-program instruction
    /// to invoke next.
    pub fn process(
        program_id: &Pubkey,
        accounts: &mut Vec<Account>,
        instruction_data: &[u8],
        rent_minimum: Option<u64>,
    ) -> (r: Result<Instruction, ProcessError>)
        ensures
            match spec_unpack_instruction(instruction_data@) {
                None => r == Err::<Instruction, ProcessError>(
                    ProcessError::Custom(EscrowError::InvalidInstruction),
                ) && final(accounts)@ == old(accounts)@,
                Some(EscrowInstruction::InitEscrow { amount }) => init_escrow_post(
                    old(accounts)@,
                    final(accounts)@,
                    program_id@,
                    amount,
                    rent_minimum,
                    r,
                ),
            },
    {
        match EscrowInstruction::unpack(instruction_data) {
            Err(e) => Err(ProcessError::Custom(e)),
            Ok(EscrowInstruction::InitEscrow { amount }) => {
                Self::process_init_escrow(accounts, amount, program_id, rent_minimum)
            },
        }
    }

    /// Validates the accounts of an initialization, writes the escrow record
    /// into the storage account (account 3) and returns the instruction that
    /// hands the temporary account (account 1) to the program's derived
    /// authority. Nothing is written unless every check passes.
    pub fn process_init_escrow(
        accounts: &mut Vec<Account>,
        amount: u64,
        program_id: &Pubkey,
        rent_minimum: Option<u64>,
    ) -> (r: Result<Instruction, ProcessError>)
        ensures
            init_escrow_post(old(accounts)@, final(accounts)@, program_id@, amount, rent_minimum, r),
            r is Ok <==> init_failure(old(accounts)@, program_id@, rent_minimum) is None,
            old(accounts)@.len() >= 1 && !old(accounts)@[0].is_signer ==> r
                == Err::<Instruction, ProcessError>(ProcessError::MissingRequiredSignature)
                && final(accounts)@ == old(accounts)@,
            old(accounts)@.len() >= 4 && rent_minimum is Some && old(accounts)@[3].lamports
                < rent_minimum->Some_0 ==> r is Err && final(accounts)@[3] == old(accounts)@[3],
    {
        if accounts.len() < 1 {
            return Err(ProcessError::NotEnoughAccountKeys);
        }
        if !accounts[0].is_signer {
            return Err(ProcessError::MissingRequiredSignature);
        }
        if accounts.len() < 3 {
            return Err(ProcessError::NotEnoughAccountKeys);
        }
        // The account to receive into must belong to the token program.
        let token_id = token_program_id();
        if !accounts[2].owner.same_as(&token_id) {
            return Err(ProcessError::IncorrectProgramId);
        }
        if accounts.len() < 5 {
            return Err(ProcessError::NotEnoughAccountKeys);
        }
        let minimum = match rent_minimum {
            None => {
                return Err(ProcessError::InvalidArgument);
            },
            Some(m) => m,
        };
        if accounts[3].lamports < minimum {
            return Err(ProcessError::Custom(EscrowError::NotRentExempt));
        }
        let mut escrow = match Escrow::unpack_unchecked(accounts[3].data.as_slice()) {
            Err(e) => {
                return Err(e);
            },
            Ok(e) => e,
        };
        escrow.is_initialized = true;
        escrow.initializer_pubkey = accounts[0].key;
        escrow.temp_token_account_pubkey = accounts[1].key;
        escrow.initializer_token_to_receive_account_pubkey = accounts[2].key;
        escrow.expected_amount = amount;

        let seed: [u8; 6] = [101u8, 115u8, 99u8, 114u8, 111u8, 119u8];
        assert(seed@ =~= escrow_seed());
        let authority = match try_find_program_address(&seed, program_id) {
            None => {
                return Err(ProcessError::ProgramAddressNotFound);
            },
            Some((key, _bump)) => key,
        };
        if accounts.len() < 6 {
            return Err(ProcessError::NotEnoughAccountKeys);
        }
        let initializer = accounts[0].key;
        let signers: [Pubkey; 1] = [initializer];
        assert(signers@.len() == 1 && signers@[0] == initializer);
        let ix = match set_authority(
            &accounts[5].key,
            &accounts[1].key,
            &authority,
            &initializer,
            &signers,
        ) {
            Err(_) => {
                return Err(ProcessError::IncorrectProgramId);
            },
            Ok(ix) => ix,
        };
        assert(meta_is(ix.accounts@[2], signers@[0]@, true, false));
        // Every check has passed: only now is the storage account written.
        let packed = Escrow::pack(escrow, accounts[3].data.as_mut_slice());
        assert(packed is Ok);
        Ok(ix)
    }
}

/// Initializing again, with the same accounts, on what a successful
/// initialization left behind succeeds too and writes the same record: the
/// storage account still decodes, to the record of the first run.
pub proof fn lemma_init_twice(
    before: Seq<Account>,
    after: Seq<Account>,
    program_id: Seq<u8>,
    amount: u64,
    rent_minimum: Option<u64>,
)
    requires
        init_failure(before, program_id, rent_minimum) is None,
        init_effect(before, after, amount),
    ensures
        init_failure(after, program_id, rent_minimum) is None,
        init_record(after, amount) == init_record(before, amount),
        spec_pack(init_record(after, amount)) == after[3].data@,
        spec_unpack(after[3].data@) == Some(init_record(before, amount)),
{
    let rec = init_record(before, amount);
    assert(escrow_view_wf(rec));
    lemma_pack_unpack(rec);
    assert(after[0] == before[0]);
    assert(after[1] == before[1]);
    assert(after[2] == before[2]);
    assert(after[5] == before[5]);
    assert(after[3].data@[0] == 1);
}

} // verus!
