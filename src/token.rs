use vstd::prelude::*;
use crate::pubkey::Pubkey;
use solana_program::program_error::ProgramError;
use solana_program::pubkey::Pubkey as SdkPubkey;

verus! {

/// One account that an instruction names, with its permissions.
#[derive(Clone, Copy, Debug, PartialEq, Eq)]
pub struct AccountMeta {
    pub pubkey: Pubkey,
    pub is_signer: bool,
    pub is_writable: bool,
}

/// An instruction for another program: its id, its accounts, its data.
#[derive(Clone, Debug, PartialEq, Eq)]
pub struct Instruction {
    pub program_id: Pubkey,
    pub accounts: Vec<AccountMeta>,
    pub data: Vec<u8>,
}

/// `m` names the account `key` with the given permissions.
pub open spec fn meta_is(m: AccountMeta, key: Seq<u8>, is_signer: bool, is_writable: bool) -> bool {
    &&& m.pubkey@ == key
    &&& m.is_signer == is_signer
    &&& m.is_writable == is_writable
}

/// The token program's id, TokenkegQfeZyiNwAJbNbGKPFXCWuBvf9Ss623VQ5DA, as bytes.
pub open spec fn token_program_key() -> Seq<u8> {
    seq![
        6u8, 221u8, 246u8, 225u8, 215u8, 101u8, 161u8, 147u8, 217u8, 203u8, 225u8, 70u8, 206u8,
        235u8, 121u8, 172u8, 28u8, 180u8, 133u8, 237u8, 95u8, 91u8, 55u8, 145u8, 58u8, 140u8,
        245u8, 133u8, 126u8, 255u8, 0u8, 169u8,
    ]
}

/// The instruction data of the token program's `SetAuthority` with authority
/// type `AccountOwner` (2) and a new authority present.
pub open spec fn set_owner_data(new_authority: Seq<u8>) -> Seq<u8> {
    seq![6u8, 2u8, 1u8] + new_authority
}

#[verifier::external_type_specification]
#[verifier::external_body]
pub struct ExProgramError(ProgramError);

/// Relies on spl_token::id: the id that the token program is declared with.
#[verifier::external_body]
pub(crate) fn token_program_id() -> (r: Pubkey)
    ensures
        r@ == token_program_key(),
{
    Pubkey(spl_token::id().to_bytes())
}

/// The address that `Pubkey::try_find_program_address` derives from one seed
/// and a program id, with its bump seed; `None` where no bump seed gives one.
pub uninterp spec fn program_address_of(seed: Seq<u8>, program_id: Seq<u8>) -> Option<(Seq<u8>, u8)>;

/// Relies on solana_program's Pubkey::try_find_program_address, a function of
/// the seeds and the program id alone.
#[verifier::external_body]
pub(crate) fn try_find_program_address(seed: &[u8], program_id: &Pubkey) -> (r: Option<(Pubkey, u8)>)
    ensures
        match r {
            Some((key, bump)) => program_address_of(seed@, program_id@) == Some((key@, bump)),
            None => program_address_of(seed@, program_id@) is None,
        },
{
    SdkPubkey::try_find_program_address(&[seed], &SdkPubkey::new_from_array(program_id.0))
        .map(|(key, bump)| (Pubkey(key.to_bytes()), bump))
}

/// Relies on spl_token::instruction::set_authority with authority type
/// `AccountOwner` and a new authority: it fails only where the program id is
/// not the token program's; else the instruction names the owned account
/// (writable), the owner (a signer only where no signers are listed), then each
/// signer, and its data is the packed `SetAuthority`.
#[verifier::external_body]
pub(crate) fn set_authority(
    token_program_id: &Pubkey,
    owned_pubkey: &Pubkey,
    new_authority_pubkey: &Pubkey,
    owner_pubkey: &Pubkey,
    signer_pubkeys: &[Pubkey],
) -> (r: Result<Instruction, ProgramError>)
    ensures
        r is Err <==> token_program_id@ != token_program_key(),
        r matches Ok(ix) ==> {
            &&& ix.program_id@ == token_program_id@
            &&& ix.data@ == set_owner_data(new_authority_pubkey@)
            &&& ix.accounts@.len() == 2 + signer_pubkeys@.len()
            &&& meta_is(ix.accounts@[0], owned_pubkey@, false, true)
            &&& meta_is(ix.accounts@[1], owner_pubkey@, signer_pubkeys@.len() == 0, false)
            &&& forall|i: int|
                2 <= i < ix.accounts@.len() ==> meta_is(
                    #[trigger] ix.accounts@[i],
                    signer_pubkeys@[i - 2]@,
                    true,
                    false,
                )
        },
{
    let k = |p: &Pubkey| SdkPubkey::new_from_array(p.0);
    let signers: Vec<SdkPubkey> = signer_pubkeys.iter().map(k).collect();
    let refs: Vec<&SdkPubkey> = signers.iter().collect();
    let ix = spl_token::instruction::set_authority(&k(token_program_id), &k(owned_pubkey),
        Some(&k(new_authority_pubkey)), spl_token::instruction::AuthorityType::AccountOwner,
        &k(owner_pubkey), &refs)?;
    let meta = |m: &solana_program::instruction::AccountMeta|
        AccountMeta { pubkey: Pubkey(m.pubkey.to_bytes()), is_signer: m.is_signer, is_writable: m.is_writable };
    Ok(Instruction { program_id: Pubkey(ix.program_id.to_bytes()), accounts: ix.accounts.iter().map(meta).collect(), data: ix.data })
}

} // verus!
