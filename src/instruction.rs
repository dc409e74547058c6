use vstd::prelude::*;
use solana_program::pubkey::Pubkey;
use solana_sdk::compute_budget::ComputeBudgetInstruction;

verus! {

/// One account that an instruction touches.
#[derive(Clone, Copy, Debug)]
pub struct AccountRef {
    pub key: [u8; 32],
    pub is_signer: bool,
    pub is_writable: bool,
}

/// A program instruction: the program that runs it, the accounts it
/// touches in order, and its payload.
#[derive(Clone, Debug)]
pub struct InstructionDescriptor {
    pub program_id: [u8; 32],
    pub accounts: Vec<AccountRef>,
    pub data: Vec<u8>,
}

/// The little-endian bytes of a 32-bit value.
pub open spec fn le_u32(v: u32) -> Seq<u8> {
    seq![
        (v % 0x100) as u8,
        ((v / 0x100) % 0x100) as u8,
        ((v / 0x1_0000) % 0x100) as u8,
        ((v / 0x100_0000) % 0x100) as u8,
    ]
}

/// The little-endian bytes of a 64-bit value.
pub open spec fn le_u64(v: u64) -> Seq<u8> {
    le_u32((v % 0x1_0000_0000) as u32) + le_u32((v / 0x1_0000_0000) as u32)
}

/// The payload of the compute-budget instruction that caps compute units.
pub open spec fn unit_limit_data(units: u32) -> Seq<u8> {
    seq![2u8] + le_u32(units)
}

/// The payload of the compute-budget instruction that sets the price per
/// compute unit.
pub open spec fn unit_price_data(micro_lamports: u64) -> Seq<u8> {
    seq![3u8] + le_u64(micro_lamports)
}

/// The instruction that registers `signer` with the mining program.
pub uninterp spec fn register_instruction_of(signer: Seq<u8>) -> InstructionDescriptor;

/// The instruction that moves `amount` of `signer`'s rewards to `beneficiary`.
pub uninterp spec fn claim_instruction_of(signer: Seq<u8>, beneficiary: Seq<u8>, amount: u64) -> InstructionDescriptor;

/// The associated token account of `wallet` for the mined token.
pub uninterp spec fn token_account_of(wallet: Seq<u8>) -> Seq<u8>;

/// The instruction that creates `wallet`'s associated token account, paid by `wallet`.
pub uninterp spec fn create_token_account_instruction_of(wallet: Seq<u8>) -> InstructionDescriptor;

/// The address of `signer`'s proof account in the mining program.
pub uninterp spec fn proof_address_of(signer: Seq<u8>) -> Seq<u8>;

/// Relies on `ComputeBudgetInstruction::set_compute_unit_limit` of solana-sdk:
/// the borsh encoding of variant 2 with its `u32`, and no accounts.
#[verifier::external_body]
pub(crate) fn unit_limit_instruction(units: u32) -> (r: InstructionDescriptor)
    ensures
        r.data@ == unit_limit_data(units),
        r.accounts@.len() == 0,
{
    let ix = ComputeBudgetInstruction::set_compute_unit_limit(units);
    InstructionDescriptor { program_id: ix.program_id.to_bytes(), accounts: Vec::new(), data: ix.data }
}

/// Relies on `ComputeBudgetInstruction::set_compute_unit_price` of solana-sdk:
/// the borsh encoding of variant 3 with its `u64`, and no accounts.
#[verifier::external_body]
pub(crate) fn unit_price_instruction(micro_lamports: u64) -> (r: InstructionDescriptor)
    ensures
        r.data@ == unit_price_data(micro_lamports),
        r.accounts@.len() == 0,
{
    let ix = ComputeBudgetInstruction::set_compute_unit_price(micro_lamports);
    InstructionDescriptor { program_id: ix.program_id.to_bytes(), accounts: Vec::new(), data: ix.data }
}

/// Relies on `ore::instruction::register`: its result depends on the signer alone.
/// It derives the proof address with `Pubkey::find_program_address`, which
/// panics only where no bump seed exists, an event its documentation calls
/// statistically improbable.
#[verifier::external_body]
pub(crate) fn register_instruction(signer: &[u8; 32]) -> (r: InstructionDescriptor)
    ensures
        r == register_instruction_of(signer@),
{
    let ix = ore::instruction::register(Pubkey::new_from_array(*signer));
    let accounts = ix.accounts.iter().map(|m| AccountRef {
        key: m.pubkey.to_bytes(), is_signer: m.is_signer, is_writable: m.is_writable }).collect();
    InstructionDescriptor { program_id: ix.program_id.to_bytes(), accounts, data: ix.data }
}

/// Relies on `ore::instruction::claim`: its result depends on its three
/// arguments alone (proof address derived as in `register`).
#[verifier::external_body]
pub(crate) fn claim_instruction(signer: &[u8; 32], beneficiary: &[u8; 32], amount: u64) -> (r: InstructionDescriptor)
    ensures
        r == claim_instruction_of(signer@, beneficiary@, amount),
{
    let ix = ore::instruction::claim(Pubkey::new_from_array(*signer), Pubkey::new_from_array(*beneficiary), amount);
    let accounts = ix.accounts.iter().map(|m| AccountRef {
        key: m.pubkey.to_bytes(), is_signer: m.is_signer, is_writable: m.is_writable }).collect();
    InstructionDescriptor { program_id: ix.program_id.to_bytes(), accounts, data: ix.data }
}

/// Relies on `spl_associated_token_account::get_associated_token_address`
/// with ore's mint: a derivation from the wallet alone.
#[verifier::external_body]
pub(crate) fn token_account_address_of(wallet: &[u8; 32]) -> (r: [u8; 32])
    ensures
        r@ == token_account_of(wallet@),
{
    spl_associated_token_account::get_associated_token_address(&Pubkey::new_from_array(*wallet), &ore::MINT_ADDRESS).to_bytes()
}

/// Relies on `spl_associated_token_account::instruction::create_associated_token_account`
/// with the wallet as payer and owner, ore's mint and the token program:
/// its result depends on the wallet alone.
#[verifier::external_body]
pub(crate) fn create_token_account_instruction(wallet: &[u8; 32]) -> (r: InstructionDescriptor)
    ensures
        r == create_token_account_instruction_of(wallet@),
{
    let w = Pubkey::new_from_array(*wallet);
    let ix = spl_associated_token_account::instruction::create_associated_token_account(&w, &w, &ore::MINT_ADDRESS, &spl_token::id());
    let accounts = ix.accounts.iter().map(|m| AccountRef {
        key: m.pubkey.to_bytes(), is_signer: m.is_signer, is_writable: m.is_writable }).collect();
    InstructionDescriptor { program_id: ix.program_id.to_bytes(), accounts, data: ix.data }
}

/// Relies on `Pubkey::find_program_address` with ore's proof seed and program
/// id: a derivation from the signer alone (see `register_instruction` on
/// when it panics).
#[verifier::external_body]
pub(crate) fn proof_address_of_signer(signer: &[u8; 32]) -> (r: [u8; 32])
    ensures
        r@ == proof_address_of(signer@),
{
    Pubkey::find_program_address(&[ore::PROOF, signer.as_ref()], &ore::id()).0.to_bytes()
}

/// Puts the two fee instructions, the compute-unit cap and then the price,
/// in front of the given instructions, whose order is kept.
pub fn with_fee_instructions(cu_limit: u32, micro_lamports: u64, ixs: Vec<InstructionDescriptor>) -> (r: Vec<InstructionDescriptor>)
    requires
        ixs@.len() + 2 <= usize::MAX,
    ensures
        r@.len() == ixs@.len() + 2,
        r@[0].data@ == unit_limit_data(cu_limit),
        r@[0].accounts@.len() == 0,
        r@[1].data@ == unit_price_data(micro_lamports),
        r@[1].accounts@.len() == 0,
        r@.subrange(2, r@.len() as int) == ixs@,
{
    let mut r: Vec<InstructionDescriptor> = Vec::new();
    r.push(unit_limit_instruction(cu_limit));
    r.push(unit_price_instruction(micro_lamports));
    let mut rest = ixs;
    r.append(&mut rest);
    assert(r@.subrange(2, r@.len() as int) =~= ixs@);
    r
}

} // verus!
