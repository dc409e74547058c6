use vstd::prelude::*;
use vstd::arithmetic::div_mod::lemma_fundamental_div_mod;
use crate::accounts::ReadError;
use crate::instruction::{
    claim_instruction, claim_instruction_of, create_token_account_instruction,
    create_token_account_instruction_of, proof_address_of, proof_address_of_signer,
    register_instruction, register_instruction_of, token_account_address_of, token_account_of,
    InstructionDescriptor,
};

verus! {

/// Compute-unit cap of a claim transaction.
pub const CU_LIMIT_CLAIM: u32 = 11_000;

/// Compute-unit cap of a registration.
pub const CU_LIMIT_REGISTER: u32 = 7_660;

/// Compute-unit cap of creating a token account.
pub const CU_LIMIT_CREATE_ACCOUNT: u32 = 30_000;

/// Decimal places of the mined token.
pub const TOKEN_DECIMALS: u8 = 9;

/// The address of `signer`'s proof account, whose existence means that the
/// signer is registered.
pub fn proof_address(signer: &[u8; 32]) -> (r: [u8; 32])
    ensures
        r@ == proof_address_of(signer@),
{
    proof_address_of_signer(signer)
}

/// What registering `signer` takes, given the lookup of its proof account:
/// nothing where the account exists, the registration where it is not found,
/// and the lookup's error otherwise.
pub fn register(signer: &[u8; 32], proof_account: Result<Vec<u8>, ReadError>) -> (r: Result<Vec<InstructionDescriptor>, ReadError>)
    ensures
        proof_account is Ok ==> (r matches Ok(ixs) && ixs@.len() == 0),
        proof_account matches Err(ReadError::NotFound)
            ==> (r matches Ok(ixs) && ixs@ == seq![register_instruction_of(signer@)]),
        match proof_account {
            Err(ReadError::NotFound) => true,
            Err(e) => r == Err::<Vec<InstructionDescriptor>, ReadError>(e),
            Ok(_) => true,
        },
{
    match proof_account {
        Ok(_) => Ok(Vec::new()),
        Err(ReadError::NotFound) => {
            let mut ixs: Vec<InstructionDescriptor> = Vec::new();
            ixs.push(register_instruction(signer));
            assert(ixs@ =~= seq![register_instruction_of(signer@)]);
            Ok(ixs)
        },
        Err(e) => Err(e),
    }
}

/// The associated token account of `wallet`, where claimed rewards go.
pub fn token_account_address(wallet: &[u8; 32]) -> (r: [u8; 32])
    ensures
        r@ == token_account_of(wallet@),
{
    token_account_address_of(wallet)
}

/// What making sure that `wallet`'s token account exists takes: its address,
/// and nothing to send where the account is known to exist, else the
/// instruction that creates it.
pub fn ensure_token_account(wallet: &[u8; 32], exists: bool) -> (r: ([u8; 32], Vec<InstructionDescriptor>))
    ensures
        r.0@ == token_account_of(wallet@),
        exists ==> r.1@.len() == 0,
        !exists ==> r.1@ == seq![create_token_account_instruction_of(wallet@)],
{
    let address = token_account_address_of(wallet);
    let mut ixs: Vec<InstructionDescriptor> = Vec::new();
    if !exists {
        ixs.push(create_token_account_instruction(wallet));
        assert(ixs@ =~= seq![create_token_account_instruction_of(wallet@)]);
    }
    (address, ixs)
}

/// The decision of a claim.
#[derive(Debug)]
pub enum ClaimPlan {
    /// No rewards are owed: nothing is built or sent.
    NothingToClaim,
    /// Transfer exactly `amount`, the claimable balance, with `instruction`.
    Transfer { amount: u64, instruction: InstructionDescriptor },
}

/// Plans the claim of `signer`'s whole claimable balance to `beneficiary`.
pub fn claim(signer: &[u8; 32], beneficiary: &[u8; 32], claimable: u64) -> (r: ClaimPlan)
    ensures
        claimable == 0 ==> r is NothingToClaim,
        claimable > 0 ==> r == (ClaimPlan::Transfer {
            amount: claimable,
            instruction: claim_instruction_of(signer@, beneficiary@, claimable),
        }),
{
    if claimable == 0 {
        ClaimPlan::NothingToClaim
    } else {
        ClaimPlan::Transfer { amount: claimable, instruction: claim_instruction(signer, beneficiary, claimable) }
    }
}

/// Ten to the power `n`.
pub open spec fn pow10(n: nat) -> nat
    decreases n,
{
    if n == 0 { 1 } else { 10 * pow10((n - 1) as nat) }
}

/// Splits a raw amount into whole tokens and the remaining raw units, for
/// a token with `decimals` decimal places.
pub fn split_amount(raw: u64, decimals: u8) -> (r: (u64, u64))
    requires
        decimals <= 19,
    ensures
        r.0 == raw as nat / pow10(decimals as nat),
        r.1 == raw as nat % pow10(decimals as nat),
        r.0 * pow10(decimals as nat) + r.1 == raw,
{
    let mut scale: u64 = 1;
    let mut i: u8 = 0;
    while i < decimals
        invariant
            i <= decimals <= 19,
            scale == pow10(i as nat),
        decreases decimals - i,
    {
        proof {
            lemma_pow10_bound((i + 1) as nat);
        }
        scale = scale * 10;
        i = i + 1;
    }
    proof {
        lemma_pow10_bound(decimals as nat);
        lemma_fundamental_div_mod(raw as int, scale as int);
    }
    (raw / scale, raw % scale)
}

proof fn lemma_pow10_bound(n: nat)
    requires
        n <= 19,
    ensures
        1 <= pow10(n) <= 10_000_000_000_000_000_000,
    decreases 19 - n,
{
    lemma_pow10_positive(n);
    if n < 19 {
        lemma_pow10_bound(n + 1);
        assert(pow10(n + 1) == 10 * pow10(n));
    } else {
        reveal_with_fuel(pow10, 20);
    }
}

proof fn lemma_pow10_positive(n: nat)
    ensures
        pow10(n) >= 1,
    decreases n,
{
    if n > 0 {
        lemma_pow10_positive((n - 1) as nat);
    }
}

} // verus!
