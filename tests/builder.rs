use ore_cli::accounts::ReadError;
use ore_cli::builder::{
    claim, ensure_token_account, proof_address, register, split_amount, token_account_address, ClaimPlan,
    TOKEN_DECIMALS,
};
use ore_cli::instruction::with_fee_instructions;

const SIGNER: [u8; 32] = [7u8; 32];
const BENEFICIARY: [u8; 32] = [8u8; 32];

#[test]
fn register_skips_registered_identity() {
    let r = register(&SIGNER, Ok(vec![101u8; 96])).unwrap();
    assert!(r.is_empty());
}

#[test]
fn register_builds_one_instruction_when_absent() {
    let r = register(&SIGNER, Err(ReadError::NotFound)).unwrap();
    assert_eq!(r.len(), 1);
    assert_eq!(r[0].data[0], 1);
    assert_eq!(r[0].accounts[0].key, SIGNER);
    assert!(r[0].accounts[0].is_signer);
    assert_eq!(r[0].accounts[1].key, proof_address(&SIGNER));
}

#[test]
fn register_passes_transport_error_on() {
    let r = register(&SIGNER, Err(ReadError::Transport("down".to_string())));
    assert!(matches!(r, Err(ReadError::Transport(ref m)) if m == "down"));
}

#[test]
fn claim_nothing_when_balance_zero() {
    assert!(matches!(claim(&SIGNER, &BENEFICIARY, 0), ClaimPlan::NothingToClaim));
}

#[test]
fn claim_transfers_exact_balance() {
    let raw: u64 = 1_000_000_000;
    match claim(&SIGNER, &BENEFICIARY, raw) {
        ClaimPlan::Transfer { amount, instruction } => {
            assert_eq!(amount, 1_000_000_000);
            assert_eq!(instruction.data[0], 3);
            assert_eq!(instruction.data[1..9].to_vec(), raw.to_le_bytes().to_vec());
            assert_eq!(instruction.accounts[1].key, BENEFICIARY);
        }
        ClaimPlan::NothingToClaim => panic!("expected a transfer"),
    }
    assert_eq!(split_amount(raw, TOKEN_DECIMALS), (1, 0));
}

#[test]
fn split_amount_values() {
    assert_eq!(split_amount(1_234_567_890, 9), (1, 234_567_890));
    assert_eq!(split_amount(5, 0), (5, 0));
    assert_eq!(split_amount(999, 9), (0, 999));
    assert_eq!(split_amount(u64::MAX, 19), (1, u64::MAX - 10_000_000_000_000_000_000));
}

#[test]
fn token_account_existing_needs_nothing() {
    let (address, ixs) = ensure_token_account(&SIGNER, true);
    assert!(ixs.is_empty());
    assert_eq!(address, token_account_address(&SIGNER));
    assert_ne!(address, SIGNER);
}

#[test]
fn token_account_missing_is_created() {
    let (address, ixs) = ensure_token_account(&SIGNER, false);
    assert_eq!(ixs.len(), 1);
    assert!(ixs[0].accounts.iter().any(|a| a.key == address));
    assert!(ixs[0].accounts.iter().any(|a| a.key == SIGNER && a.is_signer));
}

#[test]
fn proof_address_differs_from_signer() {
    assert_ne!(proof_address(&SIGNER), SIGNER);
    assert_ne!(proof_address(&SIGNER), proof_address(&BENEFICIARY));
}

#[test]
fn fee_instructions_come_first() {
    let ixs = register(&SIGNER, Err(ReadError::NotFound)).unwrap();
    let all = with_fee_instructions(11_000, 5, ixs);
    assert_eq!(all.len(), 3);
    let mut limit = vec![2u8];
    limit.extend_from_slice(&11_000u32.to_le_bytes());
    assert_eq!(all[0].data, limit);
    assert!(all[0].accounts.is_empty());
    let mut price = vec![3u8];
    price.extend_from_slice(&5u64.to_le_bytes());
    assert_eq!(all[1].data, price);
    assert_eq!(all[2].data[0], 1);
    assert_eq!(all[0].program_id, all[1].program_id);
}
