use solana_address::Address;
use taxed_token_launchpad::errors::MyError;
use taxed_token_launchpad::instructions::{soulbound_token_instructions, taxed_token_instructions};

fn addr(tag: u8) -> Address {
    Address::new_from_array([tag; 32])
}

#[test]
fn taxed_plan_holds_three_ordered_instructions() {
    let token_program = spl_token_2022_interface::id();
    let payer = addr(1);
    let mint = addr(2);
    let mint_authority = addr(3);
    let fee_withdraw_authority = addr(4);
    let freeze_authority = addr(5);
    let plan = taxed_token_instructions(
        &token_program,
        &payer,
        &mint,
        &mint_authority,
        &fee_withdraw_authority,
        Some(&freeze_authority),
        9,
        500,
        1_000_000,
        2_000_000,
    )
    .unwrap();
    assert_eq!(plan.len(), 3);
    // The backing account is created by the system program; the extension is
    // written and the mint finalized by the token program, in that order.
    assert_eq!(plan[0].program_id, solana_system_interface::program::id());
    assert_eq!(plan[1].program_id, token_program);
    assert_eq!(plan[2].program_id, token_program);
    // The create-account data carries the taxed byte length (offset 12,
    // little endian, after the 4-byte tag and the 8-byte lamports).
    assert_eq!(plan[0].data.len(), 52);
    assert_eq!(plan[0].data[4..12], 2_000_000u64.to_le_bytes());
    assert_eq!(plan[0].data[12..20], 278u64.to_le_bytes());
    // The extension write is the transfer-fee initialization (tag 26, sub 0)
    // on the mint account; the finalization is the mint initialization
    // (tag 0) with the requested decimals.
    assert_eq!(&plan[1].data[0..2], &[26, 0]);
    assert_eq!(plan[1].accounts.len(), 1);
    assert_eq!(plan[1].accounts[0].pubkey, mint);
    assert_eq!(&plan[2].data[0..2], &[0, 9]);
    assert_eq!(plan[2].accounts[0].pubkey, mint);
}

#[test]
fn taxed_plan_rejects_an_out_of_bounds_fee() {
    let token_program = spl_token_2022_interface::id();
    let r = taxed_token_instructions(
        &token_program,
        &addr(1),
        &addr(2),
        &addr(3),
        &addr(4),
        None,
        9,
        10_001,
        1_000_000,
        2_000_000,
    );
    assert_eq!(r.unwrap_err(), MyError::InvalidFeeConfig);
}

#[test]
fn taxed_plan_rejects_a_wrong_token_program() {
    let not_a_token_program = addr(9);
    let r = taxed_token_instructions(
        &not_a_token_program,
        &addr(1),
        &addr(2),
        &addr(3),
        &addr(4),
        None,
        9,
        500,
        1_000_000,
        2_000_000,
    );
    assert_eq!(r.unwrap_err(), MyError::TransferFeeInitFailed);
}

#[test]
fn soulbound_plan_holds_three_ordered_instructions() {
    let token_program = spl_token_2022_interface::id();
    let mint = addr(2);
    let plan = soulbound_token_instructions(
        &token_program,
        &addr(1),
        &mint,
        &addr(3),
        None,
        6,
        1_500_000,
    )
    .unwrap();
    assert_eq!(plan.len(), 3);
    assert_eq!(plan[0].program_id, solana_system_interface::program::id());
    assert_eq!(plan[1].program_id, token_program);
    assert_eq!(plan[2].program_id, token_program);
    // Soulbound byte length in the create-account data, then the bare
    // non-transferable marker write (tag 32), then mint initialization with
    // the requested decimals.
    assert_eq!(plan[0].data[12..20], 170u64.to_le_bytes());
    assert_eq!(plan[1].data, vec![32]);
    assert_eq!(plan[1].accounts[0].pubkey, mint);
    assert_eq!(&plan[2].data[0..2], &[0, 6]);
}

#[test]
fn soulbound_plan_rejects_a_wrong_token_program() {
    let r = soulbound_token_instructions(&addr(9), &addr(1), &addr(2), &addr(3), None, 6, 1);
    assert_eq!(r.unwrap_err(), MyError::NonTransferableInitFailed);
}
