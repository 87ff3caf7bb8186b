use taxed_token_launchpad::errors::MyError;
use taxed_token_launchpad::launchpad::{create_soulbound_token, create_taxed_token};
use taxed_token_launchpad::layout::{mint_space, BARE_MINT_LEN, SOULBOUND_MINT_LEN, TAXED_MINT_LEN};
use taxed_token_launchpad::ledger::{Ledger, MintStage};
use taxed_token_launchpad::mint::{ExtensionConfig, ExtensionKind};
use taxed_token_launchpad::validator::validate;

const PAYER: u64 = 1;
const MINT: u64 = 2;
const TOKEN_PROGRAM: u64 = 3;
const MINT_AUTHORITY: u64 = 4;
const FEE_WITHDRAW_AUTHORITY: u64 = 5;
const FREEZE_AUTHORITY: u64 = 6;

fn funded_ledger(rent_per_byte: u64, balance: u64) -> Ledger {
    let mut ledger = Ledger::new(rent_per_byte);
    ledger.open_wallet(PAYER, balance).unwrap();
    ledger
}

#[test]
fn validate_accepts_the_whole_fee_range() {
    assert_eq!(validate(0, 0), Ok(()));
    assert_eq!(validate(1, u64::MAX), Ok(()));
    assert_eq!(validate(500, 1_000_000), Ok(()));
    assert_eq!(validate(10_000, 0), Ok(()));
}

#[test]
fn validate_rejects_everything_above_the_bound() {
    assert_eq!(validate(10_001, 0), Err(MyError::InvalidFeeConfig));
    assert_eq!(validate(20_000, 7), Err(MyError::InvalidFeeConfig));
    assert_eq!(validate(u16::MAX, u64::MAX), Err(MyError::InvalidFeeConfig));
}

#[test]
fn taxed_mint_records_the_requested_parameters() {
    let mut ledger = funded_ledger(1, 1_000_000);
    let mint = create_taxed_token(
        &mut ledger,
        PAYER,
        MINT,
        TOKEN_PROGRAM,
        9,
        500,
        1_000_000,
        MINT_AUTHORITY,
        FEE_WITHDRAW_AUTHORITY,
        Some(FREEZE_AUTHORITY),
    )
    .unwrap();
    assert_eq!(mint.address, MINT);
    assert_eq!(mint.decimals, 9);
    assert_eq!(mint.byte_length, TAXED_MINT_LEN);
    assert_eq!(mint.mint_authority, MINT_AUTHORITY);
    assert_eq!(mint.freeze_authority, Some(FREEZE_AUTHORITY));
    assert_eq!(
        mint.extension,
        Some(ExtensionConfig::TransferFee {
            transfer_fee_config_authority: MINT_AUTHORITY,
            withdraw_withheld_authority: FEE_WITHDRAW_AUTHORITY,
            transfer_fee_basis_points: 500,
            maximum_fee: 1_000_000,
        })
    );
    // A taxed mint carries no non-transferable marker.
    assert!(mint.allows_transfers());

    let slot = ledger.slot_of(MINT).unwrap();
    assert_eq!(slot.stage, MintStage::Initialized);
    assert_eq!(slot.owner, TOKEN_PROGRAM);
    assert_eq!(slot.byte_len, TAXED_MINT_LEN);
}

#[test]
fn soulbound_mint_is_non_transferable_and_fee_free() {
    let mut ledger = funded_ledger(1, 1_000_000);
    let mint = create_soulbound_token(
        &mut ledger,
        PAYER,
        MINT,
        TOKEN_PROGRAM,
        6,
        MINT_AUTHORITY,
        None,
    )
    .unwrap();
    assert_eq!(mint.decimals, 6);
    assert_eq!(mint.byte_length, SOULBOUND_MINT_LEN);
    assert_eq!(mint.extension, Some(ExtensionConfig::NonTransferable));
    assert_eq!(mint.freeze_authority, None);
    // Any transfer attempt against tokens of this mint must fail.
    assert!(!mint.allows_transfers());
    match mint.extension {
        Some(ExtensionConfig::TransferFee { .. }) => panic!("soulbound mint has fee fields"),
        _ => {}
    }
}

#[test]
fn byte_length_ordering_taxed_over_soulbound_over_bare() {
    let taxed = mint_space(Some(ExtensionKind::TransferFee));
    let soulbound = mint_space(Some(ExtensionKind::NonTransferable));
    let bare = mint_space(None);
    assert!(taxed > soulbound);
    assert!(soulbound > bare);
    assert_eq!(taxed, TAXED_MINT_LEN);
    assert_eq!(soulbound, SOULBOUND_MINT_LEN);
    assert_eq!(bare, BARE_MINT_LEN);
    assert_eq!(taxed, 278);
    assert_eq!(soulbound, 170);
    assert_eq!(bare, 82);
}

#[test]
fn second_request_for_the_same_address_fails() {
    let mut ledger = funded_ledger(1, 1_000_000);
    create_taxed_token(
        &mut ledger,
        PAYER,
        MINT,
        TOKEN_PROGRAM,
        9,
        500,
        1_000_000,
        MINT_AUTHORITY,
        FEE_WITHDRAW_AUTHORITY,
        None,
    )
    .unwrap();
    let before = ledger.slot_of(MINT).unwrap();
    let balance_before = ledger.balance(PAYER);
    let second = create_soulbound_token(
        &mut ledger,
        PAYER,
        MINT,
        TOKEN_PROGRAM,
        0,
        MINT_AUTHORITY,
        None,
    );
    assert_eq!(second.unwrap_err(), MyError::AccountAlreadyInUse);
    // No second mint was finalized and nothing changed.
    assert_eq!(ledger.slot_of(MINT).unwrap(), before);
    assert_eq!(ledger.balance(PAYER), balance_before);
}

#[test]
fn second_allocate_for_the_same_fresh_address_fails() {
    let mut ledger = funded_ledger(1, 1_000_000);
    ledger.allocate(PAYER, MINT, TOKEN_PROGRAM, 82).unwrap();
    assert_eq!(
        ledger.allocate(PAYER, MINT, TOKEN_PROGRAM, 82),
        Err(MyError::AccountAlreadyInUse)
    );
    // The first allocation was never finalized into a mint.
    assert_eq!(ledger.slot_of(MINT).unwrap().stage, MintStage::Allocated);
}

#[test]
fn configure_after_finalization_fails_and_mutates_nothing() {
    let mut ledger = funded_ledger(1, 1_000_000);
    create_taxed_token(
        &mut ledger,
        PAYER,
        MINT,
        TOKEN_PROGRAM,
        9,
        500,
        1_000_000,
        MINT_AUTHORITY,
        FEE_WITHDRAW_AUTHORITY,
        None,
    )
    .unwrap();
    let before = ledger.slot_of(MINT).unwrap();

    let fee_again = ledger.configure_transfer_fee(MINT, MINT_AUTHORITY, FEE_WITHDRAW_AUTHORITY, 1, 1);
    assert_eq!(fee_again, Err(MyError::TransferFeeInitFailed));
    assert_eq!(ledger.slot_of(MINT).unwrap(), before);

    let marker_again = ledger.configure_non_transferable(MINT);
    assert_eq!(marker_again, Err(MyError::NonTransferableInitFailed));
    assert_eq!(ledger.slot_of(MINT).unwrap(), before);
}

#[test]
fn invalid_fee_fails_fast_with_zero_ledger_mutations() {
    let mut ledger = funded_ledger(1, 1_000_000);
    let r = create_taxed_token(
        &mut ledger,
        PAYER,
        MINT,
        TOKEN_PROGRAM,
        9,
        10_001,
        1_000_000,
        MINT_AUTHORITY,
        FEE_WITHDRAW_AUTHORITY,
        None,
    );
    assert_eq!(r.unwrap_err(), MyError::InvalidFeeConfig);
    // No debit, no account created.
    assert_eq!(ledger.balance(PAYER), 1_000_000);
    assert!(!ledger.contains(MINT));
}

#[test]
fn poor_payer_cannot_allocate() {
    // Rent for the taxed layout is 10 * 278 = 2780; the payer holds less.
    let mut ledger = funded_ledger(10, 2_779);
    let r = create_taxed_token(
        &mut ledger,
        PAYER,
        MINT,
        TOKEN_PROGRAM,
        9,
        500,
        1_000_000,
        MINT_AUTHORITY,
        FEE_WITHDRAW_AUTHORITY,
        None,
    );
    assert_eq!(r.unwrap_err(), MyError::InsufficientFunds);
    assert_eq!(ledger.balance(PAYER), 2_779);
    assert!(!ledger.contains(MINT));
}

#[test]
fn rent_debit_is_exact() {
    let mut ledger = funded_ledger(10, 10_000);
    create_taxed_token(
        &mut ledger,
        PAYER,
        MINT,
        TOKEN_PROGRAM,
        9,
        500,
        1_000_000,
        MINT_AUTHORITY,
        FEE_WITHDRAW_AUTHORITY,
        None,
    )
    .unwrap();
    assert_eq!(ledger.balance(PAYER), 10_000 - 10 * 278);
    assert_eq!(ledger.balance(MINT), 10 * 278);
}

#[test]
fn finalize_from_unallocated_fails() {
    let mut ledger = funded_ledger(1, 1_000);
    assert_eq!(
        ledger.finalize_mint(MINT, 0, MINT_AUTHORITY, None),
        Err(MyError::MintFailed)
    );
    assert!(!ledger.contains(MINT));
}

#[test]
fn finalize_twice_fails_and_keeps_the_mint() {
    let mut ledger = funded_ledger(1, 1_000_000);
    create_soulbound_token(&mut ledger, PAYER, MINT, TOKEN_PROGRAM, 6, MINT_AUTHORITY, None)
        .unwrap();
    let before = ledger.slot_of(MINT).unwrap();
    assert_eq!(
        ledger.finalize_mint(MINT, 3, FEE_WITHDRAW_AUTHORITY, Some(FREEZE_AUTHORITY)),
        Err(MyError::MintFailed)
    );
    assert_eq!(ledger.slot_of(MINT).unwrap(), before);
}

#[test]
fn open_wallet_rejects_a_used_address() {
    let mut ledger = funded_ledger(1, 50);
    assert_eq!(ledger.open_wallet(PAYER, 7), Err(MyError::AccountAlreadyInUse));
    assert_eq!(ledger.balance(PAYER), 50);
}
