//! The two provisioning entry points. Each runs the full ordered unit on the
//! ledger — validate, allocate, configure the extension, finalize — and is
//! all-or-nothing: on any error the ledger is exactly what it was, and on
//! success the new mint is fully initialized with its extension attached
//! before finalization.

use vstd::prelude::*;

use crate::errors::MyError;
use crate::layout::{mint_space, SOULBOUND_MINT_LEN, TAXED_MINT_LEN};
use crate::ledger::{configured, debited, fresh_slot, initialized, Ledger};
use crate::mint::{ExtensionConfig, ExtensionKind, MintAccount};
use crate::validator::{fee_config_ok, validate};

verus! {

/// The slot a finished taxed mint occupies: allocated with the taxed layout,
/// the transfer-fee extension attached, then finalized.
pub open spec fn taxed_mint_slot(
    ledger: Ledger,
    mint_address: u64,
    token_program: u64,
    decimals: u8,
    transfer_fee_basis_points: u16,
    maximum_fee: u64,
    mint_authority: u64,
    fee_withdraw_authority: u64,
    freeze_authority: Option<u64>,
) -> crate::ledger::Slot {
    initialized(
        configured(
            fresh_slot(
                mint_address,
                token_program,
                ledger.min_balance(TAXED_MINT_LEN) as u64,
                TAXED_MINT_LEN,
            ),
            (ExtensionConfig::TransferFee {
                transfer_fee_config_authority: mint_authority,
                withdraw_withheld_authority: fee_withdraw_authority,
                transfer_fee_basis_points,
                maximum_fee,
            }),
        ),
        decimals,
        mint_authority,
        freeze_authority,
    )
}

/// The slot a finished soulbound mint occupies: allocated with the soulbound
/// layout, the non-transferable marker attached, then finalized.
pub open spec fn soulbound_mint_slot(
    ledger: Ledger,
    mint_address: u64,
    token_program: u64,
    decimals: u8,
    mint_authority: u64,
    freeze_authority: Option<u64>,
) -> crate::ledger::Slot {
    initialized(
        configured(
            fresh_slot(
                mint_address,
                token_program,
                ledger.min_balance(SOULBOUND_MINT_LEN) as u64,
                SOULBOUND_MINT_LEN,
            ),
            ExtensionConfig::NonTransferable,
        ),
        decimals,
        mint_authority,
        freeze_authority,
    )
}

/// Creates a new taxed mint: validates the fee, allocates the backing
/// account, attaches the transfer-fee extension, and finalizes the mint, in
/// that order, as one atomic unit. The mint authority is also recorded as the
/// fee-config authority; the withdraw authority may be distinct.
pub fn create_taxed_token(
    ledger: &mut Ledger,
    payer: u64,
    mint_address: u64,
    token_program: u64,
    decimals: u8,
    transfer_fee_basis_points: u16,
    maximum_fee: u64,
    mint_authority: u64,
    fee_withdraw_authority: u64,
    freeze_authority: Option<u64>,
) -> (r: Result<MintAccount, MyError>)
    requires
        old(ledger).wf(),
    ensures
        final(ledger).wf(),
        final(ledger).rent_per_byte == old(ledger).rent_per_byte,
        r matches Err(e) ==> *final(ledger) == *old(ledger),
        (r matches Err(e) && e == MyError::InvalidFeeConfig) <==> !fee_config_ok(
            transfer_fee_basis_points,
        ),
        (r matches Err(e) && e == MyError::AccountAlreadyInUse) <==> (fee_config_ok(
            transfer_fee_basis_points,
        ) && old(ledger).has_account(mint_address)),
        (r matches Err(e) && e == MyError::InsufficientFunds) <==> (fee_config_ok(
            transfer_fee_basis_points,
        ) && !old(ledger).has_account(mint_address) && old(ledger).balance_of(payer) < old(
            ledger,
        ).min_balance(TAXED_MINT_LEN)),
        r is Ok <==> (fee_config_ok(transfer_fee_basis_points) && !old(ledger).has_account(
            mint_address,
        ) && old(ledger).balance_of(payer) >= old(ledger).min_balance(TAXED_MINT_LEN)),
        r matches Ok(m) ==> m == (MintAccount {
            address: mint_address,
            byte_length: TAXED_MINT_LEN,
            decimals,
            mint_authority,
            freeze_authority,
            extension: Some(
                (ExtensionConfig::TransferFee {
                    transfer_fee_config_authority: mint_authority,
                    withdraw_withheld_authority: fee_withdraw_authority,
                    transfer_fee_basis_points,
                    maximum_fee,
                }),
            ),
        }),
        r is Ok ==> final(ledger).lookup(mint_address) == Some(
            taxed_mint_slot(
                *old(ledger),
                mint_address,
                token_program,
                decimals,
                transfer_fee_basis_points,
                maximum_fee,
                mint_authority,
                fee_withdraw_authority,
                freeze_authority,
            ),
        ),
        r is Ok && old(ledger).has_account(payer) ==> final(ledger).lookup(payer) == Some(
            debited(
                old(ledger).account_at(payer),
                old(ledger).min_balance(TAXED_MINT_LEN) as u64,
            ),
        ),
        r is Ok ==> forall|a: u64|
            a != mint_address && a != payer ==> final(ledger).lookup(a) == old(ledger).lookup(a),
{
    validate(transfer_fee_basis_points, maximum_fee)?;
    let space = mint_space(Some(ExtensionKind::TransferFee));
    ledger.allocate(payer, mint_address, token_program, space)?;
    ledger.configure_transfer_fee(
        mint_address,
        mint_authority,
        fee_withdraw_authority,
        transfer_fee_basis_points,
        maximum_fee,
    )?;
    ledger.finalize_mint(mint_address, decimals, mint_authority, freeze_authority)?;
    Ok(
        MintAccount {
            address: mint_address,
            byte_length: space,
            decimals,
            mint_authority,
            freeze_authority,
            extension: Some(
                ExtensionConfig::TransferFee {
                    transfer_fee_config_authority: mint_authority,
                    withdraw_withheld_authority: fee_withdraw_authority,
                    transfer_fee_basis_points,
                    maximum_fee,
                },
            ),
        },
    )
}

/// Creates a new soulbound mint: allocates the backing account, attaches the
/// non-transferable marker, and finalizes the mint, in that order, as one
/// atomic unit. Tokens of the mint can be minted and burned but never
/// transferred.
pub fn create_soulbound_token(
    ledger: &mut Ledger,
    payer: u64,
    mint_address: u64,
    token_program: u64,
    decimals: u8,
    mint_authority: u64,
    freeze_authority: Option<u64>,
) -> (r: Result<MintAccount, MyError>)
    requires
        old(ledger).wf(),
    ensures
        final(ledger).wf(),
        final(ledger).rent_per_byte == old(ledger).rent_per_byte,
        r matches Err(e) ==> *final(ledger) == *old(ledger),
        (r matches Err(e) && e == MyError::AccountAlreadyInUse) <==> old(ledger).has_account(
            mint_address,
        ),
        (r matches Err(e) && e == MyError::InsufficientFunds) <==> (!old(ledger).has_account(
            mint_address,
        ) && old(ledger).balance_of(payer) < old(ledger).min_balance(SOULBOUND_MINT_LEN)),
        r is Ok <==> (!old(ledger).has_account(mint_address) && old(ledger).balance_of(payer)
            >= old(ledger).min_balance(SOULBOUND_MINT_LEN)),
        r matches Ok(m) ==> m == (MintAccount {
            address: mint_address,
            byte_length: SOULBOUND_MINT_LEN,
            decimals,
            mint_authority,
            freeze_authority,
            extension: Some(ExtensionConfig::NonTransferable),
        }),
        r matches Ok(m) ==> !m.spec_allows_transfers(),
        r is Ok ==> final(ledger).lookup(mint_address) == Some(
            soulbound_mint_slot(
                *old(ledger),
                mint_address,
                token_program,
                decimals,
                mint_authority,
                freeze_authority,
            ),
        ),
        r is Ok && old(ledger).has_account(payer) ==> final(ledger).lookup(payer) == Some(
            debited(
                old(ledger).account_at(payer),
                old(ledger).min_balance(SOULBOUND_MINT_LEN) as u64,
            ),
        ),
        r is Ok ==> forall|a: u64|
            a != mint_address && a != payer ==> final(ledger).lookup(a) == old(ledger).lookup(a),
{
    let space = mint_space(Some(ExtensionKind::NonTransferable));
    ledger.allocate(payer, mint_address, token_program, space)?;
    ledger.configure_non_transferable(mint_address)?;
    ledger.finalize_mint(mint_address, decimals, mint_authority, freeze_authority)?;
    Ok(
        MintAccount {
            address: mint_address,
            byte_length: space,
            decimals,
            mint_authority,
            freeze_authority,
            extension: Some(ExtensionConfig::NonTransferable),
        },
    )
}

} // verus!
