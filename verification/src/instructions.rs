//! Instruction plans for the real token runtime. Each entry point validates
//! the request, then builds the full ordered instruction sequence for one
//! atomic unit: create the backing account with the exact extended byte
//! length, attach the extension, and only then finalize the mint. The
//! constructors are consumed primitives; the contracts here say exactly when
//! a plan is owed, which error each failing step yields, and pin every slot
//! of the plan — content and order — over the constructors' named results.

use vstd::prelude::*;

use solana_address::Address;
use solana_instruction::Instruction;

use crate::errors::MyError;
use crate::layout::{mint_space, SOULBOUND_MINT_LEN, TAXED_MINT_LEN};
use crate::mint::ExtensionKind;
use crate::primitives;
use crate::primitives::{
    copied_addr, create_account_instruction, initialize_mint_instruction,
    initialize_non_transferable_instruction, initialize_transfer_fee_instruction,
    spl_token_program_check, token_2022_program_check,
};
use crate::validator::{fee_config_ok, validate};

verus! {

/// Builds the three-instruction plan for a taxed mint: create the 278-byte
/// backing account, write the transfer-fee extension, finalize the mint.
/// `lamports` is the rent-exempt quote the caller obtained for that byte
/// length. Rejects an out-of-bounds fee before anything is built; succeeds
/// exactly when the fee is in bounds and the given token program passes the
/// constructors' program-id checks.
pub fn taxed_token_instructions(
    token_program: &Address,
    payer: &Address,
    mint: &Address,
    mint_authority: &Address,
    fee_withdraw_authority: &Address,
    freeze_authority: Option<&Address>,
    decimals: u8,
    transfer_fee_basis_points: u16,
    maximum_fee: u64,
    lamports: u64,
) -> (r: Result<Vec<Instruction>, MyError>)
    ensures
        (r matches Err(e) && e == MyError::InvalidFeeConfig) <==> !fee_config_ok(
            transfer_fee_basis_points,
        ),
        (r matches Err(e) && e == MyError::TransferFeeInitFailed) <==> (fee_config_ok(
            transfer_fee_basis_points,
        ) && !token_2022_program_check(*token_program)),
        (r matches Err(e) && e == MyError::MintFailed) <==> (fee_config_ok(
            transfer_fee_basis_points,
        ) && token_2022_program_check(*token_program) && !spl_token_program_check(
            *token_program,
        )),
        r is Ok <==> (fee_config_ok(transfer_fee_basis_points) && token_2022_program_check(
            *token_program,
        ) && spl_token_program_check(*token_program)),
        r matches Ok(v) ==> v@.len() == 3,
        r matches Ok(v) ==> v@[0] == create_account_instruction(
            *payer,
            *mint,
            lamports,
            TAXED_MINT_LEN as u64,
            *token_program,
        ),
        r matches Ok(v) ==> v@[1] == initialize_transfer_fee_instruction(
            *token_program,
            *mint,
            Some(*mint_authority),
            Some(*fee_withdraw_authority),
            transfer_fee_basis_points,
            maximum_fee,
        ),
        r matches Ok(v) ==> v@[2] == initialize_mint_instruction(
            *token_program,
            *mint,
            *mint_authority,
            copied_addr(freeze_authority),
            decimals,
        ),
{
    validate(transfer_fee_basis_points, maximum_fee)?;
    let space = mint_space(Some(ExtensionKind::TransferFee));
    let create = primitives::create_account_ix(payer, mint, lamports, space as u64, token_program);
    let configure = match primitives::initialize_transfer_fee_ix(
        token_program,
        mint,
        Some(mint_authority),
        Some(fee_withdraw_authority),
        transfer_fee_basis_points,
        maximum_fee,
    ) {
        Ok(ix) => ix,
        Err(_) => {
            return Err(MyError::TransferFeeInitFailed);
        },
    };
    let finalize = match primitives::initialize_mint_ix(
        token_program,
        mint,
        mint_authority,
        freeze_authority,
        decimals,
    ) {
        Ok(ix) => ix,
        Err(_) => {
            return Err(MyError::MintFailed);
        },
    };
    let mut plan: Vec<Instruction> = Vec::new();
    plan.push(create);
    plan.push(configure);
    plan.push(finalize);
    Ok(plan)
}

/// Builds the three-instruction plan for a soulbound mint: create the
/// 170-byte backing account, write the non-transferable marker, finalize the
/// mint. `lamports` is the rent-exempt quote the caller obtained for that
/// byte length. Succeeds exactly when the given token program passes the
/// constructors' program-id checks.
pub fn soulbound_token_instructions(
    token_program: &Address,
    payer: &Address,
    mint: &Address,
    mint_authority: &Address,
    freeze_authority: Option<&Address>,
    decimals: u8,
    lamports: u64,
) -> (r: Result<Vec<Instruction>, MyError>)
    ensures
        (r matches Err(e) && e == MyError::NonTransferableInitFailed) <==> !token_2022_program_check(
            *token_program,
        ),
        (r matches Err(e) && e == MyError::MintFailed) <==> (token_2022_program_check(
            *token_program,
        ) && !spl_token_program_check(*token_program)),
        r is Ok <==> (token_2022_program_check(*token_program) && spl_token_program_check(
            *token_program,
        )),
        r matches Ok(v) ==> v@.len() == 3,
        r matches Ok(v) ==> v@[0] == create_account_instruction(
            *payer,
            *mint,
            lamports,
            SOULBOUND_MINT_LEN as u64,
            *token_program,
        ),
        r matches Ok(v) ==> v@[1] == initialize_non_transferable_instruction(
            *token_program,
            *mint,
        ),
        r matches Ok(v) ==> v@[2] == initialize_mint_instruction(
            *token_program,
            *mint,
            *mint_authority,
            copied_addr(freeze_authority),
            decimals,
        ),
{
    let space = mint_space(Some(ExtensionKind::NonTransferable));
    let create = primitives::create_account_ix(payer, mint, lamports, space as u64, token_program);
    let configure = match primitives::initialize_non_transferable_ix(token_program, mint) {
        Ok(ix) => ix,
        Err(_) => {
            return Err(MyError::NonTransferableInitFailed);
        },
    };
    let finalize = match primitives::initialize_mint_ix(
        token_program,
        mint,
        mint_authority,
        freeze_authority,
        decimals,
    ) {
        Ok(ix) => ix,
        Err(_) => {
            return Err(MyError::MintFailed);
        },
    };
    let mut plan: Vec<Instruction> = Vec::new();
    plan.push(create);
    plan.push(configure);
    plan.push(finalize);
    Ok(plan)
}

} // verus!
