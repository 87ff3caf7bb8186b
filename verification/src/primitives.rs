//! The consumed token-runtime primitives: trusted declarations of the
//! outside types that flow through them, and thin wrappers around the
//! outside calls. Everything here is invoked, never reimplemented; each
//! wrapper's contract states only what the outside source shows.

use vstd::prelude::*;

use solana_address::Address;
use solana_instruction::Instruction;
use solana_program_error::ProgramError;
use spl_token_2022_interface::extension::ExtensionType;
use spl_token_2022_interface::state::Mint;

use crate::layout::mint_account_len;
use crate::mint::ExtensionKind;

verus! {

/// The error type of the token-runtime instruction constructors.
#[verifier::external_type_specification]
#[verifier::external_body]
pub struct ExProgramError(solana_program_error::ProgramError);

/// A 32-byte ledger address.
#[verifier::external_type_specification]
#[verifier::external_body]
pub struct ExAddress(solana_address::Address);

/// One instruction for the ledger runtime: a program to run, the accounts it
/// may touch, and its input bytes.
#[verifier::external_type_specification]
#[verifier::external_body]
pub struct ExInstruction(solana_instruction::Instruction);

/// Relies on `ExtensionType::try_calculate_account_len::<Mint>`: with no
/// extensions it returns the 82-byte packed base mint length; with
/// extensions, the 166-byte extended base plus, per extension, a four-byte
/// type-and-length header and the extension's fixed size (108 bytes for the
/// transfer-fee configuration, 0 for the non-transferable marker). Both
/// extensions used here have a fixed size, so the call cannot fail.
#[verifier::external_body]
pub(crate) fn packed_mint_len(extension: Option<ExtensionKind>) -> (r: Result<usize, ProgramError>)
    ensures
        r is Ok,
        r matches Ok(n) ==> n == mint_account_len(extension),
{
    let kinds: &[ExtensionType] = match extension {
        None => &[],
        Some(ExtensionKind::TransferFee) => &[ExtensionType::TransferFeeConfig],
        Some(ExtensionKind::NonTransferable) => &[ExtensionType::NonTransferable],
    };
    ExtensionType::try_calculate_account_len::<Mint>(kinds)
}

/// Whether `spl_token_2022_interface::check_spl_token_program_account`
/// accepts the address, that is whether it is one of the two SPL token
/// program ids. The outcome depends on the address alone.
pub uninterp spec fn spl_token_program_check(address: Address) -> bool;

/// Whether `spl_token_2022_interface::check_program_account` accepts the
/// address, that is whether it is the token-2022 program id. The outcome
/// depends on the address alone.
pub uninterp spec fn token_2022_program_check(address: Address) -> bool;

/// The instruction `solana_system_interface::instruction::create_account`
/// builds from these arguments; the constructor is a pure function of them.
pub uninterp spec fn create_account_instruction(
    payer: Address,
    target: Address,
    lamports: u64,
    space: u64,
    owner_program: Address,
) -> Instruction;

/// The instruction `spl_token_2022_interface::instruction::initialize_mint`
/// builds from these arguments; the constructor is a pure function of them.
pub uninterp spec fn initialize_mint_instruction(
    token_program: Address,
    mint: Address,
    mint_authority: Address,
    freeze_authority: Option<Address>,
    decimals: u8,
) -> Instruction;

/// The instruction
/// `spl_token_2022_interface::extension::transfer_fee::instruction::initialize_transfer_fee_config`
/// builds from these arguments; the constructor is a pure function of them.
pub uninterp spec fn initialize_transfer_fee_instruction(
    token_program: Address,
    mint: Address,
    config_authority: Option<Address>,
    withdraw_authority: Option<Address>,
    transfer_fee_basis_points: u16,
    maximum_fee: u64,
) -> Instruction;

/// The instruction
/// `spl_token_2022_interface::instruction::initialize_non_transferable_mint`
/// builds from these arguments; the constructor is a pure function of them.
pub uninterp spec fn initialize_non_transferable_instruction(
    token_program: Address,
    mint: Address,
) -> Instruction;

/// An optional borrowed address as the optional address it points to.
pub open spec fn copied_addr(address: Option<&Address>) -> Option<Address> {
    match address {
        Some(a) => Some(*a),
        None => None,
    }
}

/// Relies on `solana_system_interface::instruction::create_account`: builds
/// the ledger instruction that debits the payer, creates the account at the
/// target address with exactly `space` zeroed bytes owned by
/// `owner_program`, and funds it with `lamports`. The constructor never
/// fails and its result depends on the arguments alone.
#[verifier::external_body]
pub(crate) fn create_account_ix(
    payer: &Address,
    target: &Address,
    lamports: u64,
    space: u64,
    owner_program: &Address,
) -> (r: Instruction)
    ensures
        r == create_account_instruction(*payer, *target, lamports, space, *owner_program),
{
    solana_system_interface::instruction::create_account(
        payer,
        target,
        lamports,
        space,
        owner_program,
    )
}

/// Relies on `spl_token_2022_interface::instruction::initialize_mint`: builds
/// the instruction that finalizes the mint with the given decimals and
/// authorities. It fails exactly when the given token program id is not an
/// SPL token program id, and otherwise its result depends on the arguments
/// alone.
#[verifier::external_body]
pub(crate) fn initialize_mint_ix(
    token_program: &Address,
    mint: &Address,
    mint_authority: &Address,
    freeze_authority: Option<&Address>,
    decimals: u8,
) -> (r: Result<Instruction, ProgramError>)
    ensures
        r is Ok <==> spl_token_program_check(*token_program),
        r matches Ok(ix) ==> ix == initialize_mint_instruction(
            *token_program,
            *mint,
            *mint_authority,
            copied_addr(freeze_authority),
            decimals,
        ),
{
    spl_token_2022_interface::instruction::initialize_mint(
        token_program,
        mint,
        mint_authority,
        freeze_authority,
        decimals,
    )
}

/// Relies on
/// `spl_token_2022_interface::extension::transfer_fee::instruction::initialize_transfer_fee_config`:
/// builds the instruction that writes the transfer-fee extension header with
/// the two authorities, the rate and the cap. It fails exactly when the given
/// token program id is not the token-2022 program id, and otherwise its
/// result depends on the arguments alone; notably it does not bound the
/// rate, which is why validation stays on this side.
#[verifier::external_body]
pub(crate) fn initialize_transfer_fee_ix(
    token_program: &Address,
    mint: &Address,
    config_authority: Option<&Address>,
    withdraw_authority: Option<&Address>,
    transfer_fee_basis_points: u16,
    maximum_fee: u64,
) -> (r: Result<Instruction, ProgramError>)
    ensures
        r is Ok <==> token_2022_program_check(*token_program),
        r matches Ok(ix) ==> ix == initialize_transfer_fee_instruction(
            *token_program,
            *mint,
            copied_addr(config_authority),
            copied_addr(withdraw_authority),
            transfer_fee_basis_points,
            maximum_fee,
        ),
{
    spl_token_2022_interface::extension::transfer_fee::instruction::initialize_transfer_fee_config(
        token_program,
        mint,
        config_authority,
        withdraw_authority,
        transfer_fee_basis_points,
        maximum_fee,
    )
}

/// Relies on
/// `spl_token_2022_interface::instruction::initialize_non_transferable_mint`:
/// builds the instruction that writes the non-transferable marker. It fails
/// exactly when the given token program id is not the token-2022 program id,
/// and otherwise its result depends on the arguments alone.
#[verifier::external_body]
pub(crate) fn initialize_non_transferable_ix(
    token_program: &Address,
    mint: &Address,
) -> (r: Result<Instruction, ProgramError>)
    ensures
        r is Ok <==> token_2022_program_check(*token_program),
        r matches Ok(ix) ==> ix == initialize_non_transferable_instruction(*token_program, *mint),
{
    spl_token_2022_interface::instruction::initialize_non_transferable_mint(token_program, mint)
}

} // verus!
