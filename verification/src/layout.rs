use vstd::prelude::*;

use crate::mint::ExtensionKind;
use crate::primitives;

verus! {

/// Byte length of a mint account that carries no extension: the packed base
/// mint layout.
pub const BARE_MINT_LEN: usize = 82;

/// Byte length that every extended mint account starts from: the full base
/// account layout followed by the one account-type byte.
pub const EXTENDED_MINT_BASE_LEN: usize = 166;

/// Bytes one transfer-fee entry adds on top of the extended base: a four-byte
/// type-and-length header plus the 108-byte fee configuration.
pub const TRANSFER_FEE_TLV_LEN: usize = 112;

/// Bytes one non-transferable entry adds on top of the extended base: the
/// four-byte type-and-length header alone, the marker itself being empty.
pub const NON_TRANSFERABLE_TLV_LEN: usize = 4;

/// Total byte length of a taxed mint account: the extended base plus the
/// transfer-fee entry.
pub const TAXED_MINT_LEN: usize = 278;

/// Total byte length of a soulbound mint account: the extended base plus the
/// non-transferable entry.
pub const SOULBOUND_MINT_LEN: usize = 170;

/// Bytes an extension entry occupies inside the extension block.
pub open spec fn extension_tlv_len(kind: ExtensionKind) -> int {
    match kind {
        ExtensionKind::TransferFee => TRANSFER_FEE_TLV_LEN as int,
        ExtensionKind::NonTransferable => NON_TRANSFERABLE_TLV_LEN as int,
    }
}

/// Exact byte length of the backing account for a mint with the chosen
/// extension: the base layout alone, or the extended base plus the one
/// extension entry.
pub open spec fn mint_account_len(extension: Option<ExtensionKind>) -> int {
    match extension {
        Option::None => BARE_MINT_LEN as int,
        Option::Some(kind) => EXTENDED_MINT_BASE_LEN + extension_tlv_len(kind),
    }
}

/// Computes the byte length the backing account must be allocated with for
/// the chosen extension, by asking the token runtime itself.
pub fn mint_space(extension: Option<ExtensionKind>) -> (n: usize)
    ensures
        n == mint_account_len(extension),
{
    match primitives::packed_mint_len(extension) {
        Ok(n) => n,
        Err(_) => 0,
    }
}

/// Allocated byte length ordering: a taxed mint needs strictly more bytes
/// than a soulbound mint, and a soulbound mint strictly more than a bare
/// mint, since the extension block and the transfer-fee entry each cost
/// space.
pub proof fn lemma_mint_len_ordering()
    ensures
        mint_account_len(Some(ExtensionKind::TransferFee)) > mint_account_len(
            Some(ExtensionKind::NonTransferable),
        ),
        mint_account_len(Some(ExtensionKind::NonTransferable)) > mint_account_len(
            Option::<ExtensionKind>::None,
        ),
{
}

} // verus!
