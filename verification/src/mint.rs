use vstd::prelude::*;

verus! {

/// The two mutually-exclusive economic extensions a mint may carry.
#[derive(Clone, Copy, Debug, PartialEq, Eq, Structural)]
pub enum ExtensionKind {
    /// A withheld tax on transfers, bounded by basis points and an absolute cap.
    TransferFee,
    /// A marker forbidding transfers while permitting mint and burn.
    NonTransferable,
}

/// A configured extension as recorded on a mint. Immutable once attached.
#[derive(Clone, Copy, Debug, PartialEq, Eq)]
pub enum ExtensionConfig {
    /// Transfer-fee ("taxed") configuration.
    TransferFee {
        /// Key allowed to change the fee parameters later.
        transfer_fee_config_authority: u64,
        /// Key allowed to withdraw withheld fees; possibly distinct from the
        /// config authority, so treasury management can be delegated without
        /// granting fee-parameter control.
        withdraw_withheld_authority: u64,
        /// Fee rate in basis points, within `[0, 10000]`.
        transfer_fee_basis_points: u16,
        /// Absolute cap on the fee withheld from one transfer.
        maximum_fee: u64,
    },
    /// Non-transferable ("soulbound") marker.
    NonTransferable,
}

impl ExtensionConfig {
    /// The tag of this configuration.
    pub open spec fn kind(self) -> ExtensionKind {
        match self {
            ExtensionConfig::TransferFee { .. } => ExtensionKind::TransferFee,
            ExtensionConfig::NonTransferable => ExtensionKind::NonTransferable,
        }
    }
}

/// The finalized mint record handed back to the caller: the address plus
/// everything the protocol recorded for it.
#[derive(Clone, Copy, Debug, PartialEq, Eq)]
pub struct MintAccount {
    /// Ledger address of the mint account.
    pub address: u64,
    /// Exact byte length of the allocated backing account.
    pub byte_length: usize,
    /// Number of base-10 digits to the right of the decimal point.
    pub decimals: u8,
    /// Key that controls future minting.
    pub mint_authority: u64,
    /// Key that controls freeze and thaw; its absence is an explicit choice.
    pub freeze_authority: Option<u64>,
    /// The extension attached before finalization, if any.
    pub extension: Option<ExtensionConfig>,
}

impl MintAccount {
    /// Tokens of this mint may move between holders unless the mint carries
    /// the non-transferable marker.
    pub open spec fn spec_allows_transfers(self) -> bool {
        !(self.extension matches Some(ExtensionConfig::NonTransferable))
    }

    /// Whether a transfer of tokens of this mint can ever succeed; false
    /// exactly for soulbound mints.
    pub fn allows_transfers(&self) -> (r: bool)
        ensures
            r == self.spec_allows_transfers(),
    {
        match self.extension {
            Some(ExtensionConfig::NonTransferable) => false,
            _ => true,
        }
    }
}

} // verus!
