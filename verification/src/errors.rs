use vstd::prelude::*;

verus! {

/// The fixed failure taxonomy of the provisioning protocol. Every failure
/// surfaces immediately to the caller; nothing is recovered locally.
#[derive(Clone, Copy, Debug, PartialEq, Eq, Structural)]
pub enum MyError {
    /// The requested transfer-fee basis points lie outside `[0, 10000]`.
    InvalidFeeConfig,
    /// The target address already holds an account.
    AccountAlreadyInUse,
    /// The payer cannot cover the rent-exempt minimum for the new account.
    InsufficientFunds,
    /// The finalize primitive rejected the mint.
    MintFailed,
    /// Transfer-fee configuration was invoked out of order or rejected.
    TransferFeeInitFailed,
    /// Non-transferable configuration was invoked out of order or rejected.
    NonTransferableInitFailed,
}

} // verus!
