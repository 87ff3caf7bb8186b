use vstd::prelude::*;

use crate::errors::MyError;

verus! {

/// The largest permitted transfer-fee rate: 10000 basis points, one whole.
pub const MAX_FEE_BASIS_POINTS: u16 = 10000;

/// A fee configuration is acceptable exactly when the basis points stay
/// within `[0, 10000]`. The absolute fee cap is independent of the rate and
/// is never constrained.
pub open spec fn fee_config_ok(transfer_fee_basis_points: u16) -> bool {
    transfer_fee_basis_points <= MAX_FEE_BASIS_POINTS
}

/// Pure parameter check run before any side-effecting step, so that an
/// invalid request spends no funds and allocates nothing.
pub fn validate(transfer_fee_basis_points: u16, _maximum_fee: u64) -> (r: Result<(), MyError>)
    ensures
        r is Ok <==> fee_config_ok(transfer_fee_basis_points),
        r matches Err(e) ==> e == MyError::InvalidFeeConfig,
{
    if transfer_fee_basis_points > MAX_FEE_BASIS_POINTS {
        Err(MyError::InvalidFeeConfig)
    } else {
        Ok(())
    }
}

} // verus!
