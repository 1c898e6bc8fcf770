//! The price split between the seller and the exchange's fee.
use vstd::prelude::*;
use crate::constants::BASIS_POINTS_DIVISOR;
use crate::errors::VoucherExchangeError;

verus! {

/// What the buyer's payment is split into.
#[derive(Clone, Copy, Debug, PartialEq, Eq, Structural)]
pub struct FeeSplit {
    pub fee: u64,
    pub seller_amount: u64,
}

/// The fee on `price` at `fee_basis_points`, rounded down.
pub open spec fn fee_of(price: int, fee_basis_points: int) -> int {
    price * fee_basis_points / 10000
}

/// The split of `price`: an error where the fee would exceed the price.
pub open spec fn fee_split(price: u64, fee_basis_points: u16) -> Result<FeeSplit, VoucherExchangeError> {
    let fee = fee_of(price as int, fee_basis_points as int);
    if fee > price {
        Err(VoucherExchangeError::ArithmeticError)
    } else {
        Ok(FeeSplit { fee: fee as u64, seller_amount: (price - fee) as u64 })
    }
}

/// Splits `price` into the exchange's fee and the seller's amount.
pub fn calculate_fee_split(price: u64, fee_basis_points: u16) -> (r: Result<FeeSplit, VoucherExchangeError>)
    ensures
        r == fee_split(price, fee_basis_points),
        r matches Ok(s) ==> s.fee + s.seller_amount == price,
{
    let p: u128 = price as u128;
    let b: u128 = fee_basis_points as u128;
    assert(p * b <= u64::MAX * 65535) by (nonlinear_arith)
        requires
            p <= u64::MAX,
            b <= 65535,
    ;
    let product: u128 = p * b;
    let fee: u128 = product / (BASIS_POINTS_DIVISOR as u128);
    if fee > price as u128 {
        return Err(VoucherExchangeError::ArithmeticError);
    }
    let fee = fee as u64;
    Ok(FeeSplit { fee, seller_amount: price - fee })
}

/// Within the allowed fee rates every price splits, the two parts add up to
/// the price, and the fee is the price times the rate, rounded down.
pub proof fn lemma_fee_split_exact(price: u64, fee_basis_points: u16)
    requires
        fee_basis_points <= 1000,
    ensures
        fee_split(price, fee_basis_points) matches Ok(s) && s.fee + s.seller_amount == price
            && s.fee == price * fee_basis_points / 10000,
{
    assert(price * fee_basis_points / 10000 <= price) by (nonlinear_arith)
        requires
            fee_basis_points <= 1000,
    ;
}

} // verus!
