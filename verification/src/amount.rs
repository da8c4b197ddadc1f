//! The rule on amounts that all operations share.

use vstd::prelude::*;

use crate::operation::{outcome, Error, ErrorView};

verus! {

/// Calls `num_traits::Signed::is_negative` on an `i64`, which the crate
/// implements as the comparison with zero.
#[verifier::external_body]
fn is_negative(amount: i64) -> (r: bool)
    ensures
        r == (amount < 0),
{
    num_traits::Signed::is_negative(&amount)
}

/// An amount is valid where it is not negative; zero is an amount.
pub open spec fn validate_spec(amount: i64) -> Result<i64, ErrorView> {
    if amount < 0 {
        Err(ErrorView::InvalidAmount(amount))
    } else {
        Ok(amount)
    }
}

/// Hands a valid amount back, and fails with `InvalidAmount` and the amount
/// where it is negative.
pub fn validate(amount: i64) -> (r: Result<i64, Error>)
    ensures
        outcome(r) == validate_spec(amount),
{
    if is_negative(amount) {
        Err(Error::InvalidAmount(amount))
    } else {
        Ok(amount)
    }
}

} // verus!
