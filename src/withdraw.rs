use vstd::prelude::*;

use crate::primitives::UsdCents;

verus! {

#[derive(Debug, Clone, Copy, PartialEq, Eq, Structural)]
pub enum WithdrawError {
    /// The requested amount, and the settled balance that cannot cover it.
    InsufficientBalance(UsdCents, UsdCents),
}

/// A withdrawal of `amount` may start only when the customer's settled
/// balance covers it.
pub fn check_withdrawal_balance(amount: UsdCents, settled_balance: UsdCents) -> (r: Result<
    (),
    WithdrawError,
>)
    ensures
        settled_balance >= amount ==> r is Ok,
        settled_balance < amount ==> r == Err::<(), _>(
            WithdrawError::InsufficientBalance(amount, settled_balance),
        ),
{
    if settled_balance < amount {
        Err(WithdrawError::InsufficientBalance(amount, settled_balance))
    } else {
        Ok(())
    }
}

} // verus!
