//! The two position records kept per participant, and the spec-level model of
//! the 50% loan-to-value policy that the engine enforces over them.

use vstd::prelude::*;

verus! {

/// A participant's collateral record: how much collateral value is currently
/// held in custody on the participant's behalf, in the smallest indivisible
/// unit of the collateral asset.
#[derive(Clone, Copy, Debug, PartialEq, Eq, Structural)]
pub struct CollateralAccount {
    pub amount: u64,
}

/// A participant's loan record: the outstanding principal the participant
/// must repay, in the same unit domain as the collateral (the two assets are
/// treated as 1:1 exchangeable for loan-to-value comparison).
#[derive(Clone, Copy, Debug, PartialEq, Eq, Structural)]
pub struct LoanAccount {
    pub borrowed: u64,
}

/// The largest debt a collateral balance can support under the fixed 50%
/// loan-to-value ceiling: half of the collateral, rounded down.
pub open spec fn borrow_limit(collateral_amount: u64) -> int {
    collateral_amount as int / 2
}

/// A position pair is healthy when the outstanding debt does not exceed half
/// of the collateral held.
pub open spec fn healthy(collateral_account: CollateralAccount, loan_account: LoanAccount) -> bool {
    loan_account.borrowed as int <= borrow_limit(collateral_account.amount)
}

/// A position pair is liquidatable once the debt has crossed the 50% line:
/// the exact complement of [`healthy`].
pub open spec fn liquidatable(
    collateral_account: CollateralAccount,
    loan_account: LoanAccount,
) -> bool {
    loan_account.borrowed as int > borrow_limit(collateral_account.amount)
}

/// Deposit is permitted exactly when the increased collateral balance is
/// still representable; the engine fails closed rather than wrapping.
pub open spec fn can_deposit(collateral_account: CollateralAccount, amount: u64) -> bool {
    collateral_account.amount + amount <= u64::MAX
}

/// Borrow is permitted exactly when the debt after the borrow still respects
/// the 50% loan-to-value ceiling, measured against the collateral held at the
/// instant of the call.
pub open spec fn can_borrow(
    collateral_account: CollateralAccount,
    loan_account: LoanAccount,
    borrow_amount: u64,
) -> bool {
    loan_account.borrowed + borrow_amount <= borrow_limit(collateral_account.amount)
}

/// The debt left after repaying `amount`: repaying more than is owed floors
/// the balance at zero, and the excess is neither returned nor tracked.
pub open spec fn debt_after_repay(borrowed: u64, amount: u64) -> u64 {
    if amount <= borrowed {
        (borrowed - amount) as u64
    } else {
        0u64
    }
}

/// Create a participant's collateral record, which starts empty.
pub fn initialize_collateral_account() -> (collateral_account: CollateralAccount)
    ensures
        collateral_account.amount == 0,
{
    CollateralAccount { amount: 0 }
}

/// Create a participant's loan record, which starts with no debt.
pub fn initialize_loan_account() -> (loan_account: LoanAccount)
    ensures
        loan_account.borrowed == 0,
{
    LoanAccount { borrowed: 0 }
}

/// Create a liquidator's collateral record, which starts empty like any
/// other participant's.
pub fn initialize_liquidator_collateral_account() -> (collateral_account: CollateralAccount)
    ensures
        collateral_account.amount == 0,
{
    CollateralAccount { amount: 0 }
}

} // verus!
