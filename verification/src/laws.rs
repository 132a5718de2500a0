//! The state-machine view of the ledger, proved once and for all.
//!
//! A position pair is in one of two states: healthy (debt at or below half
//! the collateral) or liquidatable. Freshly initialized positions are zeroed
//! and hence healthy; deposit and repay can only keep a pair healthy or move
//! it toward health; borrow re-checks its eligibility and so always lands in
//! a healthy state; and liquidate zeroes the pair outright. Together with the
//! operation contracts in [`crate::engine`], these lemmas show that
//! healthiness holds in every reachable state, and in particular immediately
//! after every successful borrow.

use vstd::prelude::*;

use crate::positions::CollateralAccount;
use crate::positions::LoanAccount;
use crate::positions::can_borrow;
use crate::positions::healthy;

verus! {

/// A zeroed position pair is healthy. This is the state freshly initialized
/// positions start in, and the state liquidation resets a pair to.
pub proof fn lemma_zeroed_pair_healthy(
    collateral_account: CollateralAccount,
    loan_account: LoanAccount,
)
    requires
        collateral_account.amount == 0,
        loan_account.borrowed == 0,
    ensures
        healthy(collateral_account, loan_account),
{
}

/// Raising the collateral balance of a healthy pair — which is all a deposit
/// does to it — keeps the pair healthy: the borrow limit only grows.
pub proof fn lemma_deposit_preserves_health(
    pre: CollateralAccount,
    post: CollateralAccount,
    loan_account: LoanAccount,
)
    requires
        healthy(pre, loan_account),
        pre.amount <= post.amount,
    ensures
        healthy(post, loan_account),
{
}

/// Lowering the debt of a healthy pair — which is all a repayment does to it
/// — keeps the pair healthy.
pub proof fn lemma_repay_preserves_health(
    collateral_account: CollateralAccount,
    pre: LoanAccount,
    post: LoanAccount,
)
    requires
        healthy(collateral_account, pre),
        post.borrowed <= pre.borrowed,
    ensures
        healthy(collateral_account, post),
{
}

/// An eligible borrow lands the pair in a healthy state, whatever state it
/// started from: eligibility compares the debt after the borrow against the
/// limit, which is exactly what health after the mutation needs.
pub proof fn lemma_borrow_establishes_health(
    collateral_account: CollateralAccount,
    pre: LoanAccount,
    post: LoanAccount,
    borrow_amount: u64,
)
    requires
        can_borrow(collateral_account, pre, borrow_amount),
        post.borrowed == pre.borrowed + borrow_amount,
    ensures
        healthy(collateral_account, post),
{
}

} // verus!
