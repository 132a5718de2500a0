//! The ledger engine: the four operations of the lending primitive.
//!
//! Every operation follows the same protocol. The caller first asks for the
//! operation's [`TransferInstruction`] (`*_instruction`), which evaluates the
//! operation's eligibility against the current position state; an ineligible
//! request means no transfer may be attempted and no state changes. The
//! caller then has the custody service carry the instruction out and hands
//! the resulting [`TransferOutcome`] to the settlement function (named after
//! the operation), which commits the balance mutation exactly when the
//! operation is eligible and the transfer completed. On any failure the
//! position records are left byte-identical to their pre-call state: the
//! settlement functions re-evaluate eligibility rather than take it on
//! faith.

use vstd::prelude::*;

use crate::positions::CollateralAccount;
use crate::positions::LoanAccount;
use crate::positions::can_borrow;
use crate::positions::can_deposit;
use crate::positions::debt_after_repay;
use crate::positions::healthy;
use crate::positions::liquidatable;
use crate::transfer::Authorizer;
use crate::transfer::Party;
use crate::transfer::TransferInstruction;
use crate::transfer::TransferOutcome;
use crate::transfer::borrow_transfer;
use crate::transfer::deposit_transfer;
use crate::transfer::liquidate_transfer;
use crate::transfer::repay_transfer;

verus! {

/// Everything that can go wrong in a ledger operation. None of these corrupt
/// state: a failed operation leaves the position records exactly as they
/// were.
#[derive(Clone, Copy, Debug, PartialEq, Eq, Structural)]
pub enum LendingError {
    /// Borrow was refused: the requested debt would exceed half of the
    /// collateral currently held.
    InsufficientCollateral,
    /// Liquidate was refused: the position is still healthy.
    NotLiquidatable,
    /// The authorization context rejected the caller. The engine itself never
    /// produces this; the calling layer maps its authorization check onto it.
    Unauthorized,
    /// The external custody transfer did not complete; no value moved.
    TransferFailed,
    /// An addition would exceed the representable range; the engine fails
    /// closed rather than wrapping.
    ArithmeticOverflow,
}

/// Evaluate deposit's precondition and produce the transfer the operation
/// needs. A deposit has no eligibility condition, but it fails closed with
/// `ArithmeticOverflow` when the increased balance would not be
/// representable; no transfer may be attempted in that case. A zero amount is
/// accepted and simply moves nothing.
pub fn deposit_instruction(collateral_account: &CollateralAccount, amount: u64) -> (r: Result<
    TransferInstruction,
    LendingError,
>)
    ensures
        can_deposit(*collateral_account, amount) ==> r == Ok::<_, LendingError>(
            deposit_transfer(amount),
        ),
        !can_deposit(*collateral_account, amount) ==> r == Err::<TransferInstruction, _>(
            LendingError::ArithmeticOverflow,
        ),
{
    match collateral_account.amount.checked_add(amount) {
        Some(_) => Ok(
            TransferInstruction {
                source: Party::ParticipantWallet,
                destination: Party::Vault,
                amount,
                authorizer: Authorizer::Participant,
            },
        ),
        None => Err(LendingError::ArithmeticOverflow),
    }
}

/// Settle a deposit, given the custody service's outcome for the transfer
/// that [`deposit_instruction`] produced: on a completed transfer of `amount`
/// into the vault, credit it to the participant's collateral. The collateral
/// balance never decreases, and on any failure it is left unchanged.
pub fn deposit(
    collateral_account: &mut CollateralAccount,
    amount: u64,
    transfer: TransferOutcome,
) -> (r: Result<(), LendingError>)
    ensures
        r is Ok <==> can_deposit(*old(collateral_account), amount) && transfer
            is Completed,
        r is Ok ==> final(collateral_account).amount == old(collateral_account).amount + amount,
        r is Err ==> *final(collateral_account) == *old(collateral_account),
        !can_deposit(*old(collateral_account), amount) ==> r == Err::<(), _>(
            LendingError::ArithmeticOverflow,
        ),
        can_deposit(*old(collateral_account), amount) && transfer is Failed ==> r == Err::<(), _>(
            LendingError::TransferFailed,
        ),
        old(collateral_account).amount <= final(collateral_account).amount,
{
    match collateral_account.amount.checked_add(amount) {
        None => Err(LendingError::ArithmeticOverflow),
        Some(increased) => match transfer {
            TransferOutcome::Failed => Err(LendingError::TransferFailed),
            TransferOutcome::Completed => {
                collateral_account.amount = increased;
                Ok(())
            },
        },
    }
}

/// Evaluate borrow's loan-to-value ceiling and produce the transfer the
/// operation needs. Eligibility compares the debt *after* the borrow against
/// half of the collateral held at the instant of the call; on failure the
/// operation aborts with `InsufficientCollateral` and no transfer may be
/// attempted. Which authorizer signs the vault-to-wallet movement is a
/// deployment decision, so the caller supplies it.
pub fn borrow_instruction(
    collateral_account: &CollateralAccount,
    loan_account: &LoanAccount,
    borrow_amount: u64,
    authorizer: Authorizer,
) -> (r: Result<TransferInstruction, LendingError>)
    ensures
        can_borrow(*collateral_account, *loan_account, borrow_amount) ==> r == Ok::<
            _,
            LendingError,
        >(borrow_transfer(borrow_amount, authorizer)),
        !can_borrow(*collateral_account, *loan_account, borrow_amount) ==> r == Err::<
            TransferInstruction,
            _,
        >(LendingError::InsufficientCollateral),
{
    let limit = collateral_account.amount / 2;
    if borrow_amount <= limit && loan_account.borrowed <= limit - borrow_amount {
        Ok(
            TransferInstruction {
                source: Party::Vault,
                destination: Party::ParticipantWallet,
                amount: borrow_amount,
                authorizer,
            },
        )
    } else {
        Err(LendingError::InsufficientCollateral)
    }
}

/// Settle a borrow, given the custody service's outcome for the transfer that
/// [`borrow_instruction`] produced: on a completed transfer of
/// `borrow_amount` out of the vault, add it to the participant's debt.
/// Eligibility is re-evaluated here, not taken on faith, so a successful
/// borrow always leaves the position pair healthy; on any failure the loan
/// record is left unchanged.
pub fn borrow(
    collateral_account: &CollateralAccount,
    loan_account: &mut LoanAccount,
    borrow_amount: u64,
    transfer: TransferOutcome,
) -> (r: Result<(), LendingError>)
    ensures
        r is Ok <==> can_borrow(*collateral_account, *old(loan_account), borrow_amount) && transfer
            is Completed,
        r is Ok ==> final(loan_account).borrowed == old(loan_account).borrowed + borrow_amount,
        r is Ok ==> healthy(*collateral_account, *final(loan_account)),
        r is Err ==> *final(loan_account) == *old(loan_account),
        !can_borrow(*collateral_account, *old(loan_account), borrow_amount) ==> r == Err::<(), _>(
            LendingError::InsufficientCollateral,
        ),
        can_borrow(*collateral_account, *old(loan_account), borrow_amount) && transfer
            is Failed ==> r == Err::<(), _>(LendingError::TransferFailed),
{
    let limit = collateral_account.amount / 2;
    if !(borrow_amount <= limit && loan_account.borrowed <= limit - borrow_amount) {
        return Err(LendingError::InsufficientCollateral);
    }
    match transfer {
        TransferOutcome::Failed => Err(LendingError::TransferFailed),
        TransferOutcome::Completed => {
            loan_account.borrowed = loan_account.borrowed + borrow_amount;
            Ok(())
        },
    }
}

/// Produce the transfer a repayment needs. Repay has no eligibility condition and
/// its arithmetic saturates, so there is nothing to evaluate: the repaid
/// amount always moves from the participant's wallet into the vault. A zero
/// amount is accepted and simply moves nothing.
pub fn repay_instruction(amount: u64) -> (r: TransferInstruction)
    ensures
        r == repay_transfer(amount),
{
    TransferInstruction {
        source: Party::ParticipantWallet,
        destination: Party::Vault,
        amount,
        authorizer: Authorizer::Participant,
    }
}

/// Settle a repayment, given the custody service's outcome for the transfer
/// that [`repay_instruction`] produced: on a completed transfer of `amount`
/// into the vault, reduce the participant's debt by it, flooring at zero.
/// Repaying more than is owed clears the debt exactly; the excess is neither
/// returned nor tracked. The debt never increases, and on a failed transfer
/// the loan record is left unchanged.
pub fn repay(loan_account: &mut LoanAccount, amount: u64, transfer: TransferOutcome) -> (r: Result<
    (),
    LendingError,
>)
    ensures
        r is Ok <==> transfer is Completed,
        r is Ok ==> final(loan_account).borrowed == debt_after_repay(
            old(loan_account).borrowed,
            amount,
        ),
        r is Ok && amount >= old(loan_account).borrowed ==> final(loan_account).borrowed == 0,
        r is Err ==> r == Err::<(), _>(LendingError::TransferFailed) && *final(loan_account)
            == *old(loan_account),
        final(loan_account).borrowed <= old(loan_account).borrowed,
{
    match transfer {
        TransferOutcome::Failed => Err(LendingError::TransferFailed),
        TransferOutcome::Completed => {
            loan_account.borrowed = loan_account.borrowed.saturating_sub(amount);
            Ok(())
        },
    }
}

/// Evaluate liquidate's eligibility and produce the transfer the
/// operation needs. Liquidation is permitted only once the position has
/// actually become under-collateralized relative to the 50% loan-to-value
/// line; a healthy position aborts with `NotLiquidatable` and no transfer may
/// be attempted. The seized `amount` goes from the vault to the liquidator.
pub fn liquidate_instruction(
    collateral_account: &CollateralAccount,
    loan_account: &LoanAccount,
    amount: u64,
) -> (r: Result<TransferInstruction, LendingError>)
    ensures
        liquidatable(*collateral_account, *loan_account) ==> r == Ok::<_, LendingError>(
            liquidate_transfer(amount),
        ),
        !liquidatable(*collateral_account, *loan_account) ==> r == Err::<TransferInstruction, _>(
            LendingError::NotLiquidatable,
        ),
{
    if loan_account.borrowed > collateral_account.amount / 2 {
        Ok(
            TransferInstruction {
                source: Party::Vault,
                destination: Party::LiquidatorWallet,
                amount,
                authorizer: Authorizer::CustodySigner,
            },
        )
    } else {
        Err(LendingError::NotLiquidatable)
    }
}

/// Settle a liquidation, given the custody service's outcome for the transfer
/// that [`liquidate_instruction`] produced: on a completed transfer to the
/// liquidator, seize the position in full by resetting both the collateral
/// and the debt to exactly zero, whether or not the seized amount covered the
/// debt. Eligibility is re-evaluated here, not taken on faith; on any failure
/// both records are left unchanged.
pub fn liquidate(
    collateral_account: &mut CollateralAccount,
    loan_account: &mut LoanAccount,
    transfer: TransferOutcome,
) -> (r: Result<(), LendingError>)
    ensures
        r is Ok <==> liquidatable(*old(collateral_account), *old(loan_account)) && transfer
            is Completed,
        r is Ok ==> final(collateral_account).amount == 0 && final(loan_account).borrowed == 0,
        r is Ok ==> healthy(*final(collateral_account), *final(loan_account)),
        r is Err ==> *final(collateral_account) == *old(collateral_account) && *final(loan_account)
            == *old(loan_account),
        !liquidatable(*old(collateral_account), *old(loan_account)) ==> r == Err::<(), _>(
            LendingError::NotLiquidatable,
        ),
        liquidatable(*old(collateral_account), *old(loan_account)) && transfer is Failed ==> r
            == Err::<(), _>(LendingError::TransferFailed),
{
    if !(loan_account.borrowed > collateral_account.amount / 2) {
        return Err(LendingError::NotLiquidatable);
    }
    match transfer {
        TransferOutcome::Failed => Err(LendingError::TransferFailed),
        TransferOutcome::Completed => {
            collateral_account.amount = 0;
            loan_account.borrowed = 0;
            Ok(())
        },
    }
}

} // verus!
