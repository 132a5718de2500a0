use lending_protocol::Authorizer;
use lending_protocol::CollateralAccount;
use lending_protocol::LendingError;
use lending_protocol::LoanAccount;
use lending_protocol::Party;
use lending_protocol::TransferOutcome;
use lending_protocol::borrow;
use lending_protocol::borrow_instruction;
use lending_protocol::deposit;
use lending_protocol::deposit_instruction;
use lending_protocol::initialize_collateral_account;
use lending_protocol::initialize_liquidator_collateral_account;
use lending_protocol::initialize_loan_account;
use lending_protocol::liquidate;
use lending_protocol::liquidate_instruction;
use lending_protocol::repay;
use lending_protocol::repay_instruction;

#[test]
fn initialized_positions_are_zeroed() {
    assert_eq!(initialize_collateral_account().amount, 0);
    assert_eq!(initialize_loan_account().borrowed, 0);
    assert_eq!(initialize_liquidator_collateral_account().amount, 0);
}

#[test]
fn deposit_credits_collateral() {
    let mut collateral = initialize_collateral_account();
    let r = deposit(&mut collateral, 100, TransferOutcome::Completed);
    assert_eq!(r, Ok(()));
    assert_eq!(collateral.amount, 100);
}

#[test]
fn deposit_zero_is_accepted_and_moves_nothing() {
    let mut collateral = CollateralAccount { amount: 75 };
    let r = deposit(&mut collateral, 0, TransferOutcome::Completed);
    assert_eq!(r, Ok(()));
    assert_eq!(collateral.amount, 75);
}

#[test]
fn deposit_overflow_fails_closed() {
    let mut collateral = CollateralAccount { amount: u64::MAX - 9 };
    let r = deposit(&mut collateral, 10, TransferOutcome::Completed);
    assert_eq!(r, Err(LendingError::ArithmeticOverflow));
    assert_eq!(collateral.amount, u64::MAX - 9);
}

#[test]
fn deposit_up_to_the_maximum_is_accepted() {
    let mut collateral = CollateralAccount { amount: u64::MAX - 10 };
    let r = deposit(&mut collateral, 10, TransferOutcome::Completed);
    assert_eq!(r, Ok(()));
    assert_eq!(collateral.amount, u64::MAX);
}

#[test]
fn deposit_transfer_failure_leaves_state() {
    let mut collateral = CollateralAccount { amount: 40 };
    let r = deposit(&mut collateral, 100, TransferOutcome::Failed);
    assert_eq!(r, Err(LendingError::TransferFailed));
    assert_eq!(collateral.amount, 40);
}

#[test]
fn borrow_at_the_limit_succeeds() {
    let collateral = CollateralAccount { amount: 100 };
    let mut loan = initialize_loan_account();
    let r = borrow(&collateral, &mut loan, 50, TransferOutcome::Completed);
    assert_eq!(r, Ok(()));
    assert_eq!(loan.borrowed, 50);
}

#[test]
fn borrow_over_the_limit_fails() {
    let collateral = CollateralAccount { amount: 100 };
    let mut loan = initialize_loan_account();
    let r = borrow(&collateral, &mut loan, 51, TransferOutcome::Completed);
    assert_eq!(r, Err(LendingError::InsufficientCollateral));
    assert_eq!(loan.borrowed, 0);
}

#[test]
fn borrow_limit_rounds_down() {
    let collateral = CollateralAccount { amount: 101 };
    let mut loan = initialize_loan_account();
    let r = borrow(&collateral, &mut loan, 51, TransferOutcome::Completed);
    assert_eq!(r, Err(LendingError::InsufficientCollateral));
    let r2 = borrow(&collateral, &mut loan, 50, TransferOutcome::Completed);
    assert_eq!(r2, Ok(()));
    assert_eq!(loan.borrowed, 50);
}

#[test]
fn borrow_counts_existing_debt() {
    let collateral = CollateralAccount { amount: 100 };
    let mut loan = LoanAccount { borrowed: 30 };
    let r = borrow(&collateral, &mut loan, 21, TransferOutcome::Completed);
    assert_eq!(r, Err(LendingError::InsufficientCollateral));
    assert_eq!(loan.borrowed, 30);
}

#[test]
fn borrow_transfer_failure_leaves_state() {
    let collateral = CollateralAccount { amount: 100 };
    let mut loan = LoanAccount { borrowed: 10 };
    let r = borrow(&collateral, &mut loan, 20, TransferOutcome::Failed);
    assert_eq!(r, Err(LendingError::TransferFailed));
    assert_eq!(loan.borrowed, 10);
}

#[test]
fn repay_reduces_debt() {
    let mut loan = LoanAccount { borrowed: 50 };
    let r = repay(&mut loan, 20, TransferOutcome::Completed);
    assert_eq!(r, Ok(()));
    assert_eq!(loan.borrowed, 30);
}

#[test]
fn repay_more_than_owed_floors_at_zero() {
    let mut loan = LoanAccount { borrowed: 30 };
    let r = repay(&mut loan, 50, TransferOutcome::Completed);
    assert_eq!(r, Ok(()));
    assert_eq!(loan.borrowed, 0);
}

#[test]
fn repay_transfer_failure_leaves_state() {
    let mut loan = LoanAccount { borrowed: 30 };
    let r = repay(&mut loan, 20, TransferOutcome::Failed);
    assert_eq!(r, Err(LendingError::TransferFailed));
    assert_eq!(loan.borrowed, 30);
}

#[test]
fn liquidate_healthy_position_is_rejected() {
    let mut collateral = CollateralAccount { amount: 100 };
    let mut loan = LoanAccount { borrowed: 40 };
    let r = liquidate(&mut collateral, &mut loan, TransferOutcome::Completed);
    assert_eq!(r, Err(LendingError::NotLiquidatable));
    assert_eq!(collateral.amount, 100);
    assert_eq!(loan.borrowed, 40);
}

#[test]
fn liquidate_undercollateralized_position_seizes_everything() {
    let mut collateral = CollateralAccount { amount: 100 };
    let mut loan = LoanAccount { borrowed: 60 };
    let r = liquidate(&mut collateral, &mut loan, TransferOutcome::Completed);
    assert_eq!(r, Ok(()));
    assert_eq!(collateral.amount, 0);
    assert_eq!(loan.borrowed, 0);
}

#[test]
fn liquidate_at_exactly_half_is_rejected() {
    let mut collateral = CollateralAccount { amount: 100 };
    let mut loan = LoanAccount { borrowed: 50 };
    let r = liquidate(&mut collateral, &mut loan, TransferOutcome::Completed);
    assert_eq!(r, Err(LendingError::NotLiquidatable));
    assert_eq!(collateral.amount, 100);
    assert_eq!(loan.borrowed, 50);
}

#[test]
fn liquidate_transfer_failure_leaves_state() {
    let mut collateral = CollateralAccount { amount: 100 };
    let mut loan = LoanAccount { borrowed: 60 };
    let r = liquidate(&mut collateral, &mut loan, TransferOutcome::Failed);
    assert_eq!(r, Err(LendingError::TransferFailed));
    assert_eq!(collateral.amount, 100);
    assert_eq!(loan.borrowed, 60);
}

#[test]
fn deposit_borrow_repay_sequence() {
    let mut collateral = initialize_collateral_account();
    let mut loan = initialize_loan_account();
    assert_eq!(deposit(&mut collateral, 100, TransferOutcome::Completed), Ok(()));
    assert_eq!(borrow(&collateral, &mut loan, 50, TransferOutcome::Completed), Ok(()));
    assert_eq!(repay(&mut loan, 20, TransferOutcome::Completed), Ok(()));
    assert_eq!(collateral.amount, 100);
    assert_eq!(loan.borrowed, 30);
    assert_eq!(borrow(&collateral, &mut loan, 20, TransferOutcome::Completed), Ok(()));
    assert_eq!(loan.borrowed, 50);
    let r = borrow(&collateral, &mut loan, 1, TransferOutcome::Completed);
    assert_eq!(r, Err(LendingError::InsufficientCollateral));
    assert_eq!(loan.borrowed, 50);
}

#[test]
fn deposit_instruction_moves_wallet_to_vault() {
    let collateral = CollateralAccount { amount: 5 };
    let instruction = deposit_instruction(&collateral, 100).unwrap();
    assert_eq!(instruction.source, Party::ParticipantWallet);
    assert_eq!(instruction.destination, Party::Vault);
    assert_eq!(instruction.amount, 100);
    assert_eq!(instruction.authorizer, Authorizer::Participant);
}

#[test]
fn deposit_instruction_rejects_overflow() {
    let collateral = CollateralAccount { amount: u64::MAX };
    let r = deposit_instruction(&collateral, 1);
    assert_eq!(r, Err(LendingError::ArithmeticOverflow));
}

#[test]
fn borrow_instruction_moves_vault_to_wallet() {
    let collateral = CollateralAccount { amount: 100 };
    let loan = LoanAccount { borrowed: 10 };
    let instruction = borrow_instruction(&collateral, &loan, 40, Authorizer::CustodySigner).unwrap();
    assert_eq!(instruction.source, Party::Vault);
    assert_eq!(instruction.destination, Party::ParticipantWallet);
    assert_eq!(instruction.amount, 40);
    assert_eq!(instruction.authorizer, Authorizer::CustodySigner);
}

#[test]
fn borrow_instruction_rejects_insufficient_collateral() {
    let collateral = CollateralAccount { amount: 100 };
    let loan = LoanAccount { borrowed: 10 };
    let r = borrow_instruction(&collateral, &loan, 41, Authorizer::Participant);
    assert_eq!(r, Err(LendingError::InsufficientCollateral));
}

#[test]
fn repay_instruction_moves_wallet_to_vault() {
    let instruction = repay_instruction(25);
    assert_eq!(instruction.source, Party::ParticipantWallet);
    assert_eq!(instruction.destination, Party::Vault);
    assert_eq!(instruction.amount, 25);
    assert_eq!(instruction.authorizer, Authorizer::Participant);
}

#[test]
fn liquidate_instruction_pays_the_liquidator_under_custody_authority() {
    let collateral = CollateralAccount { amount: 100 };
    let loan = LoanAccount { borrowed: 60 };
    let instruction = liquidate_instruction(&collateral, &loan, 100).unwrap();
    assert_eq!(instruction.source, Party::Vault);
    assert_eq!(instruction.destination, Party::LiquidatorWallet);
    assert_eq!(instruction.amount, 100);
    assert_eq!(instruction.authorizer, Authorizer::CustodySigner);
}

#[test]
fn liquidate_instruction_rejects_healthy_position() {
    let collateral = CollateralAccount { amount: 100 };
    let loan = LoanAccount { borrowed: 50 };
    let r = liquidate_instruction(&collateral, &loan, 100);
    assert_eq!(r, Err(LendingError::NotLiquidatable));
}

#[test]
fn repay_can_cure_a_liquidatable_position() {
    let mut collateral = CollateralAccount { amount: 100 };
    let mut loan = LoanAccount { borrowed: 60 };
    assert_eq!(repay(&mut loan, 10, TransferOutcome::Completed), Ok(()));
    assert_eq!(loan.borrowed, 50);
    let r = liquidate(&mut collateral, &mut loan, TransferOutcome::Completed);
    assert_eq!(r, Err(LendingError::NotLiquidatable));
}
