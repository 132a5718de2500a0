//! Accounting core of a collateralized lending ledger.
//!
//! The library tracks, per participant, a collateral balance
//! ([`CollateralAccount`]) and an outstanding-debt balance ([`LoanAccount`]),
//! and enforces a fixed 50% loan-to-value policy across four operations:
//! deposit, borrow, repay and liquidate.
//!
//! Moving actual value is the job of an external custody transfer service;
//! the ledger engine only decides how much must move and in which direction.
//! Each operation therefore comes in two halves:
//!
//! * an *instruction* function that evaluates the operation's eligibility
//!   against the current position state and, for an eligible request,
//!   produces the [`TransferInstruction`] the custody service must carry out;
//!   and
//! * a *settlement* function (named after the operation itself) that takes the
//!   custody service's [`TransferOutcome`] and commits the balance mutation
//!   exactly when the operation is eligible and the transfer completed,
//!   leaving the positions untouched on any failure.
//!
//! The contracts pin down each operation completely: which error comes back on
//! which input, that failed calls leave the records byte-identical, and that a
//! successful borrow always leaves the position pair healthy (debt at or below
//! half the collateral). The [`laws`] module proves that healthiness is an
//! invariant of every reachable state.

pub mod engine;
pub mod laws;
pub mod positions;
pub mod transfer;

pub use positions::CollateralAccount;
pub use positions::LoanAccount;
pub use positions::borrow_limit;
pub use positions::can_borrow;
pub use positions::can_deposit;
pub use positions::debt_after_repay;
pub use positions::healthy;
pub use positions::initialize_collateral_account;
pub use positions::initialize_liquidator_collateral_account;
pub use positions::initialize_loan_account;
pub use positions::liquidatable;
pub use transfer::Authorizer;
pub use transfer::Party;
pub use transfer::TransferInstruction;
pub use transfer::TransferOutcome;
pub use engine::LendingError;
pub use engine::borrow;
pub use engine::borrow_instruction;
pub use engine::deposit;
pub use engine::deposit_instruction;
pub use engine::liquidate;
pub use engine::liquidate_instruction;
pub use engine::repay;
pub use engine::repay_instruction;
