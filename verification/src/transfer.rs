//! The interface to the external custody transfer service: which accounts
//! value can move between, who must authorize a movement, the instruction the
//! engine hands to the service, and the outcome the service reports back.

use vstd::prelude::*;

verus! {

/// The accounts between which the custody service moves value.
#[derive(Clone, Copy, Debug, PartialEq, Eq, Structural)]
pub enum Party {
    /// The wallet of the participant whose positions the operation is on.
    ParticipantWallet,
    /// The custody pool holding deposited collateral and loan-asset liquidity
    /// on behalf of all participants collectively.
    Vault,
    /// The wallet of the third party performing a liquidation.
    LiquidatorWallet,
}

/// The capability that must sign off on a transfer: either the participant
/// themselves, or the program-controlled custody signer that has authority
/// over the vault. Which concrete key backs the custody signer is a
/// deployment decision outside the engine.
#[derive(Clone, Copy, Debug, PartialEq, Eq, Structural)]
pub enum Authorizer {
    Participant,
    CustodySigner,
}

/// One instruction to the custody transfer service: move `amount` units from
/// `source` to `destination` under `authorizer`'s authority. The service
/// either moves the full amount or moves nothing.
#[derive(Clone, Copy, Debug, PartialEq, Eq, Structural)]
pub struct TransferInstruction {
    pub source: Party,
    pub destination: Party,
    pub amount: u64,
    pub authorizer: Authorizer,
}

/// The custody transfer service's report on an instruction: the full amount
/// moved, or nothing moved at all. The service never moves value partially.
#[derive(Clone, Copy, Debug, PartialEq, Eq, Structural)]
pub enum TransferOutcome {
    Completed,
    Failed,
}

/// The transfer a deposit needs: the deposited amount goes from the
/// participant's wallet into the vault, authorized by the participant.
pub open spec fn deposit_transfer(amount: u64) -> TransferInstruction {
    TransferInstruction {
        source: Party::ParticipantWallet,
        destination: Party::Vault,
        amount,
        authorizer: Authorizer::Participant,
    }
}

/// The transfer a borrow needs: the borrowed amount goes from the vault to
/// the participant's wallet. Whether the participant or the custody signer
/// authorizes it depends on the deployment, so the authorizer is passed in.
pub open spec fn borrow_transfer(borrow_amount: u64, authorizer: Authorizer) -> TransferInstruction {
    TransferInstruction {
        source: Party::Vault,
        destination: Party::ParticipantWallet,
        amount: borrow_amount,
        authorizer,
    }
}

/// The transfer a repayment needs: the repaid amount goes from the
/// participant's wallet back into the vault, authorized by the participant.
pub open spec fn repay_transfer(amount: u64) -> TransferInstruction {
    TransferInstruction {
        source: Party::ParticipantWallet,
        destination: Party::Vault,
        amount,
        authorizer: Authorizer::Participant,
    }
}

/// The transfer a liquidation needs: the seized amount goes from the vault to
/// the liquidator's wallet, authorized by the custody signer (the vault is
/// program-controlled custody, not the liquidator's own funds).
pub open spec fn liquidate_transfer(amount: u64) -> TransferInstruction {
    TransferInstruction {
        source: Party::Vault,
        destination: Party::LiquidatorWallet,
        amount,
        authorizer: Authorizer::CustodySigner,
    }
}

} // verus!
