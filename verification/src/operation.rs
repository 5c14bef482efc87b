//! The stake-account operation that an instruction asks for.

use vstd::prelude::*;

use crate::model::{
    Authorized, Clock, InstructionError, LockupArgs, Lockup, Rent, StakeAuthorize, StakeConfig,
    StakeHistoryEntry,
};
use crate::pubkey::Pubkey;

verus! {

/// An operation on the stake account (the first instruction account), with what
/// it is to be given. Accounts are named by their index among the keyed accounts.
#[derive(Clone, Debug, PartialEq, Eq)]
pub enum StakeOperation {
    Initialize { authorized: Authorized, lockup: Lockup, rent: Rent },
    Authorize {
        signers: Vec<Pubkey>,
        new_authority: Pubkey,
        stake_authorize: StakeAuthorize,
        require_custodian: bool,
        clock: Clock,
        custodian: Option<Pubkey>,
    },
    AuthorizeWithSeed {
        authority_base: usize,
        authority_seed: String,
        authority_owner: Pubkey,
        new_authority: Pubkey,
        stake_authorize: StakeAuthorize,
        require_custodian: bool,
        clock: Clock,
        custodian: Option<Pubkey>,
    },
    Delegate {
        vote_account: usize,
        clock: Clock,
        stake_history: Vec<StakeHistoryEntry>,
        config: StakeConfig,
        signers: Vec<Pubkey>,
    },
    Split { lamports: u64, split_to: usize, signers: Vec<Pubkey> },
    Merge {
        source: usize,
        clock: Clock,
        stake_history: Vec<StakeHistoryEntry>,
        signers: Vec<Pubkey>,
    },
    Withdraw {
        lamports: u64,
        recipient: usize,
        clock: Clock,
        stake_history: Vec<StakeHistoryEntry>,
        withdraw_authority: usize,
        custodian: Option<usize>,
    },
    Deactivate { clock: Clock, signers: Vec<Pubkey> },
    SetLockup { lockup: LockupArgs, signers: Vec<Pubkey>, clock: Clock },
}

/// A `StakeOperation` with its vectors and strings taken as sequences.
pub enum OperationView {
    Initialize { authorized: Authorized, lockup: Lockup, rent: Rent },
    Authorize {
        signers: Seq<Pubkey>,
        new_authority: Pubkey,
        stake_authorize: StakeAuthorize,
        require_custodian: bool,
        clock: Clock,
        custodian: Option<Pubkey>,
    },
    AuthorizeWithSeed {
        authority_base: usize,
        authority_seed: Seq<char>,
        authority_owner: Pubkey,
        new_authority: Pubkey,
        stake_authorize: StakeAuthorize,
        require_custodian: bool,
        clock: Clock,
        custodian: Option<Pubkey>,
    },
    Delegate {
        vote_account: usize,
        clock: Clock,
        stake_history: Seq<StakeHistoryEntry>,
        config: StakeConfig,
        signers: Seq<Pubkey>,
    },
    Split { lamports: u64, split_to: usize, signers: Seq<Pubkey> },
    Merge {
        source: usize,
        clock: Clock,
        stake_history: Seq<StakeHistoryEntry>,
        signers: Seq<Pubkey>,
    },
    Withdraw {
        lamports: u64,
        recipient: usize,
        clock: Clock,
        stake_history: Seq<StakeHistoryEntry>,
        withdraw_authority: usize,
        custodian: Option<usize>,
    },
    Deactivate { clock: Clock, signers: Seq<Pubkey> },
    SetLockup { lockup: LockupArgs, signers: Seq<Pubkey>, clock: Clock },
}

impl View for StakeOperation {
    type V = OperationView;

    open spec fn view(&self) -> OperationView {
        match *self {
            StakeOperation::Initialize { authorized, lockup, rent } => OperationView::Initialize {
                authorized,
                lockup,
                rent,
            },
            StakeOperation::Authorize {
                signers,
                new_authority,
                stake_authorize,
                require_custodian,
                clock,
                custodian,
            } => OperationView::Authorize {
                signers: signers@,
                new_authority,
                stake_authorize,
                require_custodian,
                clock,
                custodian,
            },
            StakeOperation::AuthorizeWithSeed {
                authority_base,
                authority_seed,
                authority_owner,
                new_authority,
                stake_authorize,
                require_custodian,
                clock,
                custodian,
            } => OperationView::AuthorizeWithSeed {
                authority_base,
                authority_seed: authority_seed@,
                authority_owner,
                new_authority,
                stake_authorize,
                require_custodian,
                clock,
                custodian,
            },
            StakeOperation::Delegate {
                vote_account,
                clock,
                stake_history,
                config,
                signers,
            } => OperationView::Delegate {
                vote_account,
                clock,
                stake_history: stake_history@,
                config,
                signers: signers@,
            },
            StakeOperation::Split { lamports, split_to, signers } => OperationView::Split {
                lamports,
                split_to,
                signers: signers@,
            },
            StakeOperation::Merge { source, clock, stake_history, signers } => OperationView::Merge {
                source,
                clock,
                stake_history: stake_history@,
                signers: signers@,
            },
            StakeOperation::Withdraw {
                lamports,
                recipient,
                clock,
                stake_history,
                withdraw_authority,
                custodian,
            } => OperationView::Withdraw {
                lamports,
                recipient,
                clock,
                stake_history: stake_history@,
                withdraw_authority,
                custodian,
            },
            StakeOperation::Deactivate { clock, signers } => OperationView::Deactivate {
                clock,
                signers: signers@,
            },
            StakeOperation::SetLockup { lockup, signers, clock } => OperationView::SetLockup {
                lockup,
                signers: signers@,
                clock,
            },
        }
    }
}

/// A dispatch result with the operation taken by its view.
pub open spec fn outcome_view(r: Result<StakeOperation, InstructionError>) -> Result<
    OperationView,
    InstructionError,
> {
    match r {
        Ok(operation) => Ok(operation@),
        Err(e) => Err(e),
    }
}

} // verus!
