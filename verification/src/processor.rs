//! The dispatch of a stake instruction: which checks it passes through, in
//! which order, and which operation it yields.

use vstd::prelude::*;

use crate::config::{stake_config_from_data, stake_config_in};
use crate::decode::{decode_instruction, decoded_instruction};
use crate::context::{
    cached_clock, check_number_of_instruction_accounts, clock_from_account, collect_signers,
    feature_active, get_cached_clock, get_clock_with_account_check, get_rent_with_account_check,
    get_stake_history_with_account_check, instruction_account, instruction_account_index,
    instruction_accounts, is_feature_active, number_of_instruction_accounts, rent_from_account,
    signer_keys, stake_history_from_account,
};
use crate::ids::{
    checked_instructions_feature_address, checked_instructions_feature_id,
    require_custodian_feature_address, require_custodian_feature_id, stake_config_address,
    stake_config_id, stake_program_address, stake_program_id,
};
use crate::instruction_account_indices as accounts;
use crate::model::{
    Authorized, AuthorizeCheckedWithSeedArgs, AuthorizeWithSeedArgs, Clock, InstructionError,
    InvocationContext, Lockup, LockupArgs, LockupCheckedArgs, StakeAuthorize, StakeInstruction,
};
use crate::operation::{outcome_view, OperationView, StakeOperation};
use crate::pubkey::Pubkey;

verus! {

/// The addresses of the instruction's accounts that signed.
pub open spec fn signers_of(ctx: InvocationContext, first: usize) -> Seq<Pubkey> {
    signer_keys(instruction_accounts(ctx, first as int))
}

/// Whether the instruction has at least `n` accounts.
pub open spec fn has_accounts(ctx: InvocationContext, first: usize, n: nat) -> bool {
    number_of_instruction_accounts(ctx, first as int) >= n
}

/// The keyed-account index of the instruction account at `position`.
pub open spec fn keyed_index(first: usize, position: nat) -> usize {
    (first + position) as usize
}

/// The address of the instruction account at `position`, where there is one.
pub open spec fn key_at(ctx: InvocationContext, first: usize, position: nat) -> Option<Pubkey> {
    match instruction_account(ctx, first as int, position as int) {
        Some(account) => Some(account.key),
        None => None,
    }
}

/// The address of the instruction account at `position`, which must have signed.
pub open spec fn signer_key_at(ctx: InvocationContext, first: usize, position: nat) -> Result<
    Pubkey,
    InstructionError,
> {
    match instruction_account(ctx, first as int, position as int) {
        None => Err(InstructionError::NotEnoughAccountKeys),
        Some(account) => if account.is_signer {
            Ok(account.key)
        } else {
            Err(InstructionError::MissingRequiredSignature)
        },
    }
}

/// Whether custodian consent is part of authority changes.
pub open spec fn custodian_feature(ctx: InvocationContext) -> bool {
    feature_active(ctx, require_custodian_feature_address())
}

/// Whether the checked instructions are enabled.
pub open spec fn checked_feature(ctx: InvocationContext) -> bool {
    feature_active(ctx, checked_instructions_feature_address())
}

/// `Initialize`: the rent, read through the second account.
pub open spec fn initialize_outcome(
    ctx: InvocationContext,
    first: usize,
    authorized: Authorized,
    lockup: Lockup,
) -> Result<OperationView, InstructionError> {
    match rent_from_account(ctx, first as int, accounts::Initialize::Rent.position() as int) {
        Err(e) => Err(e),
        Ok(rent) => Ok(OperationView::Initialize { authorized, lockup, rent }),
    }
}

/// `Authorize`: with custodian consent in force, the clock through the second
/// account and the fourth account's address as custodian, where there is one;
/// otherwise the zero clock and no custodian.
pub open spec fn authorize_outcome(
    ctx: InvocationContext,
    first: usize,
    new_authority: Pubkey,
    stake_authorize: StakeAuthorize,
) -> Result<OperationView, InstructionError> {
    if custodian_feature(ctx) {
        match clock_from_account(ctx, first as int, accounts::Authorize::Clock.position() as int) {
            Err(e) => Err(e),
            Ok(clock) => Ok(
                OperationView::Authorize {
                    signers: signers_of(ctx, first),
                    new_authority,
                    stake_authorize,
                    require_custodian: true,
                    clock,
                    custodian: key_at(ctx, first, accounts::Authorize::Custodian.position()),
                },
            ),
        }
    } else {
        Ok(
            OperationView::Authorize {
                signers: signers_of(ctx, first),
                new_authority,
                stake_authorize,
                require_custodian: false,
                clock: Clock::zeroed(),
                custodian: None,
            },
        )
    }
}

/// `AuthorizeWithSeed`: at least two accounts, the second the seed's base; with
/// custodian consent in force, the clock through the third account and the
/// fourth account's address as custodian, where there is one.
pub open spec fn authorize_with_seed_outcome(
    ctx: InvocationContext,
    first: usize,
    args: AuthorizeWithSeedArgs,
) -> Result<OperationView, InstructionError> {
    if !has_accounts(ctx, first, 2) {
        Err(InstructionError::NotEnoughAccountKeys)
    } else if custodian_feature(ctx) {
        match clock_from_account(
            ctx,
            first as int,
            accounts::AuthorizeWithSeed::Clock.position() as int,
        ) {
            Err(e) => Err(e),
            Ok(clock) => Ok(
                OperationView::AuthorizeWithSeed {
                    authority_base: keyed_index(
                        first,
                        accounts::AuthorizeWithSeed::AuthorityBase.position(),
                    ),
                    authority_seed: args.authority_seed@,
                    authority_owner: args.authority_owner,
                    new_authority: args.new_authorized_pubkey,
                    stake_authorize: args.stake_authorize,
                    require_custodian: true,
                    clock,
                    custodian: key_at(ctx, first, accounts::AuthorizeWithSeed::Custodian.position()),
                },
            ),
        }
    } else {
        Ok(
            OperationView::AuthorizeWithSeed {
                authority_base: keyed_index(
                    first,
                    accounts::AuthorizeWithSeed::AuthorityBase.position(),
                ),
                authority_seed: args.authority_seed@,
                authority_owner: args.authority_owner,
                new_authority: args.new_authorized_pubkey,
                stake_authorize: args.stake_authorize,
                require_custodian: false,
                clock: Clock::zeroed(),
                custodian: None,
            },
        )
    }
}

/// `DelegateStake`: the vote account second, the clock and the stake history
/// through the third and fourth accounts, and the stake config account fifth,
/// whose data must hold a stake config.
pub open spec fn delegate_outcome(ctx: InvocationContext, first: usize) -> Result<
    OperationView,
    InstructionError,
> {
    if !has_accounts(ctx, first, 2) {
        Err(InstructionError::NotEnoughAccountKeys)
    } else {
        match clock_from_account(
            ctx,
            first as int,
            accounts::DelegateStake::Clock.position() as int,
        ) {
            Err(e) => Err(e),
            Ok(clock) => match stake_history_from_account(
                ctx,
                first as int,
                accounts::DelegateStake::StakeHistory.position() as int,
            ) {
                Err(e) => Err(e),
                Ok(stake_history) => if !has_accounts(ctx, first, 5) {
                    Err(InstructionError::NotEnoughAccountKeys)
                } else {
                    match instruction_account(
                        ctx,
                        first as int,
                        accounts::DelegateStake::ConfigAccount.position() as int,
                    ) {
                        None => Err(InstructionError::NotEnoughAccountKeys),
                        Some(config_account) => if config_account.key@ != stake_config_address() {
                            Err(InstructionError::InvalidArgument)
                        } else {
                            match stake_config_in(config_account.data@) {
                                None => Err(InstructionError::InvalidArgument),
                                Some(config) => Ok(
                                    OperationView::Delegate {
                                        vote_account: keyed_index(
                                            first,
                                            accounts::DelegateStake::VoteAccount.position(),
                                        ),
                                        clock,
                                        stake_history,
                                        config,
                                        signers: signers_of(ctx, first),
                                    },
                                ),
                            }
                        },
                    }
                },
            },
        }
    }
}

pub open spec fn split_outcome(ctx: InvocationContext, first: usize, lamports: u64) -> Result<
    OperationView,
    InstructionError,
> {
    if !has_accounts(ctx, first, 2) {
        Err(InstructionError::NotEnoughAccountKeys)
    } else {
        Ok(
            OperationView::Split {
                lamports,
                split_to: keyed_index(first, accounts::Split::SplitTo.position()),
                signers: signers_of(ctx, first),
            },
        )
    }
}

/// `Merge`: the source account second, the clock and the stake history through
/// the third and fourth accounts.
pub open spec fn merge_outcome(ctx: InvocationContext, first: usize) -> Result<
    OperationView,
    InstructionError,
> {
    if !has_accounts(ctx, first, 2) {
        Err(InstructionError::NotEnoughAccountKeys)
    } else {
        match clock_from_account(ctx, first as int, accounts::Merge::Clock.position() as int) {
            Err(e) => Err(e),
            Ok(clock) => match stake_history_from_account(
                ctx,
                first as int,
                accounts::Merge::StakeHistory.position() as int,
            ) {
                Err(e) => Err(e),
                Ok(stake_history) => Ok(
                    OperationView::Merge {
                        source: keyed_index(first, accounts::Merge::MergeFrom.position()),
                        clock,
                        stake_history,
                        signers: signers_of(ctx, first),
                    },
                ),
            },
        }
    }
}

/// `Withdraw`: the recipient second, the clock and the stake history through the
/// third and fourth accounts, the withdraw authority fifth, and the sixth account
/// as custodian, where there is one.
pub open spec fn withdraw_outcome(ctx: InvocationContext, first: usize, lamports: u64) -> Result<
    OperationView,
    InstructionError,
> {
    if !has_accounts(ctx, first, 2) {
        Err(InstructionError::NotEnoughAccountKeys)
    } else {
        match clock_from_account(ctx, first as int, accounts::Withdraw::Clock.position() as int) {
            Err(e) => Err(e),
            Ok(clock) => match stake_history_from_account(
                ctx,
                first as int,
                accounts::Withdraw::StakeHistory.position() as int,
            ) {
                Err(e) => Err(e),
                Ok(stake_history) => if !has_accounts(ctx, first, 5) {
                    Err(InstructionError::NotEnoughAccountKeys)
                } else {
                    Ok(
                        OperationView::Withdraw {
                            lamports,
                            recipient: keyed_index(first, accounts::Withdraw::Recipient.position()),
                            clock,
                            stake_history,
                            withdraw_authority: keyed_index(
                                first,
                                accounts::Withdraw::WithdrawAuthority.position(),
                            ),
                            custodian: match key_at(
                                ctx,
                                first,
                                accounts::Withdraw::Custodian.position(),
                            ) {
                                Some(_) => Some(
                                    keyed_index(first, accounts::Withdraw::Custodian.position()),
                                ),
                                None => None,
                            },
                        },
                    )
                },
            },
        }
    }
}

/// `Deactivate`: the clock through the second account.
pub open spec fn deactivate_outcome(ctx: InvocationContext, first: usize) -> Result<
    OperationView,
    InstructionError,
> {
    match clock_from_account(ctx, first as int, accounts::Deactivate::Clock.position() as int) {
        Err(e) => Err(e),
        Ok(clock) => Ok(OperationView::Deactivate { clock, signers: signers_of(ctx, first) }),
    }
}

/// `SetLockup`: the clock from the sysvar cache.
pub open spec fn set_lockup_outcome(ctx: InvocationContext, first: usize, lockup: LockupArgs) -> Result<
    OperationView,
    InstructionError,
> {
    match cached_clock(ctx) {
        Err(e) => Err(e),
        Ok(clock) => Ok(OperationView::SetLockup { lockup, signers: signers_of(ctx, first), clock }),
    }
}

/// `InitializeChecked`: only with the checked instructions enabled; the staker
/// is the third account, the withdrawer the fourth, which must have signed, the
/// rent is read through the second, and the lockup is the default one.
pub open spec fn initialize_checked_outcome(ctx: InvocationContext, first: usize) -> Result<
    OperationView,
    InstructionError,
> {
    if !checked_feature(ctx) {
        Err(InstructionError::InvalidInstructionData)
    } else if !has_accounts(ctx, first, 4) {
        Err(InstructionError::NotEnoughAccountKeys)
    } else {
        match key_at(ctx, first, accounts::InitializeChecked::AuthorizedStaker.position()) {
            None => Err(InstructionError::NotEnoughAccountKeys),
            Some(staker) => match signer_key_at(
                ctx,
                first,
                accounts::InitializeChecked::AuthorizedWithdrawer.position(),
            ) {
                Err(e) => Err(e),
                Ok(withdrawer) => match rent_from_account(
                    ctx,
                    first as int,
                    accounts::InitializeChecked::Rent.position() as int,
                ) {
                    Err(e) => Err(e),
                    Ok(rent) => Ok(
                        OperationView::Initialize {
                            authorized: Authorized { staker, withdrawer },
                            lockup: Lockup::unlocked(),
                            rent,
                        },
                    ),
                },
            },
        }
    }
}

/// `AuthorizeChecked`: only with the checked instructions enabled; the clock
/// through the second account, the new authority the fourth account, which must
/// have signed, and the fifth account's address as custodian, where there is one.
pub open spec fn authorize_checked_outcome(
    ctx: InvocationContext,
    first: usize,
    stake_authorize: StakeAuthorize,
) -> Result<OperationView, InstructionError> {
    if !checked_feature(ctx) {
        Err(InstructionError::InvalidInstructionData)
    } else {
        match clock_from_account(
            ctx,
            first as int,
            accounts::AuthorizeChecked::Clock.position() as int,
        ) {
            Err(e) => Err(e),
            Ok(clock) => if !has_accounts(ctx, first, 4) {
                Err(InstructionError::NotEnoughAccountKeys)
            } else {
                match signer_key_at(ctx, first, accounts::AuthorizeChecked::Authorized.position()) {
                    Err(e) => Err(e),
                    Ok(new_authority) => Ok(
                        OperationView::Authorize {
                            signers: signers_of(ctx, first),
                            new_authority,
                            stake_authorize,
                            require_custodian: true,
                            clock,
                            custodian: key_at(
                                ctx,
                                first,
                                accounts::AuthorizeChecked::Custodian.position(),
                            ),
                        },
                    ),
                }
            },
        }
    }
}

/// `AuthorizeCheckedWithSeed`: only with the checked instructions enabled; the
/// seed's base second, the clock through the third account, the new authority
/// the fourth, which must have signed, and the fifth account's address as
/// custodian, where there is one.
pub open spec fn authorize_checked_with_seed_outcome(
    ctx: InvocationContext,
    first: usize,
    args: AuthorizeCheckedWithSeedArgs,
) -> Result<OperationView, InstructionError> {
    if !checked_feature(ctx) {
        Err(InstructionError::InvalidInstructionData)
    } else if !has_accounts(ctx, first, 2) {
        Err(InstructionError::NotEnoughAccountKeys)
    } else {
        match clock_from_account(
            ctx,
            first as int,
            accounts::AuthorizeCheckedWithSeed::Clock.position() as int,
        ) {
            Err(e) => Err(e),
            Ok(clock) => if !has_accounts(ctx, first, 4) {
                Err(InstructionError::NotEnoughAccountKeys)
            } else {
                match signer_key_at(
                    ctx,
                    first,
                    accounts::AuthorizeCheckedWithSeed::Authorized.position(),
                ) {
                    Err(e) => Err(e),
                    Ok(new_authority) => Ok(
                        OperationView::AuthorizeWithSeed {
                            authority_base: keyed_index(
                                first,
                                accounts::AuthorizeCheckedWithSeed::AuthorityBase.position(),
                            ),
                            authority_seed: args.authority_seed@,
                            authority_owner: args.authority_owner,
                            new_authority,
                            stake_authorize: args.stake_authorize,
                            require_custodian: true,
                            clock,
                            custodian: key_at(
                                ctx,
                                first,
                                accounts::AuthorizeCheckedWithSeed::Custodian.position(),
                            ),
                        },
                    ),
                }
            },
        }
    }
}

/// `SetLockupChecked`: only with the checked instructions enabled; the third
/// account, where there is one, is the new custodian and must have signed; the
/// clock comes from the sysvar cache.
pub open spec fn set_lockup_checked_outcome(
    ctx: InvocationContext,
    first: usize,
    args: LockupCheckedArgs,
) -> Result<OperationView, InstructionError> {
    if !checked_feature(ctx) {
        Err(InstructionError::InvalidInstructionData)
    } else {
        let custodian = instruction_account(
            ctx,
            first as int,
            accounts::SetLockupChecked::Custodian.position() as int,
        );
        if custodian matches Some(account) && !account.is_signer {
            Err(InstructionError::MissingRequiredSignature)
        } else {
            match cached_clock(ctx) {
                Err(e) => Err(e),
                Ok(clock) => Ok(
                    OperationView::SetLockup {
                        lockup: LockupArgs {
                            unix_timestamp: args.unix_timestamp,
                            epoch: args.epoch,
                            custodian: key_at(
                                ctx,
                                first,
                                accounts::SetLockupChecked::Custodian.position(),
                            ),
                        },
                        signers: signers_of(ctx, first),
                        clock,
                    },
                ),
            }
        }
    }
}

/// What a decoded instruction yields, once the stake account has been found
/// owned by the stake program.
pub open spec fn decoded_outcome(
    ctx: InvocationContext,
    first: usize,
    instruction: StakeInstruction,
) -> Result<OperationView, InstructionError> {
    match instruction {
        StakeInstruction::Initialize(authorized, lockup) => initialize_outcome(
            ctx,
            first,
            authorized,
            lockup,
        ),
        StakeInstruction::Authorize(new_authority, stake_authorize) => authorize_outcome(
            ctx,
            first,
            new_authority,
            stake_authorize,
        ),
        StakeInstruction::DelegateStake => delegate_outcome(ctx, first),
        StakeInstruction::Split(lamports) => split_outcome(ctx, first, lamports),
        StakeInstruction::Withdraw(lamports) => withdraw_outcome(ctx, first, lamports),
        StakeInstruction::Deactivate => deactivate_outcome(ctx, first),
        StakeInstruction::SetLockup(lockup) => set_lockup_outcome(ctx, first, lockup),
        StakeInstruction::Merge => merge_outcome(ctx, first),
        StakeInstruction::AuthorizeWithSeed(args) => authorize_with_seed_outcome(ctx, first, args),
        StakeInstruction::InitializeChecked => initialize_checked_outcome(ctx, first),
        StakeInstruction::AuthorizeChecked(stake_authorize) => authorize_checked_outcome(
            ctx,
            first,
            stake_authorize,
        ),
        StakeInstruction::AuthorizeCheckedWithSeed(args) => authorize_checked_with_seed_outcome(
            ctx,
            first,
            args,
        ),
        StakeInstruction::SetLockupChecked(args) => set_lockup_checked_outcome(ctx, first, args),
    }
}

/// What an invocation yields: the stake account must exist and be owned by the
/// stake program, the instruction data must decode (`None` where it does not),
/// and then the instruction's own checks decide.
pub open spec fn dispatch(
    first: usize,
    instruction: Option<StakeInstruction>,
    ctx: InvocationContext,
) -> Result<OperationView, InstructionError> {
    match instruction_account(ctx, first as int, 0) {
        None => Err(InstructionError::NotEnoughAccountKeys),
        Some(stake_account) => if stake_account.owner@ != stake_program_address() {
            Err(InstructionError::InvalidAccountOwner)
        } else {
            match instruction {
                None => Err(InstructionError::InvalidInstructionData),
                Some(decoded) => decoded_outcome(ctx, first, decoded),
            }
        },
    }
}

/// The address of the instruction account at `position`, where there is one.
fn optional_key(ctx: &InvocationContext, first: usize, position: usize) -> (r: Option<Pubkey>)
    ensures
        r == key_at(*ctx, first, position as nat),
{
    match instruction_account_index(ctx, first, position) {
        Ok(at) => Some(ctx.keyed_accounts[at].key),
        Err(_) => None,
    }
}

/// The address of the instruction account at `position`, which must have signed.
fn signer_key(ctx: &InvocationContext, first: usize, position: usize) -> (r: Result<
    Pubkey,
    InstructionError,
>)
    ensures
        r == signer_key_at(*ctx, first, position as nat),
{
    match instruction_account_index(ctx, first, position) {
        Err(e) => Err(e),
        Ok(at) => {
            if ctx.keyed_accounts[at].is_signer {
                Ok(ctx.keyed_accounts[at].key)
            } else {
                Err(InstructionError::MissingRequiredSignature)
            }
        },
    }
}

/// The keyed-account index of the instruction account at `position`, which the
/// caller knows to exist.
fn existing_index(ctx: &InvocationContext, first: usize, position: usize) -> (r: usize)
    requires
        first + position < ctx.keyed_accounts@.len(),
    ensures
        r == keyed_index(first, position as nat),
        r == first + position,
{
    let len = ctx.keyed_accounts.len();
    assert(first + position < len);
    first + position
}

fn initialize(ctx: &InvocationContext, first: usize, authorized: Authorized, lockup: Lockup) -> (r:
    Result<StakeOperation, InstructionError>)
    ensures
        outcome_view(r) == initialize_outcome(*ctx, first, authorized, lockup),
{
    match get_rent_with_account_check(ctx, first, accounts::Initialize::Rent.index()) {
        Err(e) => Err(e),
        Ok(rent) => Ok(StakeOperation::Initialize { authorized, lockup, rent }),
    }
}

fn authorize(
    ctx: &InvocationContext,
    first: usize,
    signers: Vec<Pubkey>,
    new_authority: Pubkey,
    stake_authorize: StakeAuthorize,
) -> (r: Result<StakeOperation, InstructionError>)
    requires
        signers@ == signers_of(*ctx, first),
    ensures
        outcome_view(r) == authorize_outcome(*ctx, first, new_authority, stake_authorize),
{
    let feature = require_custodian_feature_id();
    if is_feature_active(ctx, &feature) {
        match get_clock_with_account_check(ctx, first, accounts::Authorize::Clock.index()) {
            Err(e) => Err(e),
            Ok(clock) => Ok(
                StakeOperation::Authorize {
                    signers,
                    new_authority,
                    stake_authorize,
                    require_custodian: true,
                    clock,
                    custodian: optional_key(ctx, first, accounts::Authorize::Custodian.index()),
                },
            ),
        }
    } else {
        Ok(
            StakeOperation::Authorize {
                signers,
                new_authority,
                stake_authorize,
                require_custodian: false,
                clock: Clock::default(),
                custodian: None,
            },
        )
    }
}

fn authorize_with_seed(ctx: &InvocationContext, first: usize, args: AuthorizeWithSeedArgs) -> (r:
    Result<StakeOperation, InstructionError>)
    ensures
        outcome_view(r) == authorize_with_seed_outcome(*ctx, first, args),
{
    if let Err(e) = check_number_of_instruction_accounts(ctx, first, 2) {
        return Err(e);
    }
    let authority_base = existing_index(
        ctx,
        first,
        accounts::AuthorizeWithSeed::AuthorityBase.index(),
    );
    let feature = require_custodian_feature_id();
    if is_feature_active(ctx, &feature) {
        match get_clock_with_account_check(ctx, first, accounts::AuthorizeWithSeed::Clock.index()) {
            Err(e) => Err(e),
            Ok(clock) => Ok(
                StakeOperation::AuthorizeWithSeed {
                    authority_base,
                    authority_seed: args.authority_seed,
                    authority_owner: args.authority_owner,
                    new_authority: args.new_authorized_pubkey,
                    stake_authorize: args.stake_authorize,
                    require_custodian: true,
                    clock,
                    custodian: optional_key(
                        ctx,
                        first,
                        accounts::AuthorizeWithSeed::Custodian.index(),
                    ),
                },
            ),
        }
    } else {
        Ok(
            StakeOperation::AuthorizeWithSeed {
                authority_base,
                authority_seed: args.authority_seed,
                authority_owner: args.authority_owner,
                new_authority: args.new_authorized_pubkey,
                stake_authorize: args.stake_authorize,
                require_custodian: false,
                clock: Clock::default(),
                custodian: None,
            },
        )
    }
}

fn delegate(ctx: &InvocationContext, first: usize, signers: Vec<Pubkey>) -> (r: Result<
    StakeOperation,
    InstructionError,
>)
    requires
        signers@ == signers_of(*ctx, first),
    ensures
        outcome_view(r) == delegate_outcome(*ctx, first),
{
    if let Err(e) = check_number_of_instruction_accounts(ctx, first, 2) {
        return Err(e);
    }
    let vote_account = existing_index(ctx, first, accounts::DelegateStake::VoteAccount.index());
    let clock = match get_clock_with_account_check(
        ctx,
        first,
        accounts::DelegateStake::Clock.index(),
    ) {
        Err(e) => return Err(e),
        Ok(clock) => clock,
    };
    let stake_history = match get_stake_history_with_account_check(
        ctx,
        first,
        accounts::DelegateStake::StakeHistory.index(),
    ) {
        Err(e) => return Err(e),
        Ok(stake_history) => stake_history,
    };
    if let Err(e) = check_number_of_instruction_accounts(ctx, first, 5) {
        return Err(e);
    }
    let config_account = existing_index(ctx, first, accounts::DelegateStake::ConfigAccount.index());
    let config_id = stake_config_id();
    if !ctx.keyed_accounts[config_account].key.same_as(&config_id) {
        return Err(InstructionError::InvalidArgument);
    }
    match stake_config_from_data(ctx.keyed_accounts[config_account].data.as_slice()) {
        None => Err(InstructionError::InvalidArgument),
        Some(config) => Ok(
            StakeOperation::Delegate { vote_account, clock, stake_history, config, signers },
        ),
    }
}

fn split(ctx: &InvocationContext, first: usize, signers: Vec<Pubkey>, lamports: u64) -> (r:
    Result<StakeOperation, InstructionError>)
    requires
        signers@ == signers_of(*ctx, first),
    ensures
        outcome_view(r) == split_outcome(*ctx, first, lamports),
{
    if let Err(e) = check_number_of_instruction_accounts(ctx, first, 2) {
        return Err(e);
    }
    let split_to = existing_index(ctx, first, accounts::Split::SplitTo.index());
    Ok(StakeOperation::Split { lamports, split_to, signers })
}

fn merge(ctx: &InvocationContext, first: usize, signers: Vec<Pubkey>) -> (r: Result<
    StakeOperation,
    InstructionError,
>)
    requires
        signers@ == signers_of(*ctx, first),
    ensures
        outcome_view(r) == merge_outcome(*ctx, first),
{
    if let Err(e) = check_number_of_instruction_accounts(ctx, first, 2) {
        return Err(e);
    }
    let source = existing_index(ctx, first, accounts::Merge::MergeFrom.index());
    let clock = match get_clock_with_account_check(ctx, first, accounts::Merge::Clock.index()) {
        Err(e) => return Err(e),
        Ok(clock) => clock,
    };
    let stake_history = match get_stake_history_with_account_check(
        ctx,
        first,
        accounts::Merge::StakeHistory.index(),
    ) {
        Err(e) => return Err(e),
        Ok(stake_history) => stake_history,
    };
    Ok(StakeOperation::Merge { source, clock, stake_history, signers })
}

fn withdraw(ctx: &InvocationContext, first: usize, lamports: u64) -> (r: Result<
    StakeOperation,
    InstructionError,
>)
    ensures
        outcome_view(r) == withdraw_outcome(*ctx, first, lamports),
{
    if let Err(e) = check_number_of_instruction_accounts(ctx, first, 2) {
        return Err(e);
    }
    let recipient = existing_index(ctx, first, accounts::Withdraw::Recipient.index());
    let clock = match get_clock_with_account_check(ctx, first, accounts::Withdraw::Clock.index()) {
        Err(e) => return Err(e),
        Ok(clock) => clock,
    };
    let stake_history = match get_stake_history_with_account_check(
        ctx,
        first,
        accounts::Withdraw::StakeHistory.index(),
    ) {
        Err(e) => return Err(e),
        Ok(stake_history) => stake_history,
    };
    if let Err(e) = check_number_of_instruction_accounts(ctx, first, 5) {
        return Err(e);
    }
    let withdraw_authority = existing_index(
        ctx,
        first,
        accounts::Withdraw::WithdrawAuthority.index(),
    );
    let custodian = match instruction_account_index(ctx, first, accounts::Withdraw::Custodian.index()) {
        Ok(at) => Some(at),
        Err(_) => None,
    };
    Ok(
        StakeOperation::Withdraw {
            lamports,
            recipient,
            clock,
            stake_history,
            withdraw_authority,
            custodian,
        },
    )
}

fn deactivate(ctx: &InvocationContext, first: usize, signers: Vec<Pubkey>) -> (r: Result<
    StakeOperation,
    InstructionError,
>)
    requires
        signers@ == signers_of(*ctx, first),
    ensures
        outcome_view(r) == deactivate_outcome(*ctx, first),
{
    match get_clock_with_account_check(ctx, first, accounts::Deactivate::Clock.index()) {
        Err(e) => Err(e),
        Ok(clock) => Ok(StakeOperation::Deactivate { clock, signers }),
    }
}

fn set_lockup(ctx: &InvocationContext, first: usize, signers: Vec<Pubkey>, lockup: LockupArgs) -> (r:
    Result<StakeOperation, InstructionError>)
    requires
        signers@ == signers_of(*ctx, first),
    ensures
        outcome_view(r) == set_lockup_outcome(*ctx, first, lockup),
{
    match get_cached_clock(ctx) {
        Err(e) => Err(e),
        Ok(clock) => Ok(StakeOperation::SetLockup { lockup, signers, clock }),
    }
}

fn initialize_checked(ctx: &InvocationContext, first: usize) -> (r: Result<
    StakeOperation,
    InstructionError,
>)
    ensures
        outcome_view(r) == initialize_checked_outcome(*ctx, first),
{
    let feature = checked_instructions_feature_id();
    if !is_feature_active(ctx, &feature) {
        return Err(InstructionError::InvalidInstructionData);
    }
    if let Err(e) = check_number_of_instruction_accounts(ctx, first, 4) {
        return Err(e);
    }
    let staker = match instruction_account_index(
        ctx,
        first,
        accounts::InitializeChecked::AuthorizedStaker.index(),
    ) {
        Err(e) => return Err(e),
        Ok(at) => ctx.keyed_accounts[at].key,
    };
    let withdrawer = match signer_key(
        ctx,
        first,
        accounts::InitializeChecked::AuthorizedWithdrawer.index(),
    ) {
        Err(e) => return Err(e),
        Ok(withdrawer) => withdrawer,
    };
    match get_rent_with_account_check(ctx, first, accounts::InitializeChecked::Rent.index()) {
        Err(e) => Err(e),
        Ok(rent) => Ok(
            StakeOperation::Initialize {
                authorized: Authorized { staker, withdrawer },
                lockup: Lockup::none(),
                rent,
            },
        ),
    }
}

fn authorize_checked(
    ctx: &InvocationContext,
    first: usize,
    signers: Vec<Pubkey>,
    stake_authorize: StakeAuthorize,
) -> (r: Result<StakeOperation, InstructionError>)
    requires
        signers@ == signers_of(*ctx, first),
    ensures
        outcome_view(r) == authorize_checked_outcome(*ctx, first, stake_authorize),
{
    let feature = checked_instructions_feature_id();
    if !is_feature_active(ctx, &feature) {
        return Err(InstructionError::InvalidInstructionData);
    }
    let clock = match get_clock_with_account_check(
        ctx,
        first,
        accounts::AuthorizeChecked::Clock.index(),
    ) {
        Err(e) => return Err(e),
        Ok(clock) => clock,
    };
    if let Err(e) = check_number_of_instruction_accounts(ctx, first, 4) {
        return Err(e);
    }
    let new_authority = match signer_key(ctx, first, accounts::AuthorizeChecked::Authorized.index()) {
        Err(e) => return Err(e),
        Ok(key) => key,
    };
    let custodian = optional_key(ctx, first, accounts::AuthorizeChecked::Custodian.index());
    Ok(
        StakeOperation::Authorize {
            signers,
            new_authority,
            stake_authorize,
            require_custodian: true,
            clock,
            custodian,
        },
    )
}

fn authorize_checked_with_seed(
    ctx: &InvocationContext,
    first: usize,
    args: AuthorizeCheckedWithSeedArgs,
) -> (r: Result<StakeOperation, InstructionError>)
    ensures
        outcome_view(r) == authorize_checked_with_seed_outcome(*ctx, first, args),
{
    let feature = checked_instructions_feature_id();
    if !is_feature_active(ctx, &feature) {
        return Err(InstructionError::InvalidInstructionData);
    }
    if let Err(e) = check_number_of_instruction_accounts(ctx, first, 2) {
        return Err(e);
    }
    let authority_base = existing_index(
        ctx,
        first,
        accounts::AuthorizeCheckedWithSeed::AuthorityBase.index(),
    );
    let clock = match get_clock_with_account_check(
        ctx,
        first,
        accounts::AuthorizeCheckedWithSeed::Clock.index(),
    ) {
        Err(e) => return Err(e),
        Ok(clock) => clock,
    };
    if let Err(e) = check_number_of_instruction_accounts(ctx, first, 4) {
        return Err(e);
    }
    let new_authority = match signer_key(
        ctx,
        first,
        accounts::AuthorizeCheckedWithSeed::Authorized.index(),
    ) {
        Err(e) => return Err(e),
        Ok(key) => key,
    };
    let custodian = optional_key(ctx, first, accounts::AuthorizeCheckedWithSeed::Custodian.index());
    Ok(
        StakeOperation::AuthorizeWithSeed {
            authority_base,
            authority_seed: args.authority_seed,
            authority_owner: args.authority_owner,
            new_authority,
            stake_authorize: args.stake_authorize,
            require_custodian: true,
            clock,
            custodian,
        },
    )
}

fn set_lockup_checked(
    ctx: &InvocationContext,
    first: usize,
    signers: Vec<Pubkey>,
    args: LockupCheckedArgs,
) -> (r: Result<StakeOperation, InstructionError>)
    requires
        signers@ == signers_of(*ctx, first),
    ensures
        outcome_view(r) == set_lockup_checked_outcome(*ctx, first, args),
{
    let feature = checked_instructions_feature_id();
    if !is_feature_active(ctx, &feature) {
        return Err(InstructionError::InvalidInstructionData);
    }
    let custodian = match instruction_account_index(
        ctx,
        first,
        accounts::SetLockupChecked::Custodian.index(),
    ) {
        Ok(at) => {
            if ctx.keyed_accounts[at].is_signer {
                Some(ctx.keyed_accounts[at].key)
            } else {
                return Err(InstructionError::MissingRequiredSignature);
            }
        },
        Err(_) => None,
    };
    let lockup = LockupArgs { unix_timestamp: args.unix_timestamp, epoch: args.epoch, custodian };
    match get_cached_clock(ctx) {
        Err(e) => Err(e),
        Ok(clock) => Ok(StakeOperation::SetLockup { lockup, signers, clock }),
    }
}

/// Decides what an invocation of the stake program asks for, given its decoded
/// instruction. The stake account is the instruction's first account, at keyed
/// account `first_instruction_account`; `instruction` is the decoded
/// instruction data, or `None` where the data does not decode. The result is
/// the operation to apply to the stake account, or the error with which the
/// instruction is refused, exactly as `dispatch` states.
pub fn dispatch_instruction(
    first_instruction_account: usize,
    instruction: Option<StakeInstruction>,
    invoke_context: &InvocationContext,
) -> (r: Result<StakeOperation, InstructionError>)
    ensures
        outcome_view(r) == dispatch(first_instruction_account, instruction, *invoke_context),
{
    let ctx = invoke_context;
    let first = first_instruction_account;
    let me = match instruction_account_index(ctx, first, accounts::Initialize::StakeAccount.index()) {
        Err(e) => return Err(e),
        Ok(at) => at,
    };
    let stake_program = stake_program_id();
    if !ctx.keyed_accounts[me].owner.same_as(&stake_program) {
        return Err(InstructionError::InvalidAccountOwner);
    }
    let signers = collect_signers(ctx, first);
    let instruction = match instruction {
        None => return Err(InstructionError::InvalidInstructionData),
        Some(decoded) => decoded,
    };
    match instruction {
        StakeInstruction::Initialize(authorized, lockup) => initialize(
            ctx,
            first,
            authorized,
            lockup,
        ),
        StakeInstruction::Authorize(new_authority, stake_authorize) => authorize(
            ctx,
            first,
            signers,
            new_authority,
            stake_authorize,
        ),
        StakeInstruction::DelegateStake => delegate(ctx, first, signers),
        StakeInstruction::Split(lamports) => split(ctx, first, signers, lamports),
        StakeInstruction::Withdraw(lamports) => withdraw(ctx, first, lamports),
        StakeInstruction::Deactivate => deactivate(ctx, first, signers),
        StakeInstruction::SetLockup(lockup) => set_lockup(ctx, first, signers, lockup),
        StakeInstruction::Merge => merge(ctx, first, signers),
        StakeInstruction::AuthorizeWithSeed(args) => authorize_with_seed(ctx, first, args),
        StakeInstruction::InitializeChecked => initialize_checked(ctx, first),
        StakeInstruction::AuthorizeChecked(stake_authorize) => authorize_checked(
            ctx,
            first,
            signers,
            stake_authorize,
        ),
        StakeInstruction::AuthorizeCheckedWithSeed(args) => authorize_checked_with_seed(
            ctx,
            first,
            args,
        ),
        StakeInstruction::SetLockupChecked(args) => set_lockup_checked(ctx, first, signers, args),
    }
}

/// Decides what an invocation of the stake program asks for, given its raw
/// instruction data: the data is decoded as `decode_instruction` does, and the
/// instruction it holds is dispatched as `dispatch_instruction` does. Data too
/// short to hold an instruction's tag is refused with `InvalidInstructionData`
/// once the stake account is found owned by the stake program.
pub fn process_instruction(
    first_instruction_account: usize,
    data: &[u8],
    invoke_context: &InvocationContext,
) -> (r: Result<StakeOperation, InstructionError>)
    ensures
        outcome_view(r) == dispatch(
            first_instruction_account,
            decoded_instruction(data@),
            *invoke_context,
        ),
        (data@.len() < 4 && (instruction_account(
            *invoke_context,
            first_instruction_account as int,
            0,
        ) matches Some(account) && account.owner@ == stake_program_address())) ==> r == Err::<
            StakeOperation,
            InstructionError,
        >(InstructionError::InvalidInstructionData),
{
    let instruction = decode_instruction(data);
    dispatch_instruction(first_instruction_account, instruction, invoke_context)
}

} // verus!
