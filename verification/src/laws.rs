//! Properties of the dispatch that hold for every invocation.

use vstd::prelude::*;

use crate::config::stake_config_in;
use crate::context::{
    feature_active, clock_from_account, instruction_account, stake_history_from_account, instruction_accounts, number_of_instruction_accounts,
    signer_keys,
};
use crate::ids::{
    require_custodian_feature_address, clock_sysvar_address, rent_sysvar_address, stake_config_address, stake_history_sysvar_address,
    stake_program_address,
};
use crate::model::{
    AuthorizeCheckedWithSeedArgs, AuthorizeWithSeedArgs, Authorized, Clock, InstructionError,
    InvocationContext, KeyedAccount, Lockup, LockupArgs, LockupCheckedArgs, StakeAuthorize,
    StakeInstruction,
};
use crate::operation::OperationView;
use crate::processor::{checked_feature, custodian_feature, dispatch, signers_of};
use crate::pubkey::Pubkey;

verus! {

/// Whether an instruction is one of the checked instructions, which take their
/// new authorities from signing accounts.
pub open spec fn is_checked(instruction: StakeInstruction) -> bool {
    match instruction {
        StakeInstruction::InitializeChecked => true,
        StakeInstruction::AuthorizeChecked(_) => true,
        StakeInstruction::AuthorizeCheckedWithSeed(_) => true,
        StakeInstruction::SetLockupChecked(_) => true,
        _ => false,
    }
}

/// How many accounts an instruction must at least be given to succeed.
pub open spec fn required_accounts(instruction: StakeInstruction) -> nat {
    match instruction {
        StakeInstruction::Initialize(..) => 2,
        StakeInstruction::Authorize(..) => 1,
        StakeInstruction::DelegateStake => 5,
        StakeInstruction::Split(_) => 2,
        StakeInstruction::Withdraw(_) => 5,
        StakeInstruction::Deactivate => 2,
        StakeInstruction::SetLockup(_) => 1,
        StakeInstruction::Merge => 4,
        StakeInstruction::AuthorizeWithSeed(_) => 2,
        StakeInstruction::InitializeChecked => 4,
        StakeInstruction::AuthorizeChecked(_) => 4,
        StakeInstruction::AuthorizeCheckedWithSeed(_) => 4,
        StakeInstruction::SetLockupChecked(_) => 1,
    }
}

/// A key is among the signer keys exactly when some signing account has it,
/// and no key is among them twice.
pub proof fn signer_keys_are_signing_accounts(accounts: Seq<KeyedAccount>, key: Pubkey)
    ensures
        signer_keys(accounts).contains(key) <==> exists|i: int|
            0 <= i < accounts.len() && #[trigger] accounts[i].is_signer && accounts[i].key == key,
        signer_keys(accounts).no_duplicates(),
    decreases accounts.len(),
{
    if accounts.len() > 0 {
        let earlier = accounts.drop_last();
        let last = accounts.last();
        signer_keys_are_signing_accounts(earlier, key);
        signer_keys_are_signing_accounts(earlier, last.key);
        let keys = signer_keys(accounts);
        let before = signer_keys(earlier);
        if last.is_signer && !before.contains(last.key) {
            assert(keys == before.push(last.key));
            assert forall|j: int| 0 <= j < before.len() implies keys[j] == before[j] by {}
            if keys.contains(key) {
                let j = choose|j: int| 0 <= j < keys.len() && keys[j] == key;
                if j < before.len() {
                    assert(before.contains(key));
                } else {
                    assert(accounts[accounts.len() - 1].is_signer);
                }
            }
            if before.contains(key) {
                let j = choose|j: int| 0 <= j < before.len() && before[j] == key;
                assert(keys[j] == key);
            }
            if key == last.key {
                assert(keys[keys.len() - 1] == key);
            }
        } else {
            assert(keys == before);
        }
        if exists|i: int|
            0 <= i < accounts.len() && #[trigger] accounts[i].is_signer && accounts[i].key == key {
            let i = choose|i: int|
                0 <= i < accounts.len() && #[trigger] accounts[i].is_signer && accounts[i].key == key;
            if i < accounts.len() - 1 {
                assert(earlier[i] == accounts[i]);
            }
        }
        if exists|i: int|
            0 <= i < earlier.len() && #[trigger] earlier[i].is_signer && earlier[i].key == key {
            let i = choose|i: int|
                0 <= i < earlier.len() && #[trigger] earlier[i].is_signer && earlier[i].key == key;
            assert(accounts[i] == earlier[i]);
        }
    }
}

/// The signing instruction account at `position` is among the signers.
proof fn signing_account_is_a_signer(ctx: InvocationContext, first: usize, position: int)
    requires
        instruction_account(ctx, first as int, position) matches Some(account) && account.is_signer,
    ensures
        signers_of(ctx, first).contains(ctx.keyed_accounts@[first + position].key),
{
    let accounts = instruction_accounts(ctx, first as int);
    let key = ctx.keyed_accounts@[first + position].key;
    assert(accounts[position] == ctx.keyed_accounts@[first + position]);
    assert(accounts[position].is_signer && accounts[position].key == key);
    signer_keys_are_signing_accounts(accounts, key);
}

/// An invocation whose stake account is owned by another program is refused
/// with `InvalidAccountOwner`, whatever its instruction data.
pub proof fn foreign_stake_account_is_refused(
    first: usize,
    instruction: Option<StakeInstruction>,
    ctx: InvocationContext,
)
    requires
        instruction_account(ctx, first as int, 0) matches Some(account) && account.owner@
            != stake_program_address(),
    ensures
        dispatch(first, instruction, ctx) == Err::<OperationView, InstructionError>(
            InstructionError::InvalidAccountOwner,
        ),
{
}

/// An invocation with no instruction accounts is refused with
/// `NotEnoughAccountKeys`, whatever its instruction data.
pub proof fn missing_stake_account_is_refused(
    first: usize,
    instruction: Option<StakeInstruction>,
    ctx: InvocationContext,
)
    requires
        first >= ctx.keyed_accounts@.len(),
    ensures
        dispatch(first, instruction, ctx) == Err::<OperationView, InstructionError>(
            InstructionError::NotEnoughAccountKeys,
        ),
{
}

/// Instruction data that does not decode is refused with
/// `InvalidInstructionData` once the stake account is found owned by the stake
/// program.
pub proof fn undecodable_data_is_refused(first: usize, ctx: InvocationContext)
    requires
        instruction_account(ctx, first as int, 0) matches Some(account) && account.owner@
            == stake_program_address(),
    ensures
        dispatch(first, None, ctx) == Err::<OperationView, InstructionError>(
            InstructionError::InvalidInstructionData,
        ),
{
}

/// Whatever succeeds names a stake account owned by the stake program and
/// decodable instruction data.
pub proof fn success_needs_owned_stake_account(
    first: usize,
    instruction: Option<StakeInstruction>,
    ctx: InvocationContext,
)
    requires
        dispatch(first, instruction, ctx) is Ok,
    ensures
        instruction_account(ctx, first as int, 0) matches Some(account) && account.owner@
            == stake_program_address(),
        instruction is Some,
{
}

/// While the checked-instructions feature is inactive, the checked instructions
/// are refused with `InvalidInstructionData`.
pub proof fn checked_instructions_need_their_feature(
    first: usize,
    instruction: StakeInstruction,
    ctx: InvocationContext,
)
    requires
        instruction_account(ctx, first as int, 0) matches Some(account) && account.owner@
            == stake_program_address(),
        is_checked(instruction),
        !checked_feature(ctx),
    ensures
        dispatch(first, Some(instruction), ctx) == Err::<OperationView, InstructionError>(
            InstructionError::InvalidInstructionData,
        ),
{
}

/// A checked instruction that succeeds takes each authority it installs from an
/// account that signed: the new withdrawer, the new authority, the new lockup
/// custodian.
pub proof fn checked_authorities_have_signed(
    first: usize,
    instruction: StakeInstruction,
    ctx: InvocationContext,
)
    requires
        is_checked(instruction),
        dispatch(first, Some(instruction), ctx) is Ok,
    ensures
        match dispatch(first, Some(instruction), ctx) {
            Ok(OperationView::Initialize { authorized, .. }) => signers_of(ctx, first).contains(
                authorized.withdrawer,
            ),
            Ok(OperationView::Authorize { new_authority, .. }) => signers_of(ctx, first).contains(
                new_authority,
            ),
            Ok(OperationView::AuthorizeWithSeed { new_authority, .. }) => signers_of(
                ctx,
                first,
            ).contains(new_authority),
            Ok(OperationView::SetLockup { lockup, .. }) => lockup.custodian matches Some(custodian)
                ==> signers_of(ctx, first).contains(custodian),
            _ => false,
        },
{
    match instruction {
        StakeInstruction::InitializeChecked => {
            signing_account_is_a_signer(ctx, first, 3);
        },
        StakeInstruction::AuthorizeChecked(_) => {
            signing_account_is_a_signer(ctx, first, 3);
        },
        StakeInstruction::AuthorizeCheckedWithSeed(_) => {
            signing_account_is_a_signer(ctx, first, 3);
        },
        StakeInstruction::SetLockupChecked(_) => {
            if instruction_account(ctx, first as int, 2) is Some {
                signing_account_is_a_signer(ctx, first, 2);
            }
        },
        _ => {},
    }
}

/// An instruction that succeeds was given at least the accounts it requires.
pub proof fn success_needs_required_accounts(
    first: usize,
    instruction: StakeInstruction,
    ctx: InvocationContext,
)
    requires
        dispatch(first, Some(instruction), ctx) is Ok,
    ensures
        number_of_instruction_accounts(ctx, first as int) >= required_accounts(instruction),
{
}

/// The signers that an operation is given, where it is given any.
pub open spec fn operation_signers(operation: OperationView) -> Option<Seq<Pubkey>> {
    match operation {
        OperationView::Authorize { signers, .. } => Some(signers),
        OperationView::Delegate { signers, .. } => Some(signers),
        OperationView::Split { signers, .. } => Some(signers),
        OperationView::Merge { signers, .. } => Some(signers),
        OperationView::Deactivate { signers, .. } => Some(signers),
        OperationView::SetLockup { signers, .. } => Some(signers),
        _ => None,
    }
}

/// The keyed accounts, besides the stake account, that an operation names.
pub open spec fn operation_accounts(operation: OperationView) -> Seq<usize> {
    match operation {
        OperationView::AuthorizeWithSeed { authority_base, .. } => seq![authority_base],
        OperationView::Delegate { vote_account, .. } => seq![vote_account],
        OperationView::Split { split_to, .. } => seq![split_to],
        OperationView::Merge { source, .. } => seq![source],
        OperationView::Withdraw { recipient, withdraw_authority, custodian, .. } => match custodian {
            Some(custodian) => seq![recipient, withdraw_authority, custodian],
            None => seq![recipient, withdraw_authority],
        },
        _ => Seq::empty(),
    }
}

/// The signers an operation is given are exactly the addresses of the
/// instruction accounts that signed, each once.
pub proof fn operation_signers_are_signing_accounts(
    first: usize,
    instruction: Option<StakeInstruction>,
    ctx: InvocationContext,
    key: Pubkey,
)
    requires
        dispatch(first, instruction, ctx) matches Ok(operation) && operation_signers(operation) is Some,
    ensures
        dispatch(first, instruction, ctx) matches Ok(operation) && (operation_signers(
            operation,
        )->Some_0.contains(key) <==> exists|i: int|
            0 <= i < instruction_accounts(ctx, first as int).len()
                && #[trigger] instruction_accounts(ctx, first as int)[i].is_signer
                && instruction_accounts(ctx, first as int)[i].key == key),
        dispatch(first, instruction, ctx) matches Ok(operation) && operation_signers(
            operation,
        )->Some_0.no_duplicates(),
{
    signer_keys_are_signing_accounts(instruction_accounts(ctx, first as int), key);
}

/// Every account an operation names is one of the instruction's accounts other
/// than the stake account itself.
pub proof fn operation_accounts_are_instruction_accounts(
    first: usize,
    instruction: Option<StakeInstruction>,
    ctx: InvocationContext,
)
    requires
        dispatch(first, instruction, ctx) is Ok,
    ensures
        dispatch(first, instruction, ctx) matches Ok(operation) && forall|j: int|
            0 <= j < operation_accounts(operation).len() ==> first < #[trigger] operation_accounts(
                operation,
            )[j] < ctx.keyed_accounts@.len(),
{
    assert(ctx.keyed_accounts@.len() == ctx.keyed_accounts.len());
}

/// The sysvars an operation is given are those of the sysvar cache, read
/// through the instruction accounts that hold the sysvars' addresses; the one
/// exception is an authority change while custodian consent is not in force,
/// which is given the zero clock and no custodian.
pub proof fn sysvars_come_from_their_accounts(
    first: usize,
    instruction: StakeInstruction,
    ctx: InvocationContext,
)
    requires
        dispatch(first, Some(instruction), ctx) is Ok,
    ensures
        match dispatch(first, Some(instruction), ctx) {
            Ok(OperationView::Initialize { rent, .. }) => {
                &&& ctx.sysvar_cache.rent == Some(rent)
                &&& instruction_account(ctx, first as int, 1) matches Some(account)
                    && account.key@ == rent_sysvar_address()
            },
            Ok(OperationView::Authorize { require_custodian, clock, custodian, .. }) => if require_custodian {
                &&& ctx.sysvar_cache.clock == Some(clock)
                &&& instruction_account(ctx, first as int, 1) matches Some(account)
                    && account.key@ == clock_sysvar_address()
            } else {
                clock == Clock::zeroed() && custodian is None && !custodian_feature(ctx)
            },
            Ok(OperationView::AuthorizeWithSeed { require_custodian, clock, custodian, .. }) => if require_custodian {
                &&& ctx.sysvar_cache.clock == Some(clock)
                &&& instruction_account(ctx, first as int, 2) matches Some(account)
                    && account.key@ == clock_sysvar_address()
            } else {
                clock == Clock::zeroed() && custodian is None && !custodian_feature(ctx)
            },
            Ok(OperationView::Delegate { clock, stake_history, config, .. }) => {
                &&& ctx.sysvar_cache.clock == Some(clock)
                &&& ctx.sysvar_cache.stake_history matches Some(history) && history@
                    == stake_history
                &&& instruction_account(ctx, first as int, 2) matches Some(account)
                    && account.key@ == clock_sysvar_address()
                &&& instruction_account(ctx, first as int, 3) matches Some(account)
                    && account.key@ == stake_history_sysvar_address()
                &&& instruction_account(ctx, first as int, 4) matches Some(account)
                    && account.key@ == stake_config_address() && stake_config_in(account.data@)
                    == Some(config)
            },
            Ok(OperationView::Merge { clock, stake_history, .. }) => {
                &&& ctx.sysvar_cache.clock == Some(clock)
                &&& ctx.sysvar_cache.stake_history matches Some(history) && history@
                    == stake_history
                &&& instruction_account(ctx, first as int, 2) matches Some(account)
                    && account.key@ == clock_sysvar_address()
                &&& instruction_account(ctx, first as int, 3) matches Some(account)
                    && account.key@ == stake_history_sysvar_address()
            },
            Ok(OperationView::Withdraw { clock, stake_history, .. }) => {
                &&& ctx.sysvar_cache.clock == Some(clock)
                &&& ctx.sysvar_cache.stake_history matches Some(history) && history@
                    == stake_history
                &&& instruction_account(ctx, first as int, 2) matches Some(account)
                    && account.key@ == clock_sysvar_address()
                &&& instruction_account(ctx, first as int, 3) matches Some(account)
                    && account.key@ == stake_history_sysvar_address()
            },
            Ok(OperationView::Deactivate { clock, .. }) => {
                &&& ctx.sysvar_cache.clock == Some(clock)
                &&& instruction_account(ctx, first as int, 1) matches Some(account)
                    && account.key@ == clock_sysvar_address()
            },
            Ok(OperationView::SetLockup { clock, .. }) => ctx.sysvar_cache.clock == Some(clock),
            Ok(OperationView::Split { .. }) => true,
            Err(_) => false,
        },
{
    assert(ctx.keyed_accounts@.len() == ctx.keyed_accounts.len());
}

/// A delegation that reaches its config account is refused with
/// `InvalidArgument` where that account is not the stake config account or its
/// data holds no stake config.
pub proof fn delegation_needs_stake_config(first: usize, ctx: InvocationContext)
    requires
        instruction_account(ctx, first as int, 0) matches Some(account) && account.owner@
            == stake_program_address(),
        number_of_instruction_accounts(ctx, first as int) >= 5,
        clock_from_account(ctx, first as int, 2) is Ok,
        stake_history_from_account(ctx, first as int, 3) is Ok,
        instruction_account(ctx, first as int, 4) matches Some(config) && (config.key@
            != stake_config_address() || stake_config_in(config.data@) is None),
    ensures
        dispatch(first, Some(StakeInstruction::DelegateStake), ctx) == Err::<
            OperationView,
            InstructionError,
        >(InstructionError::InvalidArgument),
{
}

/// The address of keyed account `index`, where there is one.
pub open spec fn key_of_keyed(ctx: InvocationContext, index: int) -> Option<Pubkey> {
    if 0 <= index < ctx.keyed_accounts@.len() {
        Some(ctx.keyed_accounts@[index].key)
    } else {
        None
    }
}

/// A successful `Initialize` hands on exactly the authorities and the lockup of
/// the instruction, with the cached rent.
pub proof fn initialize_carries_its_arguments(
    first: usize,
    authorized: Authorized,
    lockup: Lockup,
    ctx: InvocationContext,
)
    requires
        dispatch(first, Some(StakeInstruction::Initialize(authorized, lockup)), ctx) is Ok,
    ensures
        dispatch(first, Some(StakeInstruction::Initialize(authorized, lockup)), ctx) matches Ok(
            OperationView::Initialize { authorized: a, lockup: l, rent },
        ) && a == authorized && l == lockup && ctx.sysvar_cache.rent == Some(rent),
{
}

/// A successful `Authorize` changes the authority the instruction names to the
/// key it carries. With custodian consent in force it takes the cached clock and,
/// as custodian, the fourth instruction account where there is one; otherwise it
/// takes the zero clock and no custodian.
pub proof fn authorize_carries_its_arguments(
    first: usize,
    new_authority: Pubkey,
    stake_authorize: StakeAuthorize,
    ctx: InvocationContext,
)
    requires
        dispatch(first, Some(StakeInstruction::Authorize(new_authority, stake_authorize)), ctx)
            is Ok,
    ensures
        dispatch(first, Some(StakeInstruction::Authorize(new_authority, stake_authorize)), ctx)
            matches Ok(
            OperationView::Authorize {
                signers,
                new_authority: k,
                stake_authorize: w,
                require_custodian,
                clock,
                custodian,
            },
        ) && k == new_authority && w == stake_authorize && signers == signer_keys(
            instruction_accounts(ctx, first as int),
        ) && require_custodian == feature_active(ctx, require_custodian_feature_address()) && (
        if require_custodian {
            ctx.sysvar_cache.clock == Some(clock) && custodian == key_of_keyed(ctx, first + 3)
        } else {
            clock == Clock::zeroed() && custodian is None
        }),
{
}

/// A successful `AuthorizeWithSeed` names the second instruction account as the
/// seed's base and hands on the instruction's new authority, authority kind,
/// seed and owner. With custodian consent in force it takes the cached clock
/// and, as custodian, the fourth instruction account where there is one;
/// otherwise the zero clock and no custodian.
pub proof fn authorize_with_seed_carries_its_arguments(
    first: usize,
    args: AuthorizeWithSeedArgs,
    ctx: InvocationContext,
)
    requires
        dispatch(first, Some(StakeInstruction::AuthorizeWithSeed(args)), ctx) is Ok,
    ensures
        dispatch(first, Some(StakeInstruction::AuthorizeWithSeed(args)), ctx) matches Ok(
            OperationView::AuthorizeWithSeed {
                authority_base,
                authority_seed,
                authority_owner,
                new_authority,
                stake_authorize,
                require_custodian,
                clock,
                custodian,
            },
        ) && authority_base == first + 1 && authority_base < ctx.keyed_accounts@.len()
            && authority_seed == args.authority_seed@ && authority_owner == args.authority_owner
            && new_authority == args.new_authorized_pubkey && stake_authorize
            == args.stake_authorize && require_custodian == feature_active(
            ctx,
            require_custodian_feature_address(),
        ) && (if require_custodian {
            ctx.sysvar_cache.clock == Some(clock) && custodian == key_of_keyed(ctx, first + 3)
        } else {
            clock == Clock::zeroed() && custodian is None
        }),
{
    assert(ctx.keyed_accounts@.len() == ctx.keyed_accounts.len());
}

/// A successful `SetLockup` hands on exactly the lockup changes of the
/// instruction, custodian included, with the signers and the cached clock.
pub proof fn set_lockup_carries_its_arguments(
    first: usize,
    lockup: LockupArgs,
    ctx: InvocationContext,
)
    requires
        dispatch(first, Some(StakeInstruction::SetLockup(lockup)), ctx) is Ok,
    ensures
        dispatch(first, Some(StakeInstruction::SetLockup(lockup)), ctx) matches Ok(
            OperationView::SetLockup { lockup: l, signers, clock },
        ) && l == lockup && signers == signer_keys(instruction_accounts(ctx, first as int))
            && ctx.sysvar_cache.clock == Some(clock),
{
}

/// A successful `SetLockupChecked` hands on the instruction's time and epoch,
/// and as custodian the third instruction account, which has signed, where
/// there is one.
pub proof fn set_lockup_checked_carries_its_arguments(
    first: usize,
    args: LockupCheckedArgs,
    ctx: InvocationContext,
)
    requires
        dispatch(first, Some(StakeInstruction::SetLockupChecked(args)), ctx) is Ok,
    ensures
        dispatch(first, Some(StakeInstruction::SetLockupChecked(args)), ctx) matches Ok(
            OperationView::SetLockup { lockup, signers, clock },
        ) && lockup.unix_timestamp == args.unix_timestamp && lockup.epoch == args.epoch
            && lockup.custodian == key_of_keyed(ctx, first + 2) && (first + 2
            < ctx.keyed_accounts@.len() ==> ctx.keyed_accounts@[first + 2].is_signer) && signers
            == signer_keys(instruction_accounts(ctx, first as int)) && ctx.sysvar_cache.clock
            == Some(clock),
{
}

/// A successful `AuthorizeChecked` changes the authority the instruction names
/// to the fourth instruction account, which has signed, with the cached clock,
/// custodian consent in force, and as custodian the fifth instruction account
/// where there is one.
pub proof fn authorize_checked_carries_its_arguments(
    first: usize,
    stake_authorize: StakeAuthorize,
    ctx: InvocationContext,
)
    requires
        dispatch(first, Some(StakeInstruction::AuthorizeChecked(stake_authorize)), ctx) is Ok,
    ensures
        dispatch(first, Some(StakeInstruction::AuthorizeChecked(stake_authorize)), ctx) matches Ok(
            OperationView::Authorize {
                signers,
                new_authority,
                stake_authorize: w,
                require_custodian,
                clock,
                custodian,
            },
        ) && first + 3 < ctx.keyed_accounts@.len() && new_authority
            == ctx.keyed_accounts@[first + 3].key && ctx.keyed_accounts@[first + 3].is_signer && w
            == stake_authorize && require_custodian && ctx.sysvar_cache.clock == Some(clock)
            && custodian == key_of_keyed(ctx, first + 4) && signers == signer_keys(
            instruction_accounts(ctx, first as int),
        ),
{
}

/// A successful `AuthorizeCheckedWithSeed` names the second instruction account
/// as the seed's base, hands on the instruction's authority kind, seed and
/// owner, takes the fourth instruction account, which has signed, as the new
/// authority, with the cached clock, custodian consent in force, and as
/// custodian the fifth instruction account where there is one.
pub proof fn authorize_checked_with_seed_carries_its_arguments(
    first: usize,
    args: AuthorizeCheckedWithSeedArgs,
    ctx: InvocationContext,
)
    requires
        dispatch(first, Some(StakeInstruction::AuthorizeCheckedWithSeed(args)), ctx) is Ok,
    ensures
        dispatch(first, Some(StakeInstruction::AuthorizeCheckedWithSeed(args)), ctx) matches Ok(
            OperationView::AuthorizeWithSeed {
                authority_base,
                authority_seed,
                authority_owner,
                new_authority,
                stake_authorize,
                require_custodian,
                clock,
                custodian,
            },
        ) && authority_base == first + 1 && first + 3 < ctx.keyed_accounts@.len()
            && authority_seed == args.authority_seed@ && authority_owner == args.authority_owner
            && new_authority == ctx.keyed_accounts@[first + 3].key
            && ctx.keyed_accounts@[first + 3].is_signer && stake_authorize == args.stake_authorize
            && require_custodian && ctx.sysvar_cache.clock == Some(clock) && custodian
            == key_of_keyed(ctx, first + 4),
{
    assert(ctx.keyed_accounts@.len() == ctx.keyed_accounts.len());
}

/// A successful `InitializeChecked` takes the third instruction account as
/// staker and the fourth, which has signed, as withdrawer, with the default
/// lockup and the cached rent.
pub proof fn initialize_checked_carries_its_arguments(first: usize, ctx: InvocationContext)
    requires
        dispatch(first, Some(StakeInstruction::InitializeChecked), ctx) is Ok,
    ensures
        dispatch(first, Some(StakeInstruction::InitializeChecked), ctx) matches Ok(
            OperationView::Initialize { authorized, lockup, rent },
        ) && first + 3 < ctx.keyed_accounts@.len() && authorized.staker
            == ctx.keyed_accounts@[first + 2].key && authorized.withdrawer
            == ctx.keyed_accounts@[first + 3].key && ctx.keyed_accounts@[first + 3].is_signer
            && lockup == Lockup::unlocked() && ctx.sysvar_cache.rent == Some(rent),
{
}

/// A successful `Split` hands on the instruction's amount, names the second
/// instruction account as the destination, and hands on the signers.
pub proof fn split_carries_its_arguments(first: usize, lamports: u64, ctx: InvocationContext)
    requires
        dispatch(first, Some(StakeInstruction::Split(lamports)), ctx) is Ok,
    ensures
        dispatch(first, Some(StakeInstruction::Split(lamports)), ctx) matches Ok(
            OperationView::Split { lamports: l, split_to, signers },
        ) && l == lamports && split_to == first + 1 && signers == signer_keys(
            instruction_accounts(ctx, first as int),
        ),
{
    assert(ctx.keyed_accounts@.len() == ctx.keyed_accounts.len());
}

/// A successful `Withdraw` hands on the instruction's amount, names the second
/// instruction account as the recipient, the fifth as the withdraw authority and
/// the sixth, where there is one, as the custodian, with the cached clock.
pub proof fn withdraw_carries_its_arguments(first: usize, lamports: u64, ctx: InvocationContext)
    requires
        dispatch(first, Some(StakeInstruction::Withdraw(lamports)), ctx) is Ok,
    ensures
        dispatch(first, Some(StakeInstruction::Withdraw(lamports)), ctx) matches Ok(
            OperationView::Withdraw {
                lamports: l,
                recipient,
                clock,
                stake_history,
                withdraw_authority,
                custodian,
            },
        ) && l == lamports && recipient == first + 1 && withdraw_authority == first + 4 && (
        if first + 5 < ctx.keyed_accounts@.len() {
            custodian == Some((first + 5) as usize)
        } else {
            custodian is None
        }) && ctx.sysvar_cache.clock == Some(clock),
{
    assert(ctx.keyed_accounts@.len() == ctx.keyed_accounts.len());
}

/// A successful `DelegateStake` names the second instruction account as the
/// vote account and hands on the cached clock and stake history, the signers,
/// and the stake config held by the fifth instruction account.
pub proof fn delegation_carries_its_accounts(first: usize, ctx: InvocationContext)
    requires
        dispatch(first, Some(StakeInstruction::DelegateStake), ctx) is Ok,
    ensures
        dispatch(first, Some(StakeInstruction::DelegateStake), ctx) matches Ok(
            OperationView::Delegate { vote_account, clock, stake_history, config, signers },
        ) && vote_account == first + 1 && first + 4 < ctx.keyed_accounts@.len()
            && ctx.sysvar_cache.clock == Some(clock) && (ctx.sysvar_cache.stake_history matches Some(
            history,
        ) && history@ == stake_history) && stake_config_in(ctx.keyed_accounts@[first + 4].data@)
            == Some(config) && signers == signer_keys(instruction_accounts(ctx, first as int)),
{
    assert(ctx.keyed_accounts@.len() == ctx.keyed_accounts.len());
}

/// A successful `Merge` names the second instruction account as the source and
/// hands on the cached clock and stake history and the signers.
pub proof fn merge_carries_its_accounts(first: usize, ctx: InvocationContext)
    requires
        dispatch(first, Some(StakeInstruction::Merge), ctx) is Ok,
    ensures
        dispatch(first, Some(StakeInstruction::Merge), ctx) matches Ok(
            OperationView::Merge { source, clock, stake_history, signers },
        ) && source == first + 1 && ctx.sysvar_cache.clock == Some(clock) && (
        ctx.sysvar_cache.stake_history matches Some(history) && history@ == stake_history)
            && signers == signer_keys(instruction_accounts(ctx, first as int)),
{
    assert(ctx.keyed_accounts@.len() == ctx.keyed_accounts.len());
}

/// A successful `Deactivate` hands on the cached clock and the signers.
pub proof fn deactivate_carries_its_clock(first: usize, ctx: InvocationContext)
    requires
        dispatch(first, Some(StakeInstruction::Deactivate), ctx) is Ok,
    ensures
        dispatch(first, Some(StakeInstruction::Deactivate), ctx) matches Ok(
            OperationView::Deactivate { clock, signers },
        ) && ctx.sysvar_cache.clock == Some(clock) && signers == signer_keys(
            instruction_accounts(ctx, first as int),
        ),
{
}

} // verus!
