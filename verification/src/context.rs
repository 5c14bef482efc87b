//! What the dispatch reads from an invocation: its instruction accounts, the
//! sysvars behind them, and the feature set.

use vstd::prelude::*;

use crate::ids::{
    clock_sysvar_address, clock_sysvar_id, rent_sysvar_address, rent_sysvar_id,
    stake_history_sysvar_address, stake_history_sysvar_id,
};
use crate::model::{
    Clock, InstructionError, InvocationContext, KeyedAccount, Rent, StakeHistoryEntry,
};
use crate::pubkey::Pubkey;

verus! {

/// The instruction account at `position`, where the instruction's accounts
/// start at keyed account `first`.
pub open spec fn instruction_account(ctx: InvocationContext, first: int, position: int) -> Option<
    KeyedAccount,
> {
    if 0 <= first && 0 <= position && first + position < ctx.keyed_accounts@.len() {
        Some(ctx.keyed_accounts@[first + position])
    } else {
        None
    }
}

/// How many accounts the instruction has.
pub open spec fn number_of_instruction_accounts(ctx: InvocationContext, first: int) -> int {
    ctx.keyed_accounts@.len() - first
}

/// The instruction's accounts.
pub open spec fn instruction_accounts(ctx: InvocationContext, first: int) -> Seq<KeyedAccount> {
    ctx.keyed_accounts@.subrange(first, ctx.keyed_accounts@.len() as int)
}

/// The addresses of the accounts that signed, each once, in the order in which
/// they first sign.
pub open spec fn signer_keys(accounts: Seq<KeyedAccount>) -> Seq<Pubkey>
    decreases accounts.len(),
{
    if accounts.len() == 0 {
        Seq::empty()
    } else {
        let earlier = signer_keys(accounts.drop_last());
        if accounts.last().is_signer && !earlier.contains(accounts.last().key) {
            earlier.push(accounts.last().key)
        } else {
            earlier
        }
    }
}

/// The check that the instruction account at `position` is the sysvar with
/// address `id`.
pub open spec fn sysvar_account_check(
    ctx: InvocationContext,
    first: int,
    position: int,
    id: Seq<u8>,
) -> Result<(), InstructionError> {
    match instruction_account(ctx, first, position) {
        None => Err(InstructionError::NotEnoughAccountKeys),
        Some(account) => if account.key@ == id {
            Ok(())
        } else {
            Err(InstructionError::InvalidArgument)
        },
    }
}

/// The clock, read through the instruction account at `position`.
pub open spec fn clock_from_account(ctx: InvocationContext, first: int, position: int) -> Result<
    Clock,
    InstructionError,
> {
    match sysvar_account_check(ctx, first, position, clock_sysvar_address()) {
        Err(e) => Err(e),
        Ok(()) => cached_clock(ctx),
    }
}

/// The clock from the sysvar cache.
pub open spec fn cached_clock(ctx: InvocationContext) -> Result<Clock, InstructionError> {
    match ctx.sysvar_cache.clock {
        Some(clock) => Ok(clock),
        None => Err(InstructionError::UnsupportedSysvar),
    }
}

/// The rent, read through the instruction account at `position`.
pub open spec fn rent_from_account(ctx: InvocationContext, first: int, position: int) -> Result<
    Rent,
    InstructionError,
> {
    match sysvar_account_check(ctx, first, position, rent_sysvar_address()) {
        Err(e) => Err(e),
        Ok(()) => match ctx.sysvar_cache.rent {
            Some(rent) => Ok(rent),
            None => Err(InstructionError::UnsupportedSysvar),
        },
    }
}

/// The stake history, read through the instruction account at `position`.
pub open spec fn stake_history_from_account(
    ctx: InvocationContext,
    first: int,
    position: int,
) -> Result<Seq<StakeHistoryEntry>, InstructionError> {
    match sysvar_account_check(ctx, first, position, stake_history_sysvar_address()) {
        Err(e) => Err(e),
        Ok(()) => match ctx.sysvar_cache.stake_history {
            Some(history) => Ok(history@),
            None => Err(InstructionError::UnsupportedSysvar),
        },
    }
}

/// Whether the feature with address `id` is active.
pub open spec fn feature_active(ctx: InvocationContext, id: Seq<u8>) -> bool {
    exists|j: int| 0 <= j < ctx.feature_set.active@.len() && #[trigger] ctx.feature_set.active@[j]@ == id
}

/// The keyed-account index of the instruction account at `position`, or
/// `NotEnoughAccountKeys` where the instruction has no such account.
pub fn instruction_account_index(ctx: &InvocationContext, first: usize, position: usize) -> (r:
    Result<usize, InstructionError>)
    ensures
        r is Ok <==> instruction_account(*ctx, first as int, position as int) is Some,
        r matches Ok(at) ==> at == first + position,
        r is Err ==> r == Err::<usize, InstructionError>(InstructionError::NotEnoughAccountKeys),
{
    let len = ctx.keyed_accounts.len();
    if first < len && position < len - first {
        Ok(first + position)
    } else {
        Err(InstructionError::NotEnoughAccountKeys)
    }
}

/// `NotEnoughAccountKeys` where the instruction has fewer than `expected_at_least`
/// accounts.
pub fn check_number_of_instruction_accounts(
    ctx: &InvocationContext,
    first: usize,
    expected_at_least: usize,
) -> (r: Result<(), InstructionError>)
    ensures
        r is Ok <==> number_of_instruction_accounts(*ctx, first as int) >= expected_at_least,
        r is Err ==> r == Err::<(), InstructionError>(InstructionError::NotEnoughAccountKeys),
{
    let len = ctx.keyed_accounts.len();
    if first <= len && expected_at_least <= len - first {
        Ok(())
    } else {
        Err(InstructionError::NotEnoughAccountKeys)
    }
}

/// Checks that the instruction account at `position` has address `id`.
fn check_sysvar_account(ctx: &InvocationContext, first: usize, position: usize, id: &Pubkey) -> (r:
    Result<(), InstructionError>)
    ensures
        r == sysvar_account_check(*ctx, first as int, position as int, id@),
{
    match instruction_account_index(ctx, first, position) {
        Err(e) => Err(e),
        Ok(at) => {
            if ctx.keyed_accounts[at].key.same_as(id) {
                Ok(())
            } else {
                Err(InstructionError::InvalidArgument)
            }
        },
    }
}

/// The clock from the sysvar cache, or `UnsupportedSysvar`.
pub fn get_cached_clock(ctx: &InvocationContext) -> (r: Result<Clock, InstructionError>)
    ensures
        r == cached_clock(*ctx),
{
    match ctx.sysvar_cache.clock {
        Some(clock) => Ok(clock),
        None => Err(InstructionError::UnsupportedSysvar),
    }
}

/// The clock, where the instruction account at `position` is the clock sysvar.
pub fn get_clock_with_account_check(ctx: &InvocationContext, first: usize, position: usize) -> (r:
    Result<Clock, InstructionError>)
    ensures
        r == clock_from_account(*ctx, first as int, position as int),
{
    let id = clock_sysvar_id();
    match check_sysvar_account(ctx, first, position, &id) {
        Err(e) => Err(e),
        Ok(()) => get_cached_clock(ctx),
    }
}

/// The rent, where the instruction account at `position` is the rent sysvar.
pub fn get_rent_with_account_check(ctx: &InvocationContext, first: usize, position: usize) -> (r:
    Result<Rent, InstructionError>)
    ensures
        r == rent_from_account(*ctx, first as int, position as int),
{
    let id = rent_sysvar_id();
    match check_sysvar_account(ctx, first, position, &id) {
        Err(e) => Err(e),
        Ok(()) => match ctx.sysvar_cache.rent {
            Some(rent) => Ok(rent),
            None => Err(InstructionError::UnsupportedSysvar),
        },
    }
}

/// A copy of a stake history.
fn copy_history(history: &Vec<StakeHistoryEntry>) -> (r: Vec<StakeHistoryEntry>)
    ensures
        r@ == history@,
{
    let mut r: Vec<StakeHistoryEntry> = Vec::new();
    let mut i: usize = 0;
    while i < history.len()
        invariant
            0 <= i <= history.len(),
            r@ == history@.subrange(0, i as int),
        decreases history.len() - i,
    {
        r.push(history[i]);
        i = i + 1;
        assert(r@ =~= history@.subrange(0, i as int));
    }
    assert(history@.subrange(0, history.len() as int) =~= history@);
    r
}

/// The stake history, where the instruction account at `position` is the stake
/// history sysvar.
pub fn get_stake_history_with_account_check(
    ctx: &InvocationContext,
    first: usize,
    position: usize,
) -> (r: Result<Vec<StakeHistoryEntry>, InstructionError>)
    ensures
        match stake_history_from_account(*ctx, first as int, position as int) {
            Ok(history) => r matches Ok(copy) && copy@ == history,
            Err(e) => r == Err::<Vec<StakeHistoryEntry>, InstructionError>(e),
        },
{
    let id = stake_history_sysvar_id();
    match check_sysvar_account(ctx, first, position, &id) {
        Err(e) => Err(e),
        Ok(()) => match &ctx.sysvar_cache.stake_history {
            Some(history) => Ok(copy_history(history)),
            None => Err(InstructionError::UnsupportedSysvar),
        },
    }
}

/// Whether the feature with address `id` is active.
pub fn is_feature_active(ctx: &InvocationContext, id: &Pubkey) -> (r: bool)
    ensures
        r == feature_active(*ctx, id@),
{
    let active = &ctx.feature_set.active;
    let mut i: usize = 0;
    while i < active.len()
        invariant
            0 <= i <= active.len(),
            active == &ctx.feature_set.active,
            forall|j: int| 0 <= j < i ==> active@[j]@ != id@,
        decreases active.len() - i,
    {
        if active[i].same_as(id) {
            return true;
        }
        i = i + 1;
    }
    false
}

/// Whether `keys` holds `key`.
fn holds_key(keys: &Vec<Pubkey>, key: &Pubkey) -> (r: bool)
    ensures
        r == keys@.contains(*key),
{
    let mut i: usize = 0;
    while i < keys.len()
        invariant
            0 <= i <= keys.len(),
            forall|j: int| 0 <= j < i ==> keys@[j] != *key,
        decreases keys.len() - i,
    {
        if keys[i].same_as(key) {
            assert(keys@[i as int] == *key);
            return true;
        }
        i = i + 1;
    }
    false
}

/// The addresses of the instruction's accounts that signed, each once, in the
/// order in which they first sign.
pub fn collect_signers(ctx: &InvocationContext, first: usize) -> (r: Vec<Pubkey>)
    requires
        first <= ctx.keyed_accounts@.len(),
    ensures
        r@ == signer_keys(instruction_accounts(*ctx, first as int)),
{
    let accounts = &ctx.keyed_accounts;
    let mut r: Vec<Pubkey> = Vec::new();
    let mut i: usize = first;
    while i < accounts.len()
        invariant
            first <= i <= accounts.len(),
            accounts == &ctx.keyed_accounts,
            r@ == signer_keys(accounts@.subrange(first as int, i as int)),
        decreases accounts.len() - i,
    {
        assert(accounts@.subrange(first as int, i + 1).drop_last() =~= accounts@.subrange(
            first as int,
            i as int,
        ));
        if accounts[i].is_signer && !holds_key(&r, &accounts[i].key) {
            r.push(accounts[i].key);
        }
        i = i + 1;
    }
    r
}

} // verus!
