//! Decoding of stake instruction data.

use vstd::prelude::*;

use solana_sdk::program_utils::limited_deserialize;
use solana_sdk::stake::instruction::StakeInstruction as Wire;
use solana_sdk::stake::state::StakeAuthorize as WireAuthorize;

use crate::model::{
    AuthorizeCheckedWithSeedArgs, AuthorizeWithSeedArgs, Authorized, Lockup, LockupArgs,
    LockupCheckedArgs, StakeAuthorize, StakeInstruction,
};
use crate::pubkey::Pubkey;

verus! {

/// What `solana_sdk::program_utils::limited_deserialize` gives when it decodes
/// instruction data as the SDK's `StakeInstruction` (bincode, limited to the
/// packet size, trailing bytes ignored), taken field by field; `None` where the
/// data does not decode, or decodes as an instruction other than these.
pub uninterp spec fn decoded_instruction(data: Seq<u8>) -> Option<StakeInstruction>;

/// The part of the instructions that each decoding call converts.
pub open spec fn instruction_part(instruction: StakeInstruction) -> nat {
    match instruction {
        StakeInstruction::DelegateStake => 0,
        StakeInstruction::Split(_) => 0,
        StakeInstruction::Withdraw(_) => 0,
        StakeInstruction::Deactivate => 0,
        StakeInstruction::Merge => 0,
        StakeInstruction::InitializeChecked => 0,
        StakeInstruction::Initialize(..) => 1,
        StakeInstruction::SetLockup(_) => 1,
        StakeInstruction::SetLockupChecked(_) => 1,
        StakeInstruction::Authorize(..) => 2,
        StakeInstruction::AuthorizeChecked(_) => 2,
        StakeInstruction::AuthorizeWithSeed(_) => 3,
        StakeInstruction::AuthorizeCheckedWithSeed(_) => 4,
    }
}

/// The instruction where it is in `part`.
pub open spec fn in_part(decoded: Option<StakeInstruction>, part: nat) -> Option<StakeInstruction> {
    match decoded {
        Some(instruction) => if instruction_part(instruction) == part {
            Some(instruction)
        } else {
            None
        },
        None => None,
    }
}

/// Calls `solana_sdk::program_utils::limited_deserialize` and converts the
/// instructions without addresses or authorities.
#[verifier::external_body]
fn decode_plain(data: &[u8]) -> (r: Option<StakeInstruction>)
    ensures
        r == in_part(decoded_instruction(data@), 0),
        data@.len() < 4 ==> r is None,
{
    Some(match limited_deserialize::<Wire>(data).ok()? {
        Wire::DelegateStake => StakeInstruction::DelegateStake,
        Wire::Split(lamports) => StakeInstruction::Split(lamports),
        Wire::Withdraw(lamports) => StakeInstruction::Withdraw(lamports),
        Wire::Deactivate => StakeInstruction::Deactivate,
        Wire::Merge => StakeInstruction::Merge,
        Wire::InitializeChecked => StakeInstruction::InitializeChecked,
        _ => return None,
    })
}

/// Calls `solana_sdk::program_utils::limited_deserialize` and converts the
/// initialization and the lockup changes.
#[verifier::external_body]
fn decode_lockups(data: &[u8]) -> (r: Option<StakeInstruction>)
    ensures
        r == in_part(decoded_instruction(data@), 1),
        data@.len() < 4 ==> r is None,
{
    let key = |k: solana_sdk::pubkey::Pubkey| Pubkey { bytes: k.to_bytes() };
    Some(match limited_deserialize::<Wire>(data).ok()? {
        Wire::Initialize(a, l) => StakeInstruction::Initialize(
            Authorized { staker: key(a.staker), withdrawer: key(a.withdrawer) },
            Lockup { unix_timestamp: l.unix_timestamp, epoch: l.epoch, custodian: key(l.custodian) },
        ),
        Wire::SetLockup(a) => StakeInstruction::SetLockup(
            LockupArgs { unix_timestamp: a.unix_timestamp, epoch: a.epoch, custodian: a.custodian.map(key) },
        ),
        Wire::SetLockupChecked(a) => StakeInstruction::SetLockupChecked(
            LockupCheckedArgs { unix_timestamp: a.unix_timestamp, epoch: a.epoch },
        ),
        _ => return None,
    })
}

/// Calls `solana_sdk::program_utils::limited_deserialize` and converts the
/// authority changes signed by the current authority.
#[verifier::external_body]
fn decode_authorizations(data: &[u8]) -> (r: Option<StakeInstruction>)
    ensures
        r == in_part(decoded_instruction(data@), 2),
        data@.len() < 4 ==> r is None,
{
    let which = |w: WireAuthorize| match w {
        WireAuthorize::Staker => StakeAuthorize::Staker,
        WireAuthorize::Withdrawer => StakeAuthorize::Withdrawer,
    };
    Some(match limited_deserialize::<Wire>(data).ok()? {
        Wire::Authorize(k, w) => StakeInstruction::Authorize(Pubkey { bytes: k.to_bytes() }, which(w)),
        Wire::AuthorizeChecked(w) => StakeInstruction::AuthorizeChecked(which(w)),
        _ => return None,
    })
}

/// Calls `solana_sdk::program_utils::limited_deserialize` and converts the
/// authority change signed by an address derived with a seed.
#[verifier::external_body]
fn decode_seeded_authorization(data: &[u8]) -> (r: Option<StakeInstruction>)
    ensures
        r == in_part(decoded_instruction(data@), 3),
        data@.len() < 4 ==> r is None,
{
    let key = |k: solana_sdk::pubkey::Pubkey| Pubkey { bytes: k.to_bytes() };
    let which = |w: WireAuthorize| match w {
        WireAuthorize::Staker => StakeAuthorize::Staker,
        WireAuthorize::Withdrawer => StakeAuthorize::Withdrawer,
    };
    Some(match limited_deserialize::<Wire>(data).ok()? {
        Wire::AuthorizeWithSeed(a) => StakeInstruction::AuthorizeWithSeed(AuthorizeWithSeedArgs {
            new_authorized_pubkey: key(a.new_authorized_pubkey),
            stake_authorize: which(a.stake_authorize),
            authority_seed: a.authority_seed,
            authority_owner: key(a.authority_owner),
        }),
        _ => return None,
    })
}

/// Calls `solana_sdk::program_utils::limited_deserialize` and converts the
/// checked authority change signed by an address derived with a seed.
#[verifier::external_body]
fn decode_checked_seeded_authorization(data: &[u8]) -> (r: Option<StakeInstruction>)
    ensures
        r == in_part(decoded_instruction(data@), 4),
        data@.len() < 4 ==> r is None,
{
    let which = |w: WireAuthorize| match w {
        WireAuthorize::Staker => StakeAuthorize::Staker,
        WireAuthorize::Withdrawer => StakeAuthorize::Withdrawer,
    };
    Some(match limited_deserialize::<Wire>(data).ok()? {
        Wire::AuthorizeCheckedWithSeed(a) => StakeInstruction::AuthorizeCheckedWithSeed(
            AuthorizeCheckedWithSeedArgs {
                stake_authorize: which(a.stake_authorize),
                authority_seed: a.authority_seed,
                authority_owner: Pubkey { bytes: a.authority_owner.to_bytes() },
            },
        ),
        _ => return None,
    })
}

/// Decodes instruction data as the stake program does: the instruction that
/// `limited_deserialize` finds in it, or `None` where there is none; data too
/// short to hold the instruction's tag holds none.
pub fn decode_instruction(data: &[u8]) -> (r: Option<StakeInstruction>)
    ensures
        r == decoded_instruction(data@),
        data@.len() < 4 ==> r is None,
{
    if let Some(instruction) = decode_plain(data) {
        return Some(instruction);
    }
    if let Some(instruction) = decode_lockups(data) {
        return Some(instruction);
    }
    if let Some(instruction) = decode_authorizations(data) {
        return Some(instruction);
    }
    if let Some(instruction) = decode_seeded_authorization(data) {
        return Some(instruction);
    }
    decode_checked_seeded_authorization(data)
}

} // verus!
