use vstd::prelude::*;

use crate::pubkey::Pubkey;

verus! {

/// The clock sysvar: where the cluster is in slots, epochs and wall time.
#[derive(Clone, Copy, Debug, PartialEq, Eq)]
pub struct Clock {
    pub slot: u64,
    pub epoch_start_timestamp: i64,
    pub epoch: u64,
    pub leader_schedule_epoch: u64,
    pub unix_timestamp: i64,
}

impl Clock {
    /// The clock whose fields are all zero.
    pub open spec fn zeroed() -> Clock {
        Clock { slot: 0, epoch_start_timestamp: 0, epoch: 0, leader_schedule_epoch: 0, unix_timestamp: 0 }
    }
}

impl Default for Clock {
    /// All fields zero, as the SDK's derived default.
    fn default() -> (r: Clock)
        ensures
            r == Clock::zeroed(),
    {
        Clock { slot: 0, epoch_start_timestamp: 0, epoch: 0, leader_schedule_epoch: 0, unix_timestamp: 0 }
    }
}

/// The rent sysvar. The exemption threshold is a float in the SDK; it is held
/// here as its IEEE-754 bit pattern and only carried through.
#[derive(Clone, Copy, Debug, PartialEq, Eq)]
pub struct Rent {
    pub lamports_per_byte_year: u64,
    pub exemption_threshold_bits: u64,
    pub burn_percent: u8,
}

/// One epoch's entry of the stake history sysvar.
#[derive(Clone, Copy, Debug, PartialEq, Eq)]
pub struct StakeHistoryEntry {
    pub epoch: u64,
    pub effective: u64,
    pub activating: u64,
    pub deactivating: u64,
}

/// Which of the two authorities of a stake account an instruction names.
#[derive(Clone, Copy, Debug, PartialEq, Eq)]
pub enum StakeAuthorize {
    Staker,
    Withdrawer,
}

/// The staker and withdrawer authorities of a stake account.
#[derive(Clone, Copy, Debug, PartialEq, Eq)]
pub struct Authorized {
    pub staker: Pubkey,
    pub withdrawer: Pubkey,
}

/// The lockup of a stake account.
#[derive(Clone, Copy, Debug, PartialEq, Eq)]
pub struct Lockup {
    pub unix_timestamp: i64,
    pub epoch: u64,
    pub custodian: Pubkey,
}

impl Lockup {
    /// The lockup that `Lockup::default()` gives in the SDK: no time, no epoch,
    /// the all-zero custodian.
    pub open spec fn unlocked() -> Lockup {
        Lockup { unix_timestamp: 0, epoch: 0, custodian: Pubkey::zeroed() }
    }

    /// The default lockup.
    pub fn none() -> (r: Lockup)
        ensures
            r == Lockup::unlocked(),
    {
        Lockup { unix_timestamp: 0, epoch: 0, custodian: Pubkey::zero() }
    }
}

/// The changes that a lockup update asks for.
#[derive(Clone, Copy, Debug, PartialEq, Eq)]
pub struct LockupArgs {
    pub unix_timestamp: Option<i64>,
    pub epoch: Option<u64>,
    pub custodian: Option<Pubkey>,
}

/// The changes that a checked lockup update carries in its data; the custodian
/// comes from a signing account.
#[derive(Clone, Copy, Debug, PartialEq, Eq)]
pub struct LockupCheckedArgs {
    pub unix_timestamp: Option<i64>,
    pub epoch: Option<u64>,
}

/// Arguments of an authority change signed by an address derived with a seed.
#[derive(Clone, Debug, PartialEq, Eq)]
pub struct AuthorizeWithSeedArgs {
    pub new_authorized_pubkey: Pubkey,
    pub stake_authorize: StakeAuthorize,
    pub authority_seed: String,
    pub authority_owner: Pubkey,
}

/// Arguments of a checked authority change signed by an address derived with a
/// seed; the new authority comes from a signing account.
#[derive(Clone, Debug, PartialEq, Eq)]
pub struct AuthorizeCheckedWithSeedArgs {
    pub stake_authorize: StakeAuthorize,
    pub authority_seed: String,
    pub authority_owner: Pubkey,
}

/// The instructions of the stake program, as the instruction data decodes.
#[derive(Clone, Debug, PartialEq, Eq)]
pub enum StakeInstruction {
    Initialize(Authorized, Lockup),
    Authorize(Pubkey, StakeAuthorize),
    DelegateStake,
    Split(u64),
    Withdraw(u64),
    Deactivate,
    SetLockup(LockupArgs),
    Merge,
    AuthorizeWithSeed(AuthorizeWithSeedArgs),
    InitializeChecked,
    AuthorizeChecked(StakeAuthorize),
    AuthorizeCheckedWithSeed(AuthorizeCheckedWithSeedArgs),
    SetLockupChecked(LockupCheckedArgs),
}

/// The errors with which the dispatch refuses an instruction.
#[derive(Clone, Copy, Debug, PartialEq, Eq)]
pub enum InstructionError {
    NotEnoughAccountKeys,
    InvalidAccountOwner,
    InvalidInstructionData,
    InvalidArgument,
    MissingRequiredSignature,
    UnsupportedSysvar,
}

/// An account as the instruction sees it: its address, whether it signed the
/// transaction, the program that owns it, and the data it holds.
#[derive(Clone, Debug, PartialEq, Eq)]
pub struct KeyedAccount {
    pub key: Pubkey,
    pub is_signer: bool,
    pub owner: Pubkey,
    pub data: Vec<u8>,
}

/// The stake config that the stake config account holds. The warmup and
/// cooldown rate is a float in the SDK; it is held here as its IEEE-754 bit
/// pattern and only carried through.
#[derive(Clone, Copy, Debug, PartialEq, Eq)]
pub struct StakeConfig {
    pub warmup_cooldown_rate_bits: u64,
    pub slash_penalty: u8,
}

/// The sysvars that the runtime has cached for this invocation.
#[derive(Clone, Debug, PartialEq, Eq)]
pub struct SysvarCache {
    pub clock: Option<Clock>,
    pub rent: Option<Rent>,
    pub stake_history: Option<Vec<StakeHistoryEntry>>,
}

/// The addresses of the features active on the cluster.
#[derive(Clone, Debug, PartialEq, Eq)]
pub struct FeatureSet {
    pub active: Vec<Pubkey>,
}

/// What an invocation of the stake program reads: the keyed accounts (the
/// program's own accounts first, then the instruction's accounts), the sysvar
/// cache and the feature set.
#[derive(Clone, Debug, PartialEq, Eq)]
pub struct InvocationContext {
    pub keyed_accounts: Vec<KeyedAccount>,
    pub sysvar_cache: SysvarCache,
    pub feature_set: FeatureSet,
}

} // verus!
