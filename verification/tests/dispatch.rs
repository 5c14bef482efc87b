use solana_sdk::account::ReadableAccount;
use solana_sdk::stake::instruction as wire;
use solana_sdk::stake::state as wire_state;
use stake_program::model::{
    AuthorizeCheckedWithSeedArgs, Authorized, Clock, FeatureSet, InstructionError,
    InvocationContext, KeyedAccount, Lockup, LockupArgs, LockupCheckedArgs, Rent, StakeAuthorize,
    StakeConfig, StakeInstruction, SysvarCache,
};
use stake_program::operation::StakeOperation;
use stake_program::processor::process_instruction;
use stake_program::pubkey::Pubkey;

fn from_sdk(key: solana_sdk::pubkey::Pubkey) -> Pubkey {
    Pubkey { bytes: key.to_bytes() }
}

fn stake_program() -> Pubkey {
    from_sdk(solana_sdk::stake::program::id())
}

fn clock_sysvar() -> Pubkey {
    from_sdk(solana_sdk::sysvar::clock::id())
}

fn rent_sysvar() -> Pubkey {
    from_sdk(solana_sdk::sysvar::rent::id())
}

fn stake_history_sysvar() -> Pubkey {
    from_sdk(solana_sdk::sysvar::stake_history::id())
}

fn rewards_sysvar() -> Pubkey {
    from_sdk(solana_sdk::sysvar::rewards::id())
}

#[allow(deprecated)]
fn stake_config() -> Pubkey {
    from_sdk(solana_sdk::stake::config::id())
}

fn vote_program() -> Pubkey {
    from_sdk(solana_sdk::vote::program::id())
}

fn parse(text: &str) -> Pubkey {
    from_sdk(text.parse().unwrap())
}

fn invalid_stake_state_pubkey() -> Pubkey {
    parse("BadStake11111111111111111111111111111111111")
}

fn invalid_vote_state_pubkey() -> Pubkey {
    parse("BadVote111111111111111111111111111111111111")
}

fn spoofed_stake_state_pubkey() -> Pubkey {
    parse("SpoofedStake1111111111111111111111111111111")
}

fn spoofed_stake_program_id() -> Pubkey {
    parse("Spoofed111111111111111111111111111111111111")
}

fn to_sdk(key: &Pubkey) -> solana_sdk::pubkey::Pubkey {
    solana_sdk::pubkey::Pubkey::new_from_array(key.bytes)
}

fn wire_authorize(which: StakeAuthorize) -> wire_state::StakeAuthorize {
    match which {
        StakeAuthorize::Staker => wire_state::StakeAuthorize::Staker,
        StakeAuthorize::Withdrawer => wire_state::StakeAuthorize::Withdrawer,
    }
}

/// The instruction data that the SDK serializes for an instruction.
fn encode(instruction: &StakeInstruction) -> Vec<u8> {
    let wire_instruction = match instruction {
        StakeInstruction::Initialize(a, l) => wire::StakeInstruction::Initialize(
            wire_state::Authorized { staker: to_sdk(&a.staker), withdrawer: to_sdk(&a.withdrawer) },
            wire_state::Lockup {
                unix_timestamp: l.unix_timestamp,
                epoch: l.epoch,
                custodian: to_sdk(&l.custodian),
            },
        ),
        StakeInstruction::Authorize(k, w) => {
            wire::StakeInstruction::Authorize(to_sdk(k), wire_authorize(*w))
        }
        StakeInstruction::DelegateStake => wire::StakeInstruction::DelegateStake,
        StakeInstruction::Split(l) => wire::StakeInstruction::Split(*l),
        StakeInstruction::Withdraw(l) => wire::StakeInstruction::Withdraw(*l),
        StakeInstruction::Deactivate => wire::StakeInstruction::Deactivate,
        StakeInstruction::SetLockup(a) => wire::StakeInstruction::SetLockup(wire::LockupArgs {
            unix_timestamp: a.unix_timestamp,
            epoch: a.epoch,
            custodian: a.custodian.as_ref().map(to_sdk),
        }),
        StakeInstruction::Merge => wire::StakeInstruction::Merge,
        StakeInstruction::AuthorizeWithSeed(a) => {
            wire::StakeInstruction::AuthorizeWithSeed(wire::AuthorizeWithSeedArgs {
                new_authorized_pubkey: to_sdk(&a.new_authorized_pubkey),
                stake_authorize: wire_authorize(a.stake_authorize),
                authority_seed: a.authority_seed.clone(),
                authority_owner: to_sdk(&a.authority_owner),
            })
        }
        StakeInstruction::InitializeChecked => wire::StakeInstruction::InitializeChecked,
        StakeInstruction::AuthorizeChecked(w) => {
            wire::StakeInstruction::AuthorizeChecked(wire_authorize(*w))
        }
        StakeInstruction::AuthorizeCheckedWithSeed(a) => {
            wire::StakeInstruction::AuthorizeCheckedWithSeed(wire::AuthorizeCheckedWithSeedArgs {
                stake_authorize: wire_authorize(a.stake_authorize),
                authority_seed: a.authority_seed.clone(),
                authority_owner: to_sdk(&a.authority_owner),
            })
        }
        StakeInstruction::SetLockupChecked(a) => {
            wire::StakeInstruction::SetLockupChecked(wire::LockupCheckedArgs {
                unix_timestamp: a.unix_timestamp,
                epoch: a.epoch,
            })
        }
    };
    bincode::serialize(&wire_instruction).unwrap()
}

/// The data of a stake config account that holds the default config.
#[allow(deprecated)]
fn config_account_data() -> Vec<u8> {
    solana_config_program::create_config_account(
        vec![],
        &solana_sdk::stake::config::Config::default(),
        0,
    )
    .data()
    .to_vec()
}

/// The default stake config.
#[allow(deprecated)]
fn default_config() -> StakeConfig {
    let config = solana_sdk::stake::config::Config::default();
    StakeConfig {
        warmup_cooldown_rate_bits: config.warmup_cooldown_rate.to_bits(),
        slash_penalty: config.slash_penalty,
    }
}

fn unique(n: u8) -> Pubkey {
    let mut bytes = [0u8; 32];
    bytes[0] = 0xA5;
    bytes[1] = n;
    Pubkey { bytes }
}

fn default_rent() -> Rent {
    let rent = solana_sdk::rent::Rent::default();
    Rent {
        lamports_per_byte_year: rent.lamports_per_byte_year,
        exemption_threshold_bits: rent.exemption_threshold.to_bits(),
        burn_percent: rent.burn_percent,
    }
}

fn default_authorized() -> Authorized {
    Authorized { staker: Pubkey { bytes: [0; 32] }, withdrawer: Pubkey { bytes: [0; 32] } }
}

fn default_lockup() -> Lockup {
    Lockup { unix_timestamp: 0, epoch: 0, custodian: Pubkey { bytes: [0; 32] } }
}

fn all_features() -> FeatureSet {
    FeatureSet {
        active: vec![
            from_sdk(solana_sdk::feature_set::require_custodian_for_locked_stake_authorize::id()),
            from_sdk(solana_sdk::feature_set::vote_stake_checked_instructions::id()),
        ],
    }
}

/// The program that owns an account of the test cluster.
fn owner_of(key: &Pubkey) -> Pubkey {
    if *key == clock_sysvar()
        || *key == rent_sysvar()
        || *key == stake_history_sysvar()
        || *key == rewards_sysvar()
    {
        from_sdk(solana_sdk::sysvar::id())
    } else if *key == stake_config() {
        from_sdk(solana_sdk::pubkey::Pubkey::new_from_array([3; 32]))
    } else if *key == invalid_vote_state_pubkey() {
        vote_program()
    } else if *key == spoofed_stake_state_pubkey() {
        spoofed_stake_program_id()
    } else {
        stake_program()
    }
}

/// An invocation of the stake program whose transaction holds `present`
/// accounts (the sysvar cache holds the sysvars among them) and whose
/// instruction names `metas`, each with whether it signed. The program's own
/// account comes first among the keyed accounts.
fn invocation(present: &[Pubkey], metas: &[(Pubkey, bool)], features: FeatureSet) -> InvocationContext {
    let mut keyed_accounts = vec![KeyedAccount {
        key: stake_program(),
        is_signer: false,
        owner: from_sdk(solana_sdk::native_loader::id()),
        data: Vec::new(),
    }];
    for (key, is_signer) in metas {
        let data = if *key == stake_config() { config_account_data() } else { Vec::new() };
        keyed_accounts.push(KeyedAccount { key: *key, is_signer: *is_signer, owner: owner_of(key), data });
    }
    let has = |key: Pubkey| present.contains(&key) || metas.iter().any(|(k, _)| *k == key);
    InvocationContext {
        keyed_accounts,
        sysvar_cache: SysvarCache {
            clock: if has(clock_sysvar()) { Some(Clock::default()) } else { None },
            rent: if has(rent_sysvar()) { Some(default_rent()) } else { None },
            stake_history: if has(stake_history_sysvar()) { Some(Vec::new()) } else { None },
        },
        feature_set: features,
    }
}

/// Dispatches the serialized instruction as a transaction that also holds the
/// clock.
fn as_one_arg(
    instruction: StakeInstruction,
    metas: &[(Pubkey, bool)],
) -> Result<StakeOperation, InstructionError> {
    let ctx = invocation(&[clock_sysvar()], metas, all_features());
    process_instruction(1, &encode(&instruction), &ctx)
}

/// Dispatches the serialized instruction in a transaction that holds only the
/// named accounts.
fn with_accounts(
    instruction: StakeInstruction,
    metas: &[(Pubkey, bool)],
) -> Result<StakeOperation, InstructionError> {
    let ctx = invocation(&[], metas, all_features());
    process_instruction(1, &encode(&instruction), &ctx)
}

// The stake accounts of these invocations hold no stake state; the operation
// that the dispatch yields is what then refuses them.
#[test]
fn test_stake_process_instruction() {
    let stake = unique(1);
    assert_eq!(
        as_one_arg(
            StakeInstruction::Initialize(default_authorized(), default_lockup()),
            &[(stake, false), (rent_sysvar(), false)],
        ),
        Ok(StakeOperation::Initialize {
            authorized: default_authorized(),
            lockup: default_lockup(),
            rent: default_rent(),
        })
    );

    let authority = unique(2);
    let new_authority = unique(3);
    assert_eq!(
        as_one_arg(
            StakeInstruction::Authorize(new_authority, StakeAuthorize::Staker),
            &[(stake, false), (clock_sysvar(), false), (authority, true)],
        ),
        Ok(StakeOperation::Authorize {
            signers: vec![authority],
            new_authority,
            stake_authorize: StakeAuthorize::Staker,
            require_custodian: true,
            clock: Clock::default(),
            custodian: None,
        })
    );

    // split: the stake account, the new stake account, the signing authority
    let split_authority = unique(4);
    assert_eq!(
        as_one_arg(
            StakeInstruction::Split(100),
            &[(stake, false), (invalid_stake_state_pubkey(), false), (split_authority, true)],
        ),
        Ok(StakeOperation::Split { lamports: 100, split_to: 2, signers: vec![split_authority] })
    );

    assert_eq!(
        as_one_arg(
            StakeInstruction::Merge,
            &[
                (stake, false),
                (invalid_stake_state_pubkey(), false),
                (clock_sysvar(), false),
                (stake_history_sysvar(), false),
                (authority, true),
            ],
        ),
        Ok(StakeOperation::Merge {
            source: 2,
            clock: Clock::default(),
            stake_history: Vec::new(),
            signers: vec![authority],
        })
    );

    // split with seed: the same accounts as a split
    let seed_base = unique(12);
    assert_eq!(
        as_one_arg(
            StakeInstruction::Split(100),
            &[(stake, false), (invalid_stake_state_pubkey(), false), (seed_base, true)],
        ),
        Ok(StakeOperation::Split { lamports: 100, split_to: 2, signers: vec![seed_base] })
    );

    let vote = invalid_vote_state_pubkey();
    assert_eq!(
        as_one_arg(
            StakeInstruction::DelegateStake,
            &[
                (stake, false),
                (vote, false),
                (clock_sysvar(), false),
                (stake_history_sysvar(), false),
                (stake_config(), false),
                (authority, true),
            ],
        ),
        Ok(StakeOperation::Delegate {
            vote_account: 2,
            clock: Clock::default(),
            stake_history: Vec::new(),
            config: default_config(),
            signers: vec![authority],
        })
    );

    let recipient = unique(5);
    assert_eq!(
        as_one_arg(
            StakeInstruction::Withdraw(100),
            &[
                (stake, false),
                (recipient, false),
                (clock_sysvar(), false),
                (stake_history_sysvar(), false),
                (authority, true),
            ],
        ),
        Ok(StakeOperation::Withdraw {
            lamports: 100,
            recipient: 2,
            clock: Clock::default(),
            stake_history: Vec::new(),
            withdraw_authority: 5,
            custodian: None,
        })
    );

    assert_eq!(
        as_one_arg(
            StakeInstruction::Deactivate,
            &[(stake, false), (clock_sysvar(), false), (authority, true)],
        ),
        Ok(StakeOperation::Deactivate { clock: Clock::default(), signers: vec![authority] })
    );

    let lockup = LockupArgs { unix_timestamp: None, epoch: None, custodian: None };
    assert_eq!(
        as_one_arg(StakeInstruction::SetLockup(lockup), &[(stake, false), (authority, true)]),
        Ok(StakeOperation::SetLockup { lockup, signers: vec![authority], clock: Clock::default() })
    );
}

// A stake account owned by another program is refused before anything else; an
// account of another program in another place is handed to the operation,
// which checks its owner.
#[test]
fn test_spoofed_stake_accounts() {
    let spoofed = spoofed_stake_state_pubkey();
    let authority = unique(2);
    let owner_error: Result<StakeOperation, InstructionError> =
        Err(InstructionError::InvalidAccountOwner);

    assert_eq!(
        as_one_arg(
            StakeInstruction::Initialize(default_authorized(), default_lockup()),
            &[(spoofed, false), (rent_sysvar(), false)],
        ),
        owner_error
    );
    assert_eq!(
        as_one_arg(
            StakeInstruction::Authorize(unique(3), StakeAuthorize::Staker),
            &[(spoofed, false), (clock_sysvar(), false), (authority, true)],
        ),
        owner_error
    );
    assert_eq!(
        as_one_arg(
            StakeInstruction::Split(100),
            &[(spoofed, false), (unique(4), false), (authority, true)],
        ),
        owner_error
    );
    assert_eq!(
        as_one_arg(
            StakeInstruction::Split(100),
            &[(unique(5), false), (spoofed, false), (authority, true)],
        ),
        Ok(StakeOperation::Split { lamports: 100, split_to: 2, signers: vec![authority] })
    );
    let merge_accounts = |destination: Pubkey, source: Pubkey| {
        vec![
            (destination, false),
            (source, false),
            (clock_sysvar(), false),
            (stake_history_sysvar(), false),
            (authority, true),
        ]
    };
    assert_eq!(
        as_one_arg(StakeInstruction::Merge, &merge_accounts(spoofed, unique(6))),
        owner_error
    );
    assert_eq!(
        as_one_arg(StakeInstruction::Merge, &merge_accounts(unique(7), spoofed)),
        Ok(StakeOperation::Merge {
            source: 2,
            clock: Clock::default(),
            stake_history: Vec::new(),
            signers: vec![authority],
        })
    );
    assert_eq!(
        as_one_arg(
            StakeInstruction::Split(100),
            &[(spoofed, false), (unique(8), false), (unique(9), true)],
        ),
        owner_error
    );
    // split with seed into an account of another program
    assert_eq!(
        as_one_arg(
            StakeInstruction::Split(100),
            &[(unique(13), false), (spoofed, false), (unique(9), true)],
        ),
        Ok(StakeOperation::Split { lamports: 100, split_to: 2, signers: vec![unique(9)] })
    );
    assert_eq!(
        as_one_arg(
            StakeInstruction::DelegateStake,
            &[
                (spoofed, false),
                (unique(10), false),
                (clock_sysvar(), false),
                (stake_history_sysvar(), false),
                (stake_config(), false),
                (authority, true),
            ],
        ),
        owner_error
    );
    assert_eq!(
        as_one_arg(
            StakeInstruction::Withdraw(100),
            &[
                (spoofed, false),
                (unique(11), false),
                (clock_sysvar(), false),
                (stake_history_sysvar(), false),
                (authority, true),
            ],
        ),
        owner_error
    );
    assert_eq!(
        as_one_arg(
            StakeInstruction::Deactivate,
            &[(spoofed, false), (clock_sysvar(), false), (authority, true)],
        ),
        owner_error
    );
    assert_eq!(
        as_one_arg(
            StakeInstruction::SetLockup(LockupArgs { unix_timestamp: None, epoch: None, custodian: None }),
            &[(spoofed, false), (authority, true)],
        ),
        owner_error
    );
}

#[test]
fn test_stake_process_instruction_decode_bail() {
    let stake = unique(1);
    let vote = unique(2);
    let not_enough: Result<StakeOperation, InstructionError> =
        Err(InstructionError::NotEnoughAccountKeys);
    let invalid_argument: Result<StakeOperation, InstructionError> =
        Err(InstructionError::InvalidArgument);
    let initialize = || StakeInstruction::Initialize(default_authorized(), default_lockup());

    // no instruction accounts at all
    assert_eq!(with_accounts(initialize(), &[]), not_enough);

    // no account for rent
    assert_eq!(with_accounts(initialize(), &[(stake, false)]), not_enough);

    // the stake account and the rent sysvar
    assert_eq!(
        with_accounts(initialize(), &[(stake, false), (rent_sysvar(), false)]),
        Ok(StakeOperation::Initialize {
            authorized: default_authorized(),
            lockup: default_lockup(),
            rent: default_rent(),
        })
    );

    // delegation with too few accounts, twice
    assert_eq!(with_accounts(StakeInstruction::DelegateStake, &[(stake, false)]), not_enough);
    assert_eq!(with_accounts(StakeInstruction::DelegateStake, &[(stake, false)]), not_enough);

    // delegation with all its accounts
    assert_eq!(
        with_accounts(
            StakeInstruction::DelegateStake,
            &[
                (stake, true),
                (vote, false),
                (clock_sysvar(), false),
                (stake_history_sysvar(), false),
                (stake_config(), false),
            ],
        ),
        Ok(StakeOperation::Delegate {
            vote_account: 2,
            clock: Clock::default(),
            stake_history: Vec::new(),
            config: default_config(),
            signers: vec![stake],
        })
    );

    // the third account of a withdrawal must be the clock, not the rewards sysvar
    assert_eq!(
        with_accounts(
            StakeInstruction::Withdraw(42),
            &[
                (stake, false),
                (vote, false),
                (rewards_sysvar(), false),
                (stake_history_sysvar(), false),
            ],
        ),
        invalid_argument
    );

    // a withdrawal with too few accounts
    assert_eq!(with_accounts(StakeInstruction::Withdraw(42), &[(stake, false)]), not_enough);

    // the second account of a deactivation must be the clock
    assert_eq!(
        with_accounts(StakeInstruction::Deactivate, &[(stake, false), (rewards_sysvar(), false)]),
        invalid_argument
    );

    // a deactivation with no accounts
    assert_eq!(with_accounts(StakeInstruction::Deactivate, &[]), not_enough);
}

#[test]
fn test_stake_checked_instructions() {
    let stake = unique(1);
    let staker = unique(2);
    let withdrawer = unique(3);
    let authorized = unique(4);
    let custodian = unique(5);
    let missing_signature: Result<StakeOperation, InstructionError> =
        Err(InstructionError::MissingRequiredSignature);

    // InitializeChecked with a withdrawer that did not sign
    assert_eq!(
        as_one_arg(
            StakeInstruction::InitializeChecked,
            &[(stake, false), (rent_sysvar(), false), (staker, false), (withdrawer, false)],
        ),
        missing_signature
    );

    // InitializeChecked with a withdrawer that signed
    assert_eq!(
        with_accounts(
            StakeInstruction::InitializeChecked,
            &[(stake, false), (rent_sysvar(), false), (staker, false), (withdrawer, true)],
        ),
        Ok(StakeOperation::Initialize {
            authorized: Authorized { staker, withdrawer },
            lockup: default_lockup(),
            rent: default_rent(),
        })
    );

    // AuthorizeChecked with a new authority that did not sign
    for (new_authority, stake_authorize) in
        [(staker, StakeAuthorize::Staker), (withdrawer, StakeAuthorize::Withdrawer)]
    {
        assert_eq!(
            as_one_arg(
                StakeInstruction::AuthorizeChecked(stake_authorize),
                &[(stake, false), (clock_sysvar(), false), (authorized, true), (new_authority, false)],
            ),
            missing_signature
        );
    }

    // AuthorizeChecked with a new authority that signed
    for (new_authority, stake_authorize) in
        [(staker, StakeAuthorize::Staker), (withdrawer, StakeAuthorize::Withdrawer)]
    {
        assert_eq!(
            with_accounts(
                StakeInstruction::AuthorizeChecked(stake_authorize),
                &[(stake, false), (clock_sysvar(), false), (authorized, true), (new_authority, true)],
            ),
            Ok(StakeOperation::Authorize {
                signers: vec![authorized, new_authority],
                new_authority,
                stake_authorize,
                require_custodian: true,
                clock: Clock::default(),
                custodian: None,
            })
        );
    }

    // AuthorizeCheckedWithSeed with a new authority that did not sign
    let authority_owner = unique(6);
    let seed = "test seed";
    let args = |stake_authorize| AuthorizeCheckedWithSeedArgs {
        stake_authorize,
        authority_seed: seed.to_string(),
        authority_owner,
    };
    for stake_authorize in [StakeAuthorize::Staker, StakeAuthorize::Withdrawer] {
        assert_eq!(
            as_one_arg(
                StakeInstruction::AuthorizeCheckedWithSeed(args(stake_authorize)),
                &[(stake, false), (authority_owner, true), (clock_sysvar(), false), (staker, false)],
            ),
            missing_signature
        );
    }

    // AuthorizeCheckedWithSeed with a new authority that signed
    let address_with_seed = from_sdk(
        solana_sdk::pubkey::Pubkey::create_with_seed(
            &solana_sdk::pubkey::Pubkey::new_from_array(authority_owner.bytes),
            seed,
            &solana_sdk::pubkey::Pubkey::new_from_array(authority_owner.bytes),
        )
        .unwrap(),
    );
    for (new_authority, stake_authorize) in
        [(staker, StakeAuthorize::Staker), (withdrawer, StakeAuthorize::Withdrawer)]
    {
        assert_eq!(
            with_accounts(
                StakeInstruction::AuthorizeCheckedWithSeed(args(stake_authorize)),
                &[
                    (address_with_seed, false),
                    (authority_owner, true),
                    (clock_sysvar(), false),
                    (new_authority, true),
                ],
            ),
            Ok(StakeOperation::AuthorizeWithSeed {
                authority_base: 2,
                authority_seed: seed.to_string(),
                authority_owner,
                new_authority,
                stake_authorize,
                require_custodian: true,
                clock: Clock::default(),
                custodian: None,
            })
        );
    }

    // SetLockupChecked with a custodian that did not sign
    let lockup = LockupCheckedArgs { unix_timestamp: None, epoch: Some(1) };
    assert_eq!(
        as_one_arg(
            StakeInstruction::SetLockupChecked(lockup),
            &[(stake, false), (withdrawer, true), (custodian, false)],
        ),
        missing_signature
    );

    // SetLockupChecked with a custodian that signed
    let ctx = invocation(
        &[clock_sysvar()],
        &[(stake, false), (withdrawer, true), (custodian, true)],
        all_features(),
    );
    assert_eq!(
        process_instruction(1, &encode(&StakeInstruction::SetLockupChecked(lockup)), &ctx),
        Ok(StakeOperation::SetLockup {
            lockup: LockupArgs { unix_timestamp: None, epoch: Some(1), custodian: Some(custodian) },
            signers: vec![withdrawer, custodian],
            clock: Clock::default(),
        })
    );
}
