use vstd::prelude::*;

use crate::pubkey::Pubkey;

verus! {

/// The address of the stake program (`Stake11111111111111111111111111111111111111`).
pub open spec fn stake_program_address() -> Seq<u8> {
    seq![
        6u8, 161u8, 216u8, 23u8, 145u8, 55u8, 84u8, 42u8,
        152u8, 52u8, 55u8, 189u8, 254u8, 42u8, 122u8, 178u8,
        85u8, 127u8, 83u8, 92u8, 138u8, 120u8, 114u8, 43u8,
        104u8, 164u8, 157u8, 192u8, 0u8, 0u8, 0u8, 0u8,
    ]
}

/// Calls `solana_sdk::stake::program::id`, which returns the address `Stake11111111111111111111111111111111111111`: the contract states its bytes.
#[verifier::external_body]
pub(crate) fn stake_program_id() -> (id: Pubkey)
    ensures
        id@ == stake_program_address(),
{
    Pubkey { bytes: solana_sdk::stake::program::id().to_bytes() }
}

/// The address of the stake config account (`StakeConfig11111111111111111111111111111111`).
pub open spec fn stake_config_address() -> Seq<u8> {
    seq![
        6u8, 161u8, 216u8, 23u8, 165u8, 2u8, 5u8, 11u8,
        104u8, 7u8, 145u8, 230u8, 206u8, 109u8, 184u8, 142u8,
        30u8, 91u8, 113u8, 80u8, 246u8, 31u8, 198u8, 121u8,
        10u8, 78u8, 180u8, 209u8, 0u8, 0u8, 0u8, 0u8,
    ]
}

/// Calls `solana_sdk::stake::config::id`, which returns the address `StakeConfig11111111111111111111111111111111`: the contract states its bytes.
#[verifier::external_body]
#[allow(deprecated)]
pub(crate) fn stake_config_id() -> (id: Pubkey)
    ensures
        id@ == stake_config_address(),
{
    Pubkey { bytes: solana_sdk::stake::config::id().to_bytes() }
}

/// The address of the clock sysvar (`SysvarC1ock11111111111111111111111111111111`).
pub open spec fn clock_sysvar_address() -> Seq<u8> {
    seq![
        6u8, 167u8, 213u8, 23u8, 24u8, 199u8, 116u8, 201u8,
        40u8, 86u8, 99u8, 152u8, 105u8, 29u8, 94u8, 182u8,
        139u8, 94u8, 184u8, 163u8, 155u8, 75u8, 109u8, 92u8,
        115u8, 85u8, 91u8, 33u8, 0u8, 0u8, 0u8, 0u8,
    ]
}

/// Calls `solana_sdk::sysvar::clock::id`, which returns the address `SysvarC1ock11111111111111111111111111111111`: the contract states its bytes.
#[verifier::external_body]
pub(crate) fn clock_sysvar_id() -> (id: Pubkey)
    ensures
        id@ == clock_sysvar_address(),
{
    Pubkey { bytes: solana_sdk::sysvar::clock::id().to_bytes() }
}

/// The address of the rent sysvar (`SysvarRent111111111111111111111111111111111`).
pub open spec fn rent_sysvar_address() -> Seq<u8> {
    seq![
        6u8, 167u8, 213u8, 23u8, 25u8, 44u8, 92u8, 81u8,
        33u8, 140u8, 201u8, 76u8, 61u8, 74u8, 241u8, 127u8,
        88u8, 218u8, 238u8, 8u8, 155u8, 161u8, 253u8, 68u8,
        227u8, 219u8, 217u8, 138u8, 0u8, 0u8, 0u8, 0u8,
    ]
}

/// Calls `solana_sdk::sysvar::rent::id`, which returns the address `SysvarRent111111111111111111111111111111111`: the contract states its bytes.
#[verifier::external_body]
pub(crate) fn rent_sysvar_id() -> (id: Pubkey)
    ensures
        id@ == rent_sysvar_address(),
{
    Pubkey { bytes: solana_sdk::sysvar::rent::id().to_bytes() }
}

/// The address of the stake history sysvar (`SysvarStakeHistory1111111111111111111111111`).
pub open spec fn stake_history_sysvar_address() -> Seq<u8> {
    seq![
        6u8, 167u8, 213u8, 23u8, 25u8, 53u8, 132u8, 208u8,
        254u8, 237u8, 155u8, 179u8, 67u8, 29u8, 19u8, 32u8,
        107u8, 229u8, 68u8, 40u8, 27u8, 87u8, 184u8, 86u8,
        108u8, 197u8, 55u8, 95u8, 244u8, 0u8, 0u8, 0u8,
    ]
}

/// Calls `solana_sdk::sysvar::stake_history::id`, which returns the address `SysvarStakeHistory1111111111111111111111111`: the contract states its bytes.
#[verifier::external_body]
pub(crate) fn stake_history_sysvar_id() -> (id: Pubkey)
    ensures
        id@ == stake_history_sysvar_address(),
{
    Pubkey { bytes: solana_sdk::sysvar::stake_history::id().to_bytes() }
}

/// The address of the feature that makes an authority change of locked stake consult the lockup custodian (`D4jsDcXaqdW8tDAWn8H4R25Cdns2YwLneujSL1zvjW6R`).
pub open spec fn require_custodian_feature_address() -> Seq<u8> {
    seq![
        179u8, 65u8, 116u8, 62u8, 127u8, 156u8, 183u8, 101u8,
        161u8, 134u8, 91u8, 172u8, 114u8, 58u8, 82u8, 207u8,
        190u8, 114u8, 22u8, 234u8, 0u8, 54u8, 174u8, 80u8,
        202u8, 25u8, 230u8, 55u8, 250u8, 122u8, 122u8, 78u8,
    ]
}

/// Calls `solana_sdk::feature_set::require_custodian_for_locked_stake_authorize::id`, which returns the address `D4jsDcXaqdW8tDAWn8H4R25Cdns2YwLneujSL1zvjW6R`: the contract states its bytes.
#[verifier::external_body]
pub(crate) fn require_custodian_feature_id() -> (id: Pubkey)
    ensures
        id@ == require_custodian_feature_address(),
{
    Pubkey { bytes: solana_sdk::feature_set::require_custodian_for_locked_stake_authorize::id().to_bytes() }
}

/// The address of the feature that enables the checked stake instructions (`BcWknVcgvonN8sL4HE4XFuEVgfcee5MwxWPAgP6ZV89X`).
pub open spec fn checked_instructions_feature_address() -> Seq<u8> {
    seq![
        157u8, 173u8, 215u8, 112u8, 73u8, 156u8, 166u8, 251u8,
        75u8, 40u8, 93u8, 57u8, 57u8, 144u8, 81u8, 198u8,
        220u8, 207u8, 35u8, 73u8, 234u8, 13u8, 87u8, 53u8,
        230u8, 75u8, 11u8, 143u8, 17u8, 46u8, 92u8, 106u8,
    ]
}

/// Calls `solana_sdk::feature_set::vote_stake_checked_instructions::id`, which returns the address `BcWknVcgvonN8sL4HE4XFuEVgfcee5MwxWPAgP6ZV89X`: the contract states its bytes.
#[verifier::external_body]
pub(crate) fn checked_instructions_feature_id() -> (id: Pubkey)
    ensures
        id@ == checked_instructions_feature_address(),
{
    Pubkey { bytes: solana_sdk::feature_set::vote_stake_checked_instructions::id().to_bytes() }
}

} // verus!
