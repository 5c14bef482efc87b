//! The stake config held in the data of the stake config account.

use vstd::prelude::*;

use crate::model::StakeConfig;

verus! {

/// What `solana_config_program::get_config_data` gives for account data: the
/// bytes after the account's list of config keys, or `None` where the list does
/// not decode.
pub uninterp spec fn config_payload(data: Seq<u8>) -> Option<Seq<u8>>;

/// Calls `solana_config_program::get_config_data`, which decodes the list of
/// config keys at the start of the data and returns the rest of the data. The
/// contract names that result, and states that it is a suffix of the data.
#[verifier::external_body]
fn config_data(data: &[u8]) -> (r: Option<&[u8]>)
    ensures
        match r {
            Some(rest) => {
                &&& config_payload(data@) == Some(rest@)
                &&& rest@.len() <= data@.len()
                &&& rest@ == data@.subrange(data@.len() - rest@.len(), data@.len() as int)
            },
            None => config_payload(data@) is None,
        },
{
    solana_config_program::get_config_data(data).ok()
}

/// The unsigned number that bytes encode, least significant byte first.
pub open spec fn little_endian(bytes: Seq<u8>) -> nat
    decreases bytes.len(),
{
    if bytes.len() == 0 {
        0
    } else {
        bytes[0] as nat + 256 * little_endian(bytes.drop_first())
    }
}

/// The stake config that bytes encode: the rate's bit pattern in the first eight
/// bytes, least significant first, then the penalty byte; later bytes are not
/// read, and fewer than nine bytes encode none.
pub open spec fn stake_config_encoded(bytes: Seq<u8>) -> Option<StakeConfig> {
    if bytes.len() >= 9 {
        Some(
            StakeConfig {
                warmup_cooldown_rate_bits: little_endian(bytes.subrange(0, 8)) as u64,
                slash_penalty: bytes[8],
            },
        )
    } else {
        None
    }
}

/// Calls `bincode::deserialize` for the SDK's stake `Config`: a float read as
/// eight little-endian bytes of its bit pattern, then a byte; trailing bytes are
/// allowed. The contract states that layout.
#[verifier::external_body]
#[allow(deprecated)]
fn deserialize_stake_config(bytes: &[u8]) -> (r: Option<StakeConfig>)
    ensures
        r == stake_config_encoded(bytes@),
{
    match bincode::deserialize::<solana_sdk::stake::config::Config>(bytes) {
        Ok(config) => Some(
            StakeConfig {
                warmup_cooldown_rate_bits: config.warmup_cooldown_rate.to_bits(),
                slash_penalty: config.slash_penalty,
            },
        ),
        Err(_) => None,
    }
}

/// The stake config that config account data holds: the config that follows
/// the account's list of keys, where both decode.
pub open spec fn stake_config_in(data: Seq<u8>) -> Option<StakeConfig> {
    match config_payload(data) {
        Some(payload) => stake_config_encoded(payload),
        None => None,
    }
}

/// The stake config that config account data holds, or `None` where it holds
/// none.
pub fn stake_config_from_data(data: &[u8]) -> (r: Option<StakeConfig>)
    ensures
        r == stake_config_in(data@),
{
    match config_data(data) {
        Some(payload) => deserialize_stake_config(payload),
        None => None,
    }
}

} // verus!
