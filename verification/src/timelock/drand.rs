use vstd::prelude::*;

use crate::timelock::errors::{fail, Error, ErrorCode};
use crate::program_error::ProgramError;

verus! {

/// First eight bytes of the drand Quicknet chain hash.
pub const QUICKNET_CHAIN_HASH: [u8; 8] = [0x52, 0xdb, 0x9b, 0xa7, 0x0e, 0x06, 0x16, 0xd7];

/// Unix time of drand Quicknet round 0.
pub const QUICKNET_GENESIS: i64 = 1692803367;

/// Seconds between drand Quicknet rounds.
pub const QUICKNET_PERIOD: i64 = 3;

/// The first round published at or after `timestamp`:
/// `ceil((timestamp - genesis) / period)`, and round 1 up to genesis.
pub open spec fn round_at(timestamp: int) -> int {
    if timestamp <= QUICKNET_GENESIS {
        1
    } else {
        (timestamp - QUICKNET_GENESIS + QUICKNET_PERIOD - 1) / (QUICKNET_PERIOD as int)
    }
}

/// The time at which `round` is published: `genesis + round * period`.
pub open spec fn round_time(round: int) -> int {
    QUICKNET_GENESIS + round * QUICKNET_PERIOD
}

/// The drand round for a timestamp.
pub fn timestamp_to_round(timestamp: i64) -> (round: u64)
    ensures
        round == round_at(timestamp as int),
{
    if timestamp <= QUICKNET_GENESIS {
        return 1;
    }
    let diff = timestamp - QUICKNET_GENESIS;
    ((diff + QUICKNET_PERIOD - 1) / QUICKNET_PERIOD) as u64
}

/// The publication time of a drand round.
pub fn round_to_timestamp(round: u64) -> (timestamp: i64)
    requires
        round_time(round as int) <= i64::MAX,
    ensures
        timestamp == round_time(round as int),
{
    QUICKNET_GENESIS + (round as i64 * QUICKNET_PERIOD)
}

/// Whether all bytes of a signature equal `b`.
pub open spec fn all_bytes_are(signature: Seq<u8>, b: u8) -> bool {
    forall|i: int| 0 <= i < signature.len() ==> signature[i] == b
}

fn every_byte_is(signature: &[u8; 48], b: u8) -> (r: bool)
    ensures
        r == all_bytes_are(signature@, b),
{
    let mut i: usize = 0;
    while i < 48
        invariant
            0 <= i <= 48,
            signature@.len() == 48,
            forall|j: int| 0 <= j < i ==> signature@[j] == b,
        decreases 48 - i,
    {
        if signature[i] != b {
            return false;
        }
        i = i + 1;
    }
    true
}

/// Sanity checks on a drand beacon: the chain is Quicknet, and the signature is neither all
/// zeros nor all ones. The BLS signature itself is not checked; the hash commitment of each
/// bid is what binds a reveal.
pub fn verify_drand_signature(chain_hash: &[u8; 8], round: u64, signature: &[u8; 48]) -> (r: Result<
    (),
    Error,
>)
    ensures
        match r {
            Ok(()) => chain_hash@ == QUICKNET_CHAIN_HASH@ && !all_bytes_are(signature@, 0)
                && !all_bytes_are(signature@, 0xff),
            Err(e) => e == fail(ErrorCode::InvalidDrandSignature) && (chain_hash@
                != QUICKNET_CHAIN_HASH@ || all_bytes_are(signature@, 0) || all_bytes_are(
                signature@,
                0xff,
            )),
        },
{
    let expected = QUICKNET_CHAIN_HASH;
    let mut i: usize = 0;
    while i < 8
        invariant
            0 <= i <= 8,
            chain_hash@.len() == 8,
            expected@ == QUICKNET_CHAIN_HASH@,
            forall|j: int| 0 <= j < i ==> chain_hash@[j] == expected@[j],
        decreases 8 - i,
    {
        if chain_hash[i] != expected[i] {
            return Err(ProgramError::Custom(ErrorCode::InvalidDrandSignature));
        }
        i = i + 1;
    }
    assert(chain_hash@ =~= QUICKNET_CHAIN_HASH@);
    if every_byte_is(signature, 0) {
        return Err(ProgramError::Custom(ErrorCode::InvalidDrandSignature));
    }
    if every_byte_is(signature, 0xff) {
        return Err(ProgramError::Custom(ErrorCode::InvalidDrandSignature));
    }
    Ok(())
}

/// A round is published no earlier than the timestamp it was computed from, and less than
/// one period after it.
pub proof fn law_round_covers_timestamp(timestamp: int)
    requires
        timestamp > QUICKNET_GENESIS,
    ensures
        timestamp <= round_time(round_at(timestamp)) < timestamp + QUICKNET_PERIOD,
{
}

/// The round computed from a round's own publication time is that round.
pub proof fn law_round_of_round_time(round: int)
    requires
        round >= 1,
    ensures
        round_at(round_time(round)) == round,
{
}

} // verus!
