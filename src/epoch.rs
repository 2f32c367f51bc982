//! Conversions between unix-millisecond timestamps, logical epochs and the
//! ordering keys of the subscription log store.
use vstd::prelude::*;

verus! {

/// Unix milliseconds of 2021-04-01T00:00:00Z, the origin of physical epoch time.
pub const EPOCH_ORIGIN_UNIX_MILLIS: u64 = 1617235200000;

/// An epoch holds its physical time in milliseconds above this many low bits.
pub const EPOCH_PHYSICAL_SHIFT: u64 = 65536;

/// The largest physical time, in milliseconds since the origin, that an epoch holds.
pub const MAX_PHYSICAL_MILLIS: u64 = 0xFFFF_FFFF_FFFF;

/// The top bit of an epoch; the log store flips it to order epochs as signed keys.
pub const LOGSTORE_SIGN_BIT: u64 = 0x8000_0000_0000_0000;

/// A unix-millisecond timestamp that an epoch can represent.
pub open spec fn valid_unix_millis(ms: int) -> bool {
    EPOCH_ORIGIN_UNIX_MILLIS <= ms && ms - EPOCH_ORIGIN_UNIX_MILLIS <= MAX_PHYSICAL_MILLIS
}

/// The epoch whose physical part is the timestamp `ms` and whose sequence part is zero.
pub open spec fn epoch_of_unix_millis(ms: int) -> int {
    (ms - EPOCH_ORIGIN_UNIX_MILLIS) * EPOCH_PHYSICAL_SHIFT
}

/// The unix-millisecond timestamp of an epoch's physical part.
pub open spec fn unix_millis_of_epoch(epoch: int) -> int {
    epoch / (EPOCH_PHYSICAL_SHIFT as int) + EPOCH_ORIGIN_UNIX_MILLIS
}

/// The log-store key of an epoch: the epoch with its top bit flipped, read as an `i64`.
pub open spec fn key_of_epoch(epoch: int) -> int {
    epoch - LOGSTORE_SIGN_BIT
}

/// The epoch of a log-store key.
pub open spec fn epoch_of_key(key: int) -> int {
    key + LOGSTORE_SIGN_BIT
}

/// The log-store key of a unix-millisecond timestamp.
pub open spec fn key_of_unix_millis(ms: int) -> int {
    key_of_epoch(epoch_of_unix_millis(ms))
}

/// The epoch that starts at the unix-millisecond timestamp `unix_millis`.
pub fn unix_millis_to_epoch(unix_millis: u64) -> (epoch: u64)
    requires
        valid_unix_millis(unix_millis as int),
    ensures
        epoch as int == epoch_of_unix_millis(unix_millis as int),
{
    let physical: u64 = unix_millis - EPOCH_ORIGIN_UNIX_MILLIS;
    assert(physical * EPOCH_PHYSICAL_SHIFT <= MAX_PHYSICAL_MILLIS * EPOCH_PHYSICAL_SHIFT)
        by (nonlinear_arith)
        requires physical <= MAX_PHYSICAL_MILLIS;
    physical * EPOCH_PHYSICAL_SHIFT
}

/// The unix-millisecond timestamp of an epoch's physical part.
pub fn epoch_to_unix_millis(epoch: u64) -> (unix_millis: u64)
    ensures
        unix_millis as int == unix_millis_of_epoch(epoch as int),
{
    epoch / EPOCH_PHYSICAL_SHIFT + EPOCH_ORIGIN_UNIX_MILLIS
}

/// The log-store key of a logical epoch.
pub fn convert_epoch_to_logstore_i64(epoch: u64) -> (key: i64)
    ensures
        key as int == key_of_epoch(epoch as int),
{
    if epoch >= LOGSTORE_SIGN_BIT {
        (epoch - LOGSTORE_SIGN_BIT) as i64
    } else {
        (epoch as i64) - 0x7FFF_FFFF_FFFF_FFFFi64 - 1
    }
}

/// The logical epoch of a log-store key.
pub fn convert_logstore_i64_to_epoch(key: i64) -> (epoch: u64)
    ensures
        epoch as int == epoch_of_key(key as int),
{
    if key >= 0 {
        (key as u64) + LOGSTORE_SIGN_BIT
    } else {
        (key + 0x7FFF_FFFF_FFFF_FFFFi64 + 1) as u64
    }
}

/// The log-store key of a unix-millisecond timestamp.
pub fn convert_unix_millis_to_logstore_i64(unix_millis: u64) -> (key: i64)
    requires
        valid_unix_millis(unix_millis as int),
    ensures
        key as int == key_of_unix_millis(unix_millis as int),
{
    convert_epoch_to_logstore_i64(unix_millis_to_epoch(unix_millis))
}

/// Later timestamps have greater log-store keys.
pub proof fn lemma_unix_millis_key_monotonic(a: int, b: int)
    requires
        valid_unix_millis(a),
        valid_unix_millis(b),
        a < b,
    ensures
        key_of_unix_millis(a) < key_of_unix_millis(b),
{
    assert((a - EPOCH_ORIGIN_UNIX_MILLIS) * 65536 < (b - EPOCH_ORIGIN_UNIX_MILLIS) * 65536)
        by (nonlinear_arith)
        requires a < b;
}

/// Later logical epochs have greater log-store keys.
pub proof fn lemma_epoch_key_monotonic(a: int, b: int)
    requires
        a < b,
    ensures
        key_of_epoch(a) < key_of_epoch(b),
{
}

/// Reading the timestamp back from the epoch of a timestamp gives the timestamp.
pub proof fn lemma_unix_millis_round_trip(ms: int)
    requires
        valid_unix_millis(ms),
    ensures
        unix_millis_of_epoch(epoch_of_unix_millis(ms)) == ms,
        epoch_of_key(key_of_unix_millis(ms)) == epoch_of_unix_millis(ms),
{
    let p = ms - EPOCH_ORIGIN_UNIX_MILLIS;
    assert((p * 65536) / 65536 == p) by (nonlinear_arith);
}

} // verus!
