//! The retention-window check and the resolution of a cursor's start point.
use vstd::prelude::*;

use crate::epoch::{
    convert_epoch_to_logstore_i64, convert_unix_millis_to_logstore_i64, key_of_epoch,
    key_of_unix_millis, valid_unix_millis, EPOCH_ORIGIN_UNIX_MILLIS,
};
use crate::error::RetentionError;

verus! {

/// Where a subscription cursor starts reading the changelog.
#[derive(Clone, Copy, Debug, PartialEq, Eq, Structural)]
pub enum Since {
    /// At an explicit unix-millisecond timestamp.
    TimestampMsNum(u64),
    /// At the current logical epoch.
    ProcessTime,
    /// At the beginning of the retention window.
    Begin,
}

/// The earliest timestamp that the retention window admits (may be negative).
pub open spec fn window_start(retention_seconds: int, now_unix_millis: int) -> int {
    now_unix_millis - retention_seconds * 1000
}

/// The verdict on a requested start timestamp, against one snapshot of "now".
pub open spec fn retention_verdict(
    unix_millis: int,
    retention_seconds: int,
    now_unix_millis: int,
) -> Result<(), RetentionError> {
    if unix_millis > now_unix_millis {
        Err(RetentionError::TooLate)
    } else if unix_millis < window_start(retention_seconds, now_unix_millis) {
        Err(RetentionError::TooEarly)
    } else {
        Ok(())
    }
}

/// Checks a requested start timestamp against the retention window that ends at
/// `now_unix_millis`: later than now is too late, earlier than the window too early.
pub fn check_cursor_unix_millis(unix_millis: u64, retention_seconds: u64, now_unix_millis: u64) -> (r:
    Result<(), RetentionError>)
    ensures
        r == retention_verdict(unix_millis as int, retention_seconds as int, now_unix_millis as int),
        r is Ok <==> window_start(retention_seconds as int, now_unix_millis as int)
            <= unix_millis <= now_unix_millis,
{
    if unix_millis > now_unix_millis {
        return Err(RetentionError::TooLate);
    }
    if retention_seconds <= now_unix_millis / 1000 {
        assert(retention_seconds * 1000 <= now_unix_millis) by (nonlinear_arith)
            requires retention_seconds <= now_unix_millis / 1000;
        let window: u64 = retention_seconds * 1000;
        if unix_millis < now_unix_millis - window {
            return Err(RetentionError::TooEarly);
        }
    } else {
        assert(retention_seconds * 1000 > now_unix_millis) by (nonlinear_arith)
            requires retention_seconds > now_unix_millis / 1000, now_unix_millis >= 0;
    }
    Ok(())
}

/// Clamps a timestamp to the origin of epoch time: nothing was logged before it.
pub open spec fn clamp_to_origin(ms: int) -> int {
    if ms < EPOCH_ORIGIN_UNIX_MILLIS {
        EPOCH_ORIGIN_UNIX_MILLIS as int
    } else {
        ms
    }
}

/// The start key that a start point resolves to, or the retention error it raises.
pub open spec fn start_key(
    since: Option<Since>,
    retention_seconds: int,
    now_unix_millis: int,
    now_epoch: int,
) -> Result<Option<int>, RetentionError> {
    match since {
        None => Ok(None),
        Some(Since::TimestampMsNum(ms)) => match retention_verdict(
            ms as int,
            retention_seconds,
            now_unix_millis,
        ) {
            Err(e) => Err(e),
            Ok(_) => Ok(Some(key_of_unix_millis(clamp_to_origin(ms as int)))),
        },
        Some(Since::ProcessTime) => Ok(Some(key_of_epoch(now_epoch))),
        Some(Since::Begin) => Ok(
            Some(
                key_of_unix_millis(
                    clamp_to_origin(window_start(retention_seconds, now_unix_millis)),
                ),
            ),
        ),
    }
}

/// The timestamp at which the retention window begins, no earlier than the epoch origin.
fn begin_unix_millis(retention_seconds: u64, now_unix_millis: u64) -> (ms: u64)
    requires
        valid_unix_millis(now_unix_millis as int),
    ensures
        ms as int == clamp_to_origin(window_start(retention_seconds as int, now_unix_millis as int)),
        valid_unix_millis(ms as int),
{
    if retention_seconds <= now_unix_millis / 1000 {
        assert(retention_seconds * 1000 <= now_unix_millis) by (nonlinear_arith)
            requires retention_seconds <= now_unix_millis / 1000;
        let start: u64 = now_unix_millis - retention_seconds * 1000;
        if start < EPOCH_ORIGIN_UNIX_MILLIS {
            EPOCH_ORIGIN_UNIX_MILLIS
        } else {
            start
        }
    } else {
        assert(retention_seconds * 1000 > now_unix_millis) by (nonlinear_arith)
            requires retention_seconds > now_unix_millis / 1000, now_unix_millis >= 0;
        EPOCH_ORIGIN_UNIX_MILLIS
    }
}

/// Resolves a start point to the log-store key from which the cursor first reads.
/// An explicit timestamp must lie in the retention window ending at
/// `now_unix_millis`; `None` leaves the start open until the first fetch.
/// `now_epoch` is the current logical epoch, used by `Since::ProcessTime`.
pub fn resolve_start_key(
    since: Option<Since>,
    retention_seconds: u64,
    now_unix_millis: u64,
    now_epoch: u64,
) -> (r: Result<Option<i64>, RetentionError>)
    requires
        valid_unix_millis(now_unix_millis as int),
    ensures
        match (r, start_key(since, retention_seconds as int, now_unix_millis as int, now_epoch as int)) {
            (Ok(Some(k)), Ok(Some(s))) => k as int == s,
            (Ok(None), Ok(None)) => true,
            (Err(e), Err(s)) => e == s,
            _ => false,
        },
{
    match since {
        None => Ok(None),
        Some(Since::TimestampMsNum(ms)) => {
            match check_cursor_unix_millis(ms, retention_seconds, now_unix_millis) {
                Err(e) => Err(e),
                Ok(()) => {
                    let start: u64 = if ms < EPOCH_ORIGIN_UNIX_MILLIS {
                        EPOCH_ORIGIN_UNIX_MILLIS
                    } else {
                        ms
                    };
                    Ok(Some(convert_unix_millis_to_logstore_i64(start)))
                },
            }
        },
        Some(Since::ProcessTime) => Ok(Some(convert_epoch_to_logstore_i64(now_epoch))),
        Some(Since::Begin) => {
            let start = begin_unix_millis(retention_seconds, now_unix_millis);
            Ok(Some(convert_unix_millis_to_logstore_i64(start)))
        },
    }
}

/// A timestamp inside the retention window is accepted; one after now is too
/// late; one before the window is too early.
pub proof fn lemma_retention_window(unix_millis: int, retention_seconds: int, now_unix_millis: int)
    requires
        retention_seconds >= 0,
    ensures
        window_start(retention_seconds, now_unix_millis) <= unix_millis <= now_unix_millis
            ==> retention_verdict(unix_millis, retention_seconds, now_unix_millis) == Ok::<
            (),
            RetentionError,
        >(()),
        unix_millis > now_unix_millis ==> retention_verdict(
            unix_millis,
            retention_seconds,
            now_unix_millis,
        ) == Err::<(), RetentionError>(RetentionError::TooLate),
        unix_millis < window_start(retention_seconds, now_unix_millis) ==> retention_verdict(unix_millis, retention_seconds, now_unix_millis)
            == Err::<(), RetentionError>(RetentionError::TooEarly),
{
}

} // verus!
