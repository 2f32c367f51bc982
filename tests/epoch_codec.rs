use sql_cursor::epoch::{
    convert_epoch_to_logstore_i64, convert_logstore_i64_to_epoch,
    convert_unix_millis_to_logstore_i64, epoch_to_unix_millis, unix_millis_to_epoch,
    EPOCH_ORIGIN_UNIX_MILLIS,
};

#[test]
fn unix_millis_epoch_has_shifted_physical_time() {
    assert_eq!(unix_millis_to_epoch(EPOCH_ORIGIN_UNIX_MILLIS), 0);
    assert_eq!(unix_millis_to_epoch(EPOCH_ORIGIN_UNIX_MILLIS + 1), 65536);
    assert_eq!(unix_millis_to_epoch(EPOCH_ORIGIN_UNIX_MILLIS + 1000), 65_536_000);
}

#[test]
fn epoch_round_trips_to_unix_millis() {
    let ms = 1_700_000_000_123u64;
    assert_eq!(epoch_to_unix_millis(unix_millis_to_epoch(ms)), ms);
    assert_eq!(epoch_to_unix_millis(unix_millis_to_epoch(ms) + 65535), ms);
}

#[test]
fn logstore_key_flips_top_bit() {
    assert_eq!(convert_epoch_to_logstore_i64(0), i64::MIN);
    assert_eq!(convert_epoch_to_logstore_i64(1u64 << 63), 0);
    assert_eq!(convert_epoch_to_logstore_i64(u64::MAX), i64::MAX);
    for e in [0u64, 1, 12345, 1u64 << 63, (1u64 << 63) + 7, u64::MAX] {
        assert_eq!(convert_epoch_to_logstore_i64(e), (e ^ (1u64 << 63)) as i64);
        assert_eq!(convert_logstore_i64_to_epoch(convert_epoch_to_logstore_i64(e)), e);
    }
}

#[test]
fn keys_keep_the_order_of_times_and_epochs() {
    let t = 1_700_000_000_000u64;
    assert!(convert_unix_millis_to_logstore_i64(t) < convert_unix_millis_to_logstore_i64(t + 1));
    assert!(
        convert_unix_millis_to_logstore_i64(EPOCH_ORIGIN_UNIX_MILLIS)
            < convert_unix_millis_to_logstore_i64(t)
    );
    assert!(convert_epoch_to_logstore_i64((1u64 << 63) - 1) < convert_epoch_to_logstore_i64(1u64 << 63));
    assert!(convert_epoch_to_logstore_i64(5) < convert_epoch_to_logstore_i64(6));
}
