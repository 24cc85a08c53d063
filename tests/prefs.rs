use mtxchat::prefs::{decode_timezone_offset, decode_utc_offset, encode_offset, UserPrefs};

#[test]
fn offsets_round_trip() {
    for v in [0i64, 1, -1, 3600, -18000, i64::MAX, i64::MIN] {
        let bytes = encode_offset(v);
        assert_eq!(bytes, v.to_le_bytes().to_vec());
        assert_eq!(decode_timezone_offset(&bytes), Some(v));
        assert_eq!(decode_utc_offset(&bytes), v);
    }
}

#[test]
fn offset_bytes_are_little_endian() {
    assert_eq!(encode_offset(258), vec![2, 1, 0, 0, 0, 0, 0, 0]);
    assert_eq!(encode_offset(-2), vec![0xfe, 0xff, 0xff, 0xff, 0xff, 0xff, 0xff, 0xff]);
}

#[test]
fn short_records_are_not_offsets() {
    assert_eq!(decode_timezone_offset(&vec![1, 2, 3]), None);
    assert_eq!(decode_timezone_offset(&Vec::new()), None);
    assert_eq!(decode_utc_offset(&vec![0; 9]), 0);
}

#[test]
fn prefs_are_plain_values() {
    let p = UserPrefs {
        wifi_kill: false,
        connect_known_networks_on_boot: true,
        autobacklight_on_boot: true,
        autobacklight_timeout: 10,
        autosleep_timeout: 300,
        autounmount_timeout: 3600,
        audio_enabled: true,
        earpiece_volume: 5,
        headset_volume: 7,
    };
    let q = p;
    assert_eq!(p, q);
}
