use vstd::prelude::*;
use vstd::bytes::{spec_u64_from_le_bytes, spec_u64_to_le_bytes, u64_from_le_bytes, u64_to_le_bytes};

verus! {

/// Dictionary that holds the user's preferences.
pub const PREFS_DICT: &'static str = "UserPrefsDict";
/// Key of the offset of the hardware clock from UTC. It is fixed once the time
/// is set.
pub const TIME_SERVER_UTC_OFFSET: &'static str = "utc_offset";
/// Key of the offset from UTC to the displayed time zone. It changes when the
/// user changes time zones.
pub const TIME_SERVER_TZ_OFFSET: &'static str = "tz_offset";

/// The user preference toggles of the device.
#[derive(Debug, Clone, Copy, PartialEq, Eq, Structural)]
pub struct UserPrefs {
    pub wifi_kill: bool,
    pub connect_known_networks_on_boot: bool,
    pub autobacklight_on_boot: bool,
    pub autobacklight_timeout: u64,
    pub autosleep_timeout: u64,
    pub autounmount_timeout: u64,
    pub audio_enabled: bool,
    pub earpiece_volume: u32,
    pub headset_volume: u32,
}

/// The eight little-endian bytes of `value`, as a signed offset is stored.
pub open spec fn offset_bytes(value: i64) -> Seq<u8> {
    spec_u64_to_le_bytes(value as u64)
}

/// The signed value of eight little-endian bytes.
pub open spec fn offset_value(bytes: Seq<u8>) -> i64 {
    spec_u64_from_le_bytes(bytes) as i64
}

/// How a signed offset is stored: its eight bytes, little end first.
pub fn encode_offset(value: i64) -> (r: Vec<u8>)
    ensures
        r@ == offset_bytes(value),
        r@.len() == 8,
{
    u64_to_le_bytes(value as u64)
}

/// The time-zone offset held in a stored record: `None` unless the record is
/// exactly eight bytes long.
pub fn decode_timezone_offset(bytes: &Vec<u8>) -> (r: Option<i64>)
    ensures
        r == (if bytes@.len() == 8 {
            Some(offset_value(bytes@))
        } else {
            None
        }),
{
    if bytes.len() != 8 {
        return None;
    }
    Some(u64_from_le_bytes(bytes.as_slice()) as i64)
}

/// The UTC offset held in a stored record: 0 unless the record is exactly
/// eight bytes long.
pub fn decode_utc_offset(bytes: &Vec<u8>) -> (r: i64)
    ensures
        r == (if bytes@.len() == 8 {
            offset_value(bytes@)
        } else {
            0
        }),
{
    match decode_timezone_offset(bytes) {
        Some(v) => v,
        None => 0,
    }
}

/// A stored offset reads back as the value that was stored.
pub proof fn lemma_offset_round_trip(value: i64)
    ensures
        offset_bytes(value).len() == 8,
        offset_value(offset_bytes(value)) == value,
{
    vstd::bytes::lemma_auto_spec_u64_to_from_le_bytes();
    assert(((value as u64) as i64) == value) by (bit_vector);
}

} // verus!
