use winartifacts::conv::{convert_to_hex, convert_to_int, HexError};
use winartifacts::event::{Event, Name, OuterName};
use winartifacts::hive::{FormatError, Hive, KeyCell, KeyNode};
use winartifacts::paths::{find_security_evtx, find_software_hive, find_system_evtx, find_system_hive};
use winartifacts::records::{read_records, RecordError};
use winartifacts::text::{decode_unmarked_text, decode_utf16le, guess_encoding, read_extended_ascii, TextEncoding};
use winartifacts::value::{DecodeError, Value, REG_BINARY, REG_DWORD, REG_DWORD_BIG_ENDIAN, REG_QWORD, REG_SZ};
use winartifacts::wintime::{convert_win_time, win_time_ticks, CivilDateTime, WinTimestamp};

fn utf16(s: &str) -> Vec<u8> {
    s.encode_utf16().flat_map(|u| u.to_le_bytes()).collect()
}

fn cell(name: &str, subkeys: Option<Result<Vec<usize>, FormatError>>, values: Option<Result<Vec<Value>, FormatError>>) -> KeyCell {
    KeyCell { name: name.to_string(), timestamp: 0, subkeys, values }
}

fn value(name: &str, data_type: u32, data: Vec<u8>) -> Value {
    Value { name: name.to_string(), data_type, data }
}

/// root -> A -> B -> C, where C holds a string value and a dword value.
fn sample_hive() -> Hive {
    let c_values = vec![
        value("Location", REG_SZ, utf16("Port_#0001\0junk")),
        value("Count", REG_DWORD, vec![0x2a, 0, 0, 0]),
    ];
    Hive {
        cells: vec![
            cell("ROOT", Some(Ok(vec![1])), None),
            cell("A", Some(Ok(vec![4, 2])), None),
            cell("B", Some(Ok(vec![3])), None),
            cell("C", None, Some(Ok(c_values))),
            cell("Other", None, None),
        ],
        root: 0,
    }
}

#[test]
fn win_time_zero_is_epoch() {
    let ts = convert_win_time(0);
    assert_eq!(ts, WinTimestamp { micros: 0 });
    assert_eq!(
        ts.to_civil(),
        CivilDateTime { year: 1601, month: 1, day: 1, hour: 0, minute: 0, second: 0, microsecond: 0 }
    );
}

#[test]
fn win_time_known_date() {
    // 2020-01-01T00:00:00.000001 UTC, plus 9 ticks that are truncated
    let ts = convert_win_time(132223104000000019);
    assert_eq!(ts.micros, 13222310400000001);
    assert_eq!(
        ts.to_civil(),
        CivilDateTime { year: 2020, month: 1, day: 1, hour: 0, minute: 0, second: 0, microsecond: 1 }
    );
}

#[test]
fn win_time_is_monotonic() {
    let samples = [0u64, 9, 10, 11, 132223104000000000, 132223104000000009, u64::MAX - 1, u64::MAX];
    for w in samples.windows(2) {
        assert!(convert_win_time(w[0]) <= convert_win_time(w[1]));
    }
}

#[test]
fn win_time_round_trip() {
    let ts = WinTimestamp { micros: 13222310400000001 };
    let ticks = win_time_ticks(ts).unwrap();
    assert_eq!(ticks, 132223104000000010);
    assert_eq!(convert_win_time(ticks), ts);
    assert_eq!(win_time_ticks(WinTimestamp { micros: u64::MAX }), None);
}

#[test]
fn navigate_finds_nested_key() {
    let hive = sample_hive();
    assert_eq!(hive.navigate("A\\B\\C"), Ok(Some(KeyNode { cell: 3 })));
    assert_eq!(hive.navigate("a\\b\\c"), Ok(Some(KeyNode { cell: 3 })));
    assert_eq!(hive.navigate("\\A\\\\B\\C\\"), Ok(Some(KeyNode { cell: 3 })));
    assert_eq!(hive.navigate(""), Ok(Some(KeyNode { cell: 0 })));
    assert_eq!(hive.name(KeyNode { cell: 3 }), "C");
}

#[test]
fn navigate_missing_intermediate_is_none() {
    let hive = sample_hive();
    assert_eq!(hive.navigate("A\\X\\C"), Ok(None));
    assert_eq!(hive.navigate("A\\B\\C\\D"), Ok(None));
}

#[test]
fn navigate_reports_bad_offsets() {
    let mut hive = sample_hive();
    hive.cells[2].subkeys = Some(Ok(vec![99]));
    assert_eq!(hive.navigate("A\\B\\C"), Err(FormatError::CellOutOfRange { cell: 99 }));
    hive.cells[1].subkeys = Some(Err(FormatError::Unreadable));
    assert_eq!(hive.navigate("A\\B"), Err(FormatError::Unreadable));
    let empty = Hive { cells: vec![], root: 0 };
    assert_eq!(empty.navigate("A"), Err(FormatError::CellOutOfRange { cell: 0 }));
}

#[test]
fn list_subkeys_in_order() {
    let hive = sample_hive();
    let a = KeyNode { cell: 1 };
    assert_eq!(hive.list_subkeys(a), Ok(Some(vec![KeyNode { cell: 4 }, KeyNode { cell: 2 }])));
    assert_eq!(hive.list_subkeys(KeyNode { cell: 3 }), Ok(None));
    let mut bad = sample_hive();
    bad.cells[1].subkeys = Some(Ok(vec![2, 7]));
    assert_eq!(bad.list_subkeys(a), Err(FormatError::CellOutOfRange { cell: 7 }));
}

#[test]
fn read_value_missing_is_none() {
    let hive = sample_hive();
    let c = KeyNode { cell: 3 };
    assert!(matches!(hive.read_value(c, "Nope"), Ok(None)));
    assert!(matches!(hive.read_value(KeyNode { cell: 2 }, "Count"), Ok(None)));
    let v = hive.read_value(c, "count").unwrap().unwrap();
    assert_eq!(v.dword_data(), Ok(42));
}

#[test]
fn decode_dword_on_string_is_type_mismatch() {
    let hive = sample_hive();
    let v = hive.read_value(KeyNode { cell: 3 }, "Location").unwrap().unwrap();
    assert_eq!(v.dword_data(), Err(DecodeError::TypeMismatch { found: REG_SZ }));
    assert_eq!(v.qword_data(), Err(DecodeError::TypeMismatch { found: REG_SZ }));
    assert_eq!(v.string_data(), Ok("Port_#0001".to_string()));
}

#[test]
fn decode_integers() {
    let le = value("x", REG_DWORD, vec![0x78, 0x56, 0x34, 0x12]);
    assert_eq!(le.dword_data(), Ok(0x12345678));
    let be = value("x", REG_DWORD_BIG_ENDIAN, vec![0x12, 0x34, 0x56, 0x78]);
    assert_eq!(be.dword_data(), Ok(0x12345678));
    let q = value("x", REG_QWORD, vec![1, 2, 3, 4, 5, 6, 7, 0x88]);
    assert_eq!(q.qword_data(), Ok(0x8807060504030201));
    let short = value("x", REG_DWORD, vec![1, 2]);
    assert_eq!(short.dword_data(), Err(DecodeError::Truncated { needed: 4, actual: 2 }));
    let shortq = value("x", REG_QWORD, vec![1, 2, 3]);
    assert_eq!(shortq.qword_data(), Err(DecodeError::Truncated { needed: 8, actual: 3 }));
    let bin = value("x", REG_BINARY, vec![9, 8, 7]);
    assert_eq!(bin.data(), vec![9, 8, 7]);
    assert_eq!(bin.string_data(), Err(DecodeError::TypeMismatch { found: REG_BINARY }));
}

#[test]
fn string_data_drops_odd_byte_and_decodes() {
    let mut data = utf16("Kingston");
    data.push(0x41);
    let v = value("FriendlyName", REG_SZ, data);
    assert_eq!(v.string_data(), Ok("Kingston".to_string()));
}

#[test]
fn extended_ascii_out_of_bounds_is_none() {
    let buf = [0x41u8, 0x42, 0x43];
    assert_eq!(read_extended_ascii(&buf, 1, 3), None);
    assert_eq!(read_extended_ascii(&buf, 4, 0), None);
    assert_eq!(read_extended_ascii(&buf, 1, 2), Some("BC".to_string()));
    assert_eq!(read_extended_ascii(&[0xE9, 0x5C], 0, 2), Some("\u{e9}\\".to_string()));
}

#[test]
fn encoding_disambiguation() {
    let wide = utf16("_??_USBSTOR#Disk&Ven_X");
    assert_eq!(guess_encoding(&wide), TextEncoding::Utf16Le);
    let (enc, text) = decode_unmarked_text(&wide);
    assert_eq!(enc, TextEncoding::Utf16Le);
    assert_eq!(text, "_??_USBSTOR#Disk&Ven_X");
    let dense = [0x44u8, 0x4d, 0x49, 0x4f, 0x3a, 0x49, 0x44];
    assert_eq!(guess_encoding(&dense), TextEncoding::ExtendedAscii);
    let (enc, text) = decode_unmarked_text(&dense);
    assert_eq!(enc, TextEncoding::ExtendedAscii);
    assert_eq!(text, "DMIO:ID");
}

#[test]
fn utf16_decoding_reports_replacements() {
    assert_eq!(decode_utf16le(&utf16("abc")), ("abc".to_string(), false));
    let (text, bad) = decode_utf16le(&[0x00, 0xD8, 0x41, 0x00]);
    assert_eq!(text, "\u{fffd}A");
    assert!(bad);
}

#[test]
fn event_with_logon_type_is_known() {
    let ev = Event::from_fields(
        4624,
        Some(vec![
            (Some("TargetUserName".to_string()), Some("alice".to_string())),
            (Some("LogonType".to_string()), Some("10".to_string())),
        ]),
    );
    assert_eq!(ev.system.event_id, 4624);
    let data = ev.event_data.unwrap().events;
    assert_eq!(data.len(), 2);
    assert!(data[1].name == Some(OuterName::Known(Name::LogonType)));
    assert_eq!(data[1].value, Some("10".to_string()));
}

#[test]
fn event_with_unknown_field_is_kept() {
    let ev = Event::from_fields(1, Some(vec![(Some("FutureField42".to_string()), Some("x".to_string()))]));
    let data = ev.event_data.unwrap().events;
    assert!(data[0].name == Some(OuterName::Unknown("FutureField42".to_string())));
    assert!(matches!(OuterName::from_field_name("logontype"), OuterName::Unknown(_)));
    assert_eq!(Name::from_field_name("CallerProcessId"), Some(Name::CallerProcessId));
    assert_eq!(Name::MemberSid.as_str(), "MemberSid");
    assert!(Event::from_fields(7, None).event_data.is_none());
}

#[test]
fn records_of_garbage_fail_whole_log() {
    assert!(matches!(read_records(vec![1, 2, 3, 4]), Err(RecordError::Malformed { .. })));
}

#[test]
fn timestamps_from_unix_micros() {
    assert_eq!(WinTimestamp::from_unix_micros(0), Some(WinTimestamp { micros: 11644473600000000 }));
    assert_eq!(WinTimestamp::from_unix_micros(-11644473600000000), Some(WinTimestamp { micros: 0 }));
    assert_eq!(WinTimestamp::from_unix_micros(-11644473600000001), None);
    assert_eq!(WinTimestamp::from_unix_micros(i64::MAX), None);
    assert_eq!(WinTimestamp::from_unix_micros(i64::MIN), None);
}

#[test]
fn hex_ids() {
    assert_eq!(convert_to_int("0x046D"), Ok(0x046d));
    assert_eq!(convert_to_int("046d"), Ok(0x046d));
    assert_eq!(convert_to_int("0x0xff"), Ok(0xff));
    assert_eq!(convert_to_int("+1A"), Ok(0x1a));
    assert_eq!(convert_to_int(""), Err(HexError::Empty));
    assert_eq!(convert_to_int("0x"), Err(HexError::Empty));
    assert_eq!(convert_to_int("+"), Err(HexError::InvalidDigit));
    assert_eq!(convert_to_int("12g4"), Err(HexError::InvalidDigit));
    assert_eq!(convert_to_int("10000"), Err(HexError::PosOverflow));
    assert_eq!(convert_to_int("FFFF"), Ok(0xffff));
    assert_eq!(convert_to_hex(0x046d), "0x046D");
    assert_eq!(convert_to_hex(0), "0x0000");
    assert_eq!(convert_to_hex(0xabcd), "0xABCD");
}

#[test]
fn artifact_paths() {
    assert_eq!(find_system_hive("/mnt").unwrap(), "/mnt/Windows/System32/config/SYSTEM");
    assert_eq!(find_software_hive("/mnt").unwrap(), "/mnt/Windows/System32/config/SOFTWARE");
    assert_eq!(find_system_evtx("/m").unwrap(), "/m/Windows/System32/winevt/Logs/System.evtx");
    assert_eq!(find_security_evtx("/m").unwrap(), "/m/Windows/System32/winevt/Logs/Security.evtx");
}
