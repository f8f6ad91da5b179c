use std::collections::HashMap;

use winartifacts::accounts::get_profile_list;
use winartifacts::classify::{
    report_findings,
    authentication_event_description, event_findings, logon_event_description, logon_type_description,
    rdp_event_description, security_service_event_description, system_service_event_description,
};
use winartifacts::devid::{chars_of, parse_device_id, parse_disk_id, parse_um_guid};
use winartifacts::dispatch::{
    get_account_details, get_accountusage_eventlog_data, get_accountusage_registry_data, get_eventlog_data,
    get_externaldevice_registry_data, get_registry_data, get_systeminfo_registry_data, Extractor,
};
use winartifacts::event::Event;
use winartifacts::extract::{
    get_computer_name, get_current_os_version, get_os_updates, get_shutdown_time, mounted_device,
    sys_get_mounteddev_data, ExtractError,
};
use winartifacts::hive::{FormatError, Hive, KeyCell};
use winartifacts::portable::sof_get_device_data;
use winartifacts::props::{sys_get_hid_data, sys_get_scsi_data, sys_get_usbstor_data};
use winartifacts::usb::{sys_get_usb_data, usb_ids};
use winartifacts::value::{DecodeError, Value, REG_BINARY, REG_DWORD, REG_QWORD, REG_SZ};
use winartifacts::vendors::{product_name, vendor_name, Device, Vendor, VendorList};
use winartifacts::volumes::sof_get_vic_data;
use winartifacts::wintime::WinTimestamp;

fn utf16(s: &str) -> Vec<u8> {
    s.encode_utf16().flat_map(|u| u.to_le_bytes()).collect()
}

fn sz(name: &str, text: &str) -> Value {
    Value { name: name.to_string(), data_type: REG_SZ, data: utf16(text) }
}

fn dword(name: &str, v: u32) -> Value {
    Value { name: name.to_string(), data_type: REG_DWORD, data: v.to_le_bytes().to_vec() }
}

/// Builds a hive from a nested description: each key is (name, timestamp,
/// values, children).
struct K(&'static str, u64, Vec<Value>, Vec<K>);

fn build(root: K) -> Hive {
    fn add(k: K, cells: &mut Vec<KeyCell>) -> usize {
        let i = cells.len();
        cells.push(KeyCell { name: k.0.to_string(), timestamp: k.1, subkeys: None, values: None });
        let has_children = !k.3.is_empty();
        let ids: Vec<usize> = k.3.into_iter().map(|c| add(c, cells)).collect();
        cells[i].subkeys = if has_children { Some(Ok(ids)) } else { None };
        cells[i].values = if k.2.is_empty() { None } else { Some(Ok(k.2)) };
        i
    }
    let mut cells = Vec::new();
    let root = add(root, &mut cells);
    Hive { cells, root }
}

fn path(names: &[&'static str], leaf: K) -> K {
    let mut k = leaf;
    for n in names.iter().rev() {
        k = K(n, 0, vec![], vec![k]);
    }
    K("ROOT", 0, vec![], vec![k])
}

fn props(fc: u64, lc: u64, lr: u64) -> K {
    K(
        "Properties",
        0,
        vec![],
        vec![K(
            "{83da6326-97a6-4088-9453-a1923f573b29}",
            0,
            vec![],
            vec![K("0064", fc, vec![], vec![]), K("0066", lc, vec![], vec![]), K("0067", lr, vec![], vec![])],
        )],
    )
}

fn vendors() -> VendorList {
    let mut v = Vendor::new(0x046d, Some("Logitech".to_string()));
    v.add_device(Device { did: 0xc52b, name: Some("Unifying Receiver".to_string()) });
    let mut list = HashMap::new();
    list.insert(0x046d, v);
    list
}

#[test]
fn computer_name_found() {
    let hive = build(path(
        &["ControlSet001", "Control", "ComputerName"],
        K("ComputerName", 0, vec![sz("ComputerName", "DESKTOP-1\0")], vec![]),
    ));
    assert_eq!(get_computer_name(&hive), Ok("DESKTOP-1".to_string()));
    let missing = build(path(&["ControlSet001", "Control"], K("Windows", 0, vec![], vec![])));
    assert_eq!(get_computer_name(&missing), Err(ExtractError::KeyNotFound));
}

#[test]
fn shutdown_time_from_filetime_bytes() {
    let ticks: u64 = 132223104000000000;
    let v = Value { name: "ShutdownTime".to_string(), data_type: REG_BINARY, data: ticks.to_le_bytes().to_vec() };
    let hive = build(path(&["ControlSet001", "Control"], K("Windows", 0, vec![v], vec![])));
    assert_eq!(get_shutdown_time(&hive), Ok(WinTimestamp { micros: 13222310400000000 }));
    let short = Value { name: "ShutdownTime".to_string(), data_type: REG_BINARY, data: vec![1, 2, 3] };
    let hive = build(path(&["ControlSet001", "Control"], K("Windows", 0, vec![short], vec![])));
    assert_eq!(
        get_shutdown_time(&hive),
        Err(ExtractError::Decode(DecodeError::Truncated { needed: 8, actual: 3 }))
    );
}

fn os_values(build_no: &str) -> Vec<Value> {
    vec![
        sz("CurrentBuildNumber", build_no),
        sz("EditionID", "Professional"),
        sz("InstallationType", "Client"),
        dword("InstallDate", 1_600_000_000),
        Value { name: "InstallTime".to_string(), data_type: REG_QWORD, data: 132223104000000000u64.to_le_bytes().to_vec() },
        sz("PathName", "C:\\Windows"),
        sz("ProductID", "00330-8000"),
        sz("ProductName", "Windows 10 Pro"),
        sz("RegisteredOrganization", ""),
        sz("RegisteredOwner", "owner"),
        sz("SoftwareType", "System"),
    ]
}

#[test]
fn current_os_version_reads_all_values() {
    let hive = build(path(&["Microsoft", "Windows NT"], K("CurrentVersion", 0, os_values("19045"), vec![])));
    let e = get_current_os_version(&hive).unwrap();
    assert_eq!(e.current_build_number, "19045");
    assert_eq!(e.product_name, "Windows 10 Pro");
    assert_eq!(e.registered_owner, "owner");
    assert_eq!(e.install_date, WinTimestamp { micros: (1_600_000_000u64 + 11644473600) * 1_000_000 });
    assert_eq!(e.install_time, WinTimestamp { micros: 13222310400000000 });
    let mut wrong_type = os_values("1");
    wrong_type[7] = dword("ProductName", 7);
    let hive = build(path(&["Microsoft", "Windows NT"], K("CurrentVersion", 0, wrong_type, vec![])));
    assert!(matches!(
        get_current_os_version(&hive),
        Err(ExtractError::Decode(DecodeError::TypeMismatch { found: REG_DWORD }))
    ));
    let mut partial = os_values("1");
    partial.remove(1);
    let hive = build(path(&["Microsoft", "Windows NT"], K("CurrentVersion", 0, partial, vec![])));
    assert!(matches!(get_current_os_version(&hive), Err(ExtractError::ValueNotFound)));
}

#[test]
fn os_updates_one_per_source_os_key() {
    let hive = build(K(
        "ROOT",
        0,
        vec![],
        vec![K(
            "Setup",
            0,
            vec![],
            vec![
                K("Source OS (Updated on 1/1/2020)", 0, os_values("17763"), vec![]),
                K("Other", 0, vec![], vec![]),
                K("Source OS (Updated on 2/2/2021)", 0, os_values("18363"), vec![]),
            ],
        )],
    ));
    let es = get_os_updates(&hive).unwrap();
    assert_eq!(es.len(), 2);
    assert_eq!(es[0].current_build_number, "17763");
    assert_eq!(es[1].current_build_number, "18363");
}

#[test]
fn profile_list_entries() {
    let hive = build(path(
        &["Microsoft", "Windows NT", "CurrentVersion"],
        K(
            "ProfileList",
            0,
            vec![],
            vec![K("S-1-5-18", 100, vec![sz("ProfileImagePath", "C:\\Windows\\system32\\config\\systemprofile")], vec![])],
        ),
    ));
    let ps = get_profile_list(&hive).unwrap();
    assert_eq!(ps.len(), 1);
    assert_eq!(ps[0].sid, "S-1-5-18");
    assert_eq!(ps[0].timestamp, WinTimestamp { micros: 10 });
    let bad = build(path(
        &["Microsoft", "Windows NT", "CurrentVersion"],
        K("ProfileList", 0, vec![], vec![K("S-1-5-19", 0, vec![dword("ProfileImagePath", 1)], vec![])]),
    ));
    assert_eq!(
        get_profile_list(&bad).map(|v| v.len()),
        Err(ExtractError::Decode(DecodeError::TypeMismatch { found: REG_DWORD }))
    );
}

#[test]
fn volume_info_cache_drive_types() {
    let hive = build(path(
        &["Microsoft", "Windows Search"],
        K(
            "VolumeInfoCache",
            0,
            vec![],
            vec![
                K("C:", 0, vec![dword("DriveType", 3), sz("VolumeLabel", "System")], vec![]),
                K("D:", 0, vec![dword("DriveType", 9)], vec![]),
                K("E:", 0, vec![sz("VolumeLabel", "Stick")], vec![]),
            ],
        ),
    ));
    let vs = sof_get_vic_data(&hive).unwrap();
    assert_eq!(vs.len(), 2);
    assert_eq!((vs[0].drive_name.as_str(), vs[0].drive_type.as_str(), vs[0].vol_label.as_str()), ("C:", "Fixed Disk", "System"));
    assert_eq!((vs[1].drive_name.as_str(), vs[1].drive_type.as_str(), vs[1].vol_label.as_str()), ("E:", "", "Stick"));
}

#[test]
fn mounted_devices_both_encodings() {
    let wide = Value {
        name: "\\??\\Volume{1}".to_string(),
        data_type: REG_BINARY,
        data: utf16("_??_USBSTOR#Disk&Ven_Kingston&Prod_DataTraveler&Rev_1.00#0019E06B#{53f56307}"),
    };
    let dense = Value { name: "\\DosDevices\\C:".to_string(), data_type: REG_BINARY, data: b"DMIO:ID:".to_vec() };
    let hive = build(K("ROOT", 0, vec![], vec![K("MountedDevices", 0, vec![wide, dense], vec![])]));
    let ds = sys_get_mounteddev_data(&hive).unwrap();
    assert_eq!(ds.len(), 2);
    assert_eq!(ds[0].vendorname, "Kingston");
    assert_eq!(ds[0].productname, "DataTraveler");
    assert_eq!(ds[0].revision, "1.00");
    assert_eq!(ds[0].serial, "0019E06B");
    assert_eq!(ds[0].guid, "{53f56307}");
    assert_eq!(ds[1].device_data, "DMIO:ID:");
    assert_eq!(ds[1].vendorname, "");
    let unparsable = Value { name: "x".to_string(), data_type: REG_BINARY, data: utf16("\\??\\Volume{abc}") };
    assert!(matches!(mounted_device(&unparsable), Err(ExtractError::Unparsable)));
    let odd = Value { name: "x".to_string(), data_type: REG_BINARY, data: utf16("Ven_a&Prod_b&Rev#c") };
    assert!(matches!(mounted_device(&odd), Ok(None)));
}

#[test]
fn device_id_grammar() {
    let s = chars_of("x#DISK&VEN_ SanDisk &PROD_Cruzer&REV_1.26#4C53#{guid} tail");
    let id = parse_device_id(&s, "#DISK&VEN_", "&PROD_", "&REV_", true).unwrap();
    assert_eq!((id.vendor.as_str(), id.product.as_str(), id.revision.as_str()), ("SanDisk", "Cruzer", "1.26"));
    assert_eq!((id.serial.as_str(), id.guid.as_str()), ("4C53", "{guid}"));
    assert!(parse_device_id(&s, "Ven_", "&Prod_", "&Rev_", true).is_none());
    let d = parse_disk_id(&chars_of("Disk&Ven_WD&Prod_Elements&Rev_1065"), "Disk&Ven_", true).unwrap();
    assert_eq!((d.vendor.as_str(), d.product.as_str(), d.revision.as_str()), ("WD", "Elements", "1065"));
    assert!(parse_disk_id(&chars_of("Disk&Ven_WD&Prod_Elements&Rev_"), "Disk&Ven_", true).is_none());
    assert_eq!(parse_um_guid(&chars_of("SWD#WPDBUSENUM#{abc}#x")), Some("{abc}".to_string()));
    assert_eq!(parse_um_guid(&chars_of("SWD#WPDBUSENUM#_??_USB#UM#{abc}#x")), Some("_??_USB".to_string()));
}

#[test]
fn usb_devices_with_vendor_names() {
    let serial = K(
        "5&1234",
        0,
        vec![sz("ParentIdPrefix", "6&abc"), sz("LocationInformation", "Port_#0002")],
        vec![],
    );
    let skipped = K("noparent", 0, vec![sz("FriendlyName", "x")], vec![]);
    let hive = build(path(
        &["ControlSet001", "Enum"],
        K("USB", 0, vec![], vec![K("VID_046D&PID_C52B", 0, vec![], vec![serial, skipped]), K("ROOT_HUB30", 0, vec![], vec![])]),
    ));
    let es = sys_get_usb_data(&hive, &vendors()).unwrap();
    assert_eq!(es.len(), 1);
    assert_eq!((es[0].vid.as_str(), es[0].pid.as_str()), ("0x046D", "0xC52B"));
    assert_eq!((es[0].vendorname.as_str(), es[0].productname.as_str()), ("Logitech", "Unifying Receiver"));
    assert_eq!(es[0].location_information, "Port_#0002");
    assert_eq!(es[0].friendly_name, "");
    assert_eq!(usb_ids("VID_046D&PID_C52B"), Ok((0x046d, 0xc52b)));
    assert_eq!(usb_ids("VID_04"), Err(ExtractError::Unparsable));
}

#[test]
fn hid_usbstor_scsi_connection_times() {
    let hive = build(path(
        &["ControlSet001"],
        K(
            "Enum",
            0,
            vec![],
            vec![
                K("HID", 0, vec![], vec![K("VID_046D&PID_C52B&MI_00", 0, vec![], vec![K("7&2a", 50, vec![], vec![props(100, 200, 300)])])]),
                K(
                    "USBSTOR",
                    0,
                    vec![],
                    vec![K(
                        "Disk&Ven_Kingston&Prod_DT&Rev_PMAP",
                        0,
                        vec![],
                        vec![
                            K("0019E06B&0", 70, vec![sz("FriendlyName", "Kingston DT USB Device")], vec![props(110, 210, 310)]),
                            K("nofriendly", 0, vec![], vec![]),
                        ],
                    )],
                ),
                K("SCSI", 0, vec![], vec![K("CdRom&Ven_NECVMWar&Prod_VMware_SATA", 0, vec![], vec![K("4&5fcaafc", 90, vec![], vec![props(120, 220, 320)])])]),
            ],
        ),
    ));
    let hid = sys_get_hid_data(&hive, &vendors()).unwrap();
    assert_eq!(hid.len(), 1);
    assert_eq!(hid[0].first_connected, WinTimestamp { micros: 10 });
    assert_eq!(hid[0].last_connected, WinTimestamp { micros: 20 });
    assert_eq!(hid[0].vendorname, "Logitech");
    let stor = sys_get_usbstor_data(&hive).unwrap();
    assert_eq!(stor.len(), 1);
    assert_eq!((stor[0].manufacturer.as_str(), stor[0].title.as_str(), stor[0].version.as_str()), ("Kingston", "DT", "PMAP"));
    assert_eq!(stor[0].last_removed, Some(WinTimestamp { micros: 31 }));
    assert_eq!(stor[0].device_name, "Kingston DT USB Device");
    let scsi = sys_get_scsi_data(&hive).unwrap();
    assert_eq!(scsi.len(), 1);
    assert_eq!((scsi[0].manufacturer.as_str(), scsi[0].title.as_str()), ("NECVMWar", "VMware_SATA"));
    assert_eq!(scsi[0].parentidprefix, "4&5fcaafc");
}

#[test]
fn portable_devices_by_name_form() {
    let hive = build(path(
        &["Microsoft", "Windows Portable Devices"],
        K(
            "Devices",
            0,
            vec![],
            vec![
                K("SWD#WPDBUSENUM#_??_USBSTOR#DISK&VEN_SANDISK&PROD_CRUZER&REV_1.26#4C53#{53F5}", 0, vec![sz("FriendlyName", "E:\\")], vec![]),
                K("SWD#WPDBUSENUM#{guid-1}#0000", 0, vec![], vec![]),
                K("USB#VID_046D&PID_C52B#x", 0, vec![sz("FriendlyName", "Receiver")], vec![]),
            ],
        ),
    ));
    let ds = sof_get_device_data(&hive, &vendors()).unwrap();
    assert_eq!(ds.len(), 3);
    assert_eq!((ds[0].vendorname.as_str(), ds[0].version.as_str(), ds[0].friendly_name.as_str()), ("SANDISK", "1.26", "E:\\"));
    assert_eq!(ds[1].guid, "{guid-1}");
    assert_eq!((ds[2].vendorname.as_str(), ds[2].productname.as_str(), ds[2].friendly_name.as_str()), ("Logitech", "Unifying Receiver", "Receiver"));
}

#[test]
fn vendor_lookup() {
    let v = vendors();
    assert_eq!(vendor_name(&v, 0x046d), "Logitech");
    assert_eq!(product_name(&v, 0x046d, 0xc52b), "Unifying Receiver");
    assert_eq!(product_name(&v, 0x046d, 1), "");
    assert_eq!(vendor_name(&v, 1), "");
}

#[test]
fn logon_findings() {
    let ev = Event::from_fields(4624, Some(vec![(Some("LogonType".to_string()), Some("10".to_string()))]));
    let f = event_findings(&ev, false);
    assert_eq!(f.len(), 1);
    assert_eq!((f[0].logon_type.as_str(), f[0].description), ("10", "Remote interactive logon (RDP)"));
    assert_eq!(event_findings(&ev, true).len(), 1);
    let console = Event::from_fields(4624, Some(vec![(Some("LogonType".to_string()), Some("2".to_string()))]));
    assert_eq!(event_findings(&console, true).len(), 0);
    let failed = Event::from_fields(4625, None);
    assert_eq!(event_findings(&failed, false)[0].description, "Failed Logon");
    assert_eq!(logon_type_description("6"), None);
    assert_eq!(logon_event_description(4647), Some("Successful Logoff"));
    assert_eq!(rdp_event_description(4779), Some("Session Disconnected"));
    assert_eq!(authentication_event_description(4768), Some("Ticket Granting Ticket was granted (successful logon)"));
    assert_eq!(system_service_event_description(7045), Some("A service was installed on the system"));
    assert_eq!(security_service_event_description(7045), None);
}

#[test]
fn mode_plans() {
    let jobs = get_registry_data("/mnt", "/out").unwrap();
    assert_eq!(jobs.len(), 12);
    assert_eq!(jobs[0].extractor, Extractor::ProfileList);
    assert_eq!(jobs[0].source, "/mnt/Windows/System32/config/SOFTWARE");
    assert_eq!(jobs[4].extractor, Extractor::HidData);
    assert_eq!(jobs[4].source, "/mnt/Windows/System32/config/SYSTEM");
    assert_eq!(jobs[4].vendor_list, Some("testlists/output.json".to_string()));
    assert_eq!(get_externaldevice_registry_data("/m", "/o").unwrap().len(), 7);
    assert_eq!(get_systeminfo_registry_data("/m", "/o").unwrap().len(), 4);
    assert_eq!(get_accountusage_registry_data("/m", "/o").unwrap().len(), 1);
    let ev = get_accountusage_eventlog_data("/m", "/o").unwrap();
    assert_eq!(ev[0].source, "/m/Windows/System32/winevt/Logs/System.evtx");
    let all = get_eventlog_data(&"/m".to_string(), &"/o".to_string(), &"results".to_string()).unwrap();
    assert_eq!(all.len(), 5);
    assert_eq!(all[0].outpath, "/o/results");
    assert!(get_account_details(&"SAM".to_string(), "out.json".to_string()).is_ok());
}

#[test]
fn unreadable_lists_are_format_errors() {
    let mut hive = build(K("ROOT", 0, vec![], vec![K("MountedDevices", 0, vec![], vec![])]));
    hive.cells[1].values = Some(Err(FormatError::Unreadable));
    assert!(matches!(sys_get_mounteddev_data(&hive), Err(ExtractError::Format(FormatError::Unreadable))));
}

#[test]
fn computer_name_missing_intermediate_is_not_found() {
    let hive = build(K("ROOT", 0, vec![], vec![K("ControlSet001", 0, vec![], vec![K("Enum", 0, vec![], vec![])])]));
    assert_eq!(get_computer_name(&hive), Err(ExtractError::KeyNotFound));
}

#[test]
fn usb_value_of_wrong_type_is_an_error() {
    let serial = K("5&1234", 0, vec![dword("ParentIdPrefix", 1)], vec![]);
    let hive = build(path(&["ControlSet001", "Enum"], K("USB", 0, vec![], vec![K("VID_046D&PID_C52B", 0, vec![], vec![serial])])));
    assert!(matches!(
        sys_get_usb_data(&hive, &vendors()),
        Err(ExtractError::Decode(DecodeError::TypeMismatch { found: REG_DWORD }))
    ));
    let serial = K("5&1234", 0, vec![sz("ParentIdPrefix", "6&a"), dword("FriendlyName", 1)], vec![]);
    let hive = build(path(&["ControlSet001", "Enum"], K("USB", 0, vec![], vec![K("VID_046D&PID_C52B", 0, vec![], vec![serial])])));
    assert!(sys_get_usb_data(&hive, &vendors()).is_err());
}

#[test]
fn volume_with_unreadable_values_is_a_format_error() {
    let mut hive = build(path(
        &["Microsoft", "Windows Search"],
        K("VolumeInfoCache", 0, vec![], vec![K("C:", 0, vec![dword("DriveType", 3)], vec![])]),
    ));
    let last = hive.cells.len() - 1;
    hive.cells[last].values = Some(Err(FormatError::Unreadable));
    assert!(matches!(sof_get_vic_data(&hive), Err(ExtractError::Format(FormatError::Unreadable))));
}

#[test]
fn portable_usb_friendly_name_of_wrong_type_is_an_error() {
    let hive = build(path(
        &["Microsoft", "Windows Portable Devices"],
        K("Devices", 0, vec![], vec![K("USB#VID_046D&PID_C52B#x", 0, vec![dword("FriendlyName", 3)], vec![])]),
    ));
    assert!(matches!(
        sof_get_device_data(&hive, &vendors()),
        Err(ExtractError::Decode(DecodeError::TypeMismatch { found: REG_DWORD }))
    ));
}

#[test]
fn usbstor_friendly_name_of_wrong_type_is_an_error() {
    let hive = build(path(
        &["ControlSet001", "Enum"],
        K(
            "USBSTOR",
            0,
            vec![],
            vec![K("Disk&Ven_A&Prod_B&Rev_1", 0, vec![], vec![K("s1", 0, vec![dword("FriendlyName", 1)], vec![props(1, 2, 3)])])],
        ),
    ));
    assert!(matches!(
        sys_get_usbstor_data(&hive),
        Err(ExtractError::Decode(DecodeError::TypeMismatch { found: REG_DWORD }))
    ));
}

#[test]
fn report_findings_by_extractor() {
    let auth = Event::from_fields(4776, None);
    let f = report_findings(Extractor::AuthenticationEvents, &auth);
    assert_eq!(f.len(), 1);
    assert_eq!((f[0].logon_type.as_str(), f[0].description), ("", "Successful/Failed account authentication"));
    assert!(report_findings(Extractor::SecurityServiceEvents, &auth).is_empty());
    assert!(report_findings(Extractor::UsbData, &auth).is_empty());
    let sys = Event::from_fields(7036, None);
    assert_eq!(report_findings(Extractor::SystemServiceEvents, &sys)[0].description, "A service started or stopped");
}
