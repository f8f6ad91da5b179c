//! Portable devices recorded under `Microsoft\Windows Portable Devices` of
//! the SOFTWARE hive: below each `Devices` key, one key per device, named
//! after the device's identifier.

use vstd::prelude::*;
use vstd::string::*;

use crate::conv::{convert_to_int, parse_hex_u16, strip_0x};
use crate::devid::{chars_of, device_fields, find_from, parse_device_id, parse_um_guid, um_guid};
use crate::extract::{
    find_subkeys, holds, optional_text, optional_value_text, starts_with, str_starts_with,
    subkeys_lookup, ExtractError,
};
use crate::hive::{subkeys_spec, Hive, KeyNode};
use crate::props::key_time;
use crate::vendors::{product_name, product_name_text, vendor_name, vendor_name_text, VendorList};
use crate::wintime::{convert_win_time, WinTimestamp};

verus! {

/// One portable device.
pub struct PortableDevice {
    pub full_key_name: String,
    pub time_stamp: WinTimestamp,
    pub vendorname: String,
    pub productname: String,
    pub version: String,
    pub serialnumber: String,
    pub guid: String,
    pub friendly_name: String,
}

/// The forms of a portable device's key name.
pub enum NameForm {
    /// `SWD#...#DISK&VEN_v&PROD_p&REV_r#serial#guid`.
    DiskWithRevision,
    /// `SWD#...#DISK&VEN_v&PROD_p#serial#guid`.
    Disk,
    /// `SWD#...UM#guid#...`.
    Software,
    /// `USB#VID_vvvv&PID_pppp...`.
    Usb,
}

/// The form of a key name, if it is one that the report reads.
pub open spec fn name_form(name: Seq<char>) -> Option<NameForm> {
    if starts_with(name, "SWD#"@) {
        if holds(name, "&REV"@) {
            Some(NameForm::DiskWithRevision)
        } else if holds(name, "DISK&VEN"@) {
            Some(NameForm::Disk)
        } else {
            Some(NameForm::Software)
        }
    } else if starts_with(name, "USB#"@) {
        Some(NameForm::Usb)
    } else {
        None
    }
}

/// The vendor and product ids of a `USB#VID_vvvv&PID_pppp` key name:
/// characters 8 to 12 and 17 to 21, read as hexadecimal.
pub open spec fn portable_usb_ids(name: Seq<char>) -> Result<(u16, u16), ExtractError> {
    if name.len() < 21 {
        Err(ExtractError::Unparsable)
    } else {
        match parse_hex_u16(strip_0x(name.subrange(8, 12))) {
            Err(e) => Err(ExtractError::BadId(e)),
            Ok(v) => match parse_hex_u16(strip_0x(name.subrange(17, 21))) {
                Err(e) => Err(ExtractError::BadId(e)),
                Ok(p) => Ok((v as u16, p as u16)),
            },
        }
    }
}

/// The disk fields of a key name of a disk form.
pub open spec fn disk_name_fields(name: Seq<char>, with_revision: bool) -> Option<Seq<Seq<char>>> {
    device_fields(name, "#DISK&VEN_"@, "&PROD_"@, "&REV_"@, with_revision)
}

/// Whether the key `at` is reported (`Ok(true)`), passed over
/// (`Ok(false)`), or cannot be read.
pub open spec fn portable_check(h: Hive, at: usize) -> Result<bool, ExtractError> {
    let name = h.cells@[at as int].name@;
    match name_form(name) {
        None => Ok(false),
        Some(NameForm::Usb) => match portable_usb_ids(name) {
            Err(e) => Err(e),
            Ok(_) => match optional_text(h, at, "FriendlyName"@) {
                Err(e) => Err(e),
                Ok(_) => Ok(true),
            },
        },
        Some(form) => {
            let parsed = match form {
                NameForm::DiskWithRevision => disk_name_fields(name, true) is Some,
                NameForm::Disk => disk_name_fields(name, false) is Some,
                _ => um_guid(name) is Some,
            };
            if !parsed {
                Err(ExtractError::Unparsable)
            } else {
                match optional_text(h, at, "FriendlyName"@) {
                    Err(e) => Err(e),
                    Ok(_) => Ok(true),
                }
            }
        },
    }
}

/// `e` reports the portable device of key `at`.
pub open spec fn portable_matches(h: Hive, vendors: Map<u16, crate::vendors::Vendor>, at: usize, e: PortableDevice) -> bool {
    let name = h.cells@[at as int].name@;
    &&& e.full_key_name@ == name
    &&& e.time_stamp == key_time(h, at)
    &&& match name_form(name) {
        Some(NameForm::Usb) => {
            let (vid, pid) = portable_usb_ids(name)->Ok_0;
            &&& e.vendorname@ == vendor_name_text(vendors, vid)
            &&& e.productname@ == product_name_text(vendors, vid, pid)
            &&& e.version@.len() == 0 && e.serialnumber@.len() == 0 && e.guid@.len() == 0
            &&& e.friendly_name@ == optional_text(h, at, "FriendlyName"@)->Ok_0
        },
        Some(NameForm::Software) => {
            &&& e.vendorname@.len() == 0 && e.productname@.len() == 0
            &&& e.version@.len() == 0 && e.serialnumber@.len() == 0
            &&& e.guid@ == um_guid(name)->Some_0
            &&& e.friendly_name@ == optional_text(h, at, "FriendlyName"@)->Ok_0
        },
        Some(form) => {
            let f = disk_name_fields(name, form is DiskWithRevision)->Some_0;
            &&& e.vendorname@ == f[0] && e.productname@ == f[1] && e.version@ == f[2]
            &&& e.serialnumber@ == f[3] && e.guid@ == f[4]
            &&& e.friendly_name@ == optional_text(h, at, "FriendlyName"@)->Ok_0
        },
        None => false,
    }
}

fn read_usb_ids(chars: &Vec<char>) -> (r: Result<(u16, u16), ExtractError>)
    ensures
        r == portable_usb_ids(chars@),
{
    if chars.len() < 21 {
        return Err(ExtractError::Unparsable);
    }
    let v = crate::devid::span_string(chars, 8, 12);
    let p = crate::devid::span_string(chars, 17, 21);
    let vid = match convert_to_int(v.as_str()) {
        Ok(x) => x,
        Err(e) => return Err(ExtractError::BadId(e)),
    };
    let pid = match convert_to_int(p.as_str()) {
        Ok(x) => x,
        Err(e) => return Err(ExtractError::BadId(e)),
    };
    Ok((vid, pid))
}

/// The report of one device key, if it is one that the report reads.
pub fn portable_entry(hive: &Hive, vendors: &VendorList, node: KeyNode) -> (r: Result<Option<PortableDevice>, ExtractError>)
    requires
        node.cell < hive.cells@.len(),
    ensures
        match portable_check(*hive, node.cell) {
            Err(e) => r == Err::<Option<PortableDevice>, ExtractError>(e),
            Ok(false) => r matches Ok(None),
            Ok(true) => r matches Ok(Some(d)) && portable_matches(*hive, vendors@, node.cell, d),
        },
{
    let name = hive.name(node);
    let chars = chars_of(name.as_str());
    let time_stamp = convert_win_time(hive.timestamp(node));
    if str_starts_with(name.as_str(), "SWD#") {
        let with_rev = find_from(&chars, "&REV", 0).is_some();
        let disk = find_from(&chars, "DISK&VEN", 0).is_some();
        if with_rev || disk {
            let id = match parse_device_id(&chars, "#DISK&VEN_", "&PROD_", "&REV_", with_rev) {
                Some(id) => id,
                None => return Err(ExtractError::Unparsable),
            };
            let friendly_name = optional_value_text(hive, node, "FriendlyName")?;
            Ok(
                Some(
                    PortableDevice {
                        full_key_name: name.clone(),
                        time_stamp,
                        vendorname: id.vendor,
                        productname: id.product,
                        version: id.revision,
                        serialnumber: id.serial,
                        guid: id.guid,
                        friendly_name,
                    },
                ),
            )
        } else {
            let guid = match parse_um_guid(&chars) {
                Some(g) => g,
                None => return Err(ExtractError::Unparsable),
            };
            let friendly_name = optional_value_text(hive, node, "FriendlyName")?;
            Ok(
                Some(
                    PortableDevice {
                        full_key_name: name.clone(),
                        time_stamp,
                        vendorname: String::new(),
                        productname: String::new(),
                        version: String::new(),
                        serialnumber: String::new(),
                        guid,
                        friendly_name,
                    },
                ),
            )
        }
    } else if str_starts_with(name.as_str(), "USB#") {
        let (vid, pid) = read_usb_ids(&chars)?;
        Ok(
            Some(
                PortableDevice {
                    full_key_name: name.clone(),
                    time_stamp,
                    vendorname: vendor_name(vendors, vid),
                    productname: product_name(vendors, vid, pid),
                    version: String::new(),
                    serialnumber: String::new(),
                    guid: String::new(),
                    friendly_name: optional_value_text(hive, node, "FriendlyName")?,
                },
            ),
        )
    } else {
        Ok(None)
    }
}

/// The reported device keys among `sids`, in order; the first that cannot
/// be read is the error.
pub open spec fn portable_below(h: Hive, sids: Seq<usize>) -> Result<Seq<usize>, ExtractError>
    decreases sids.len(),
{
    if sids.len() == 0 {
        Ok(Seq::empty())
    } else {
        match portable_below(h, sids.drop_last()) {
            Err(e) => Err(e),
            Ok(rest) => match portable_check(h, sids.last()) {
                Err(e) => Err(e),
                Ok(false) => Ok(rest),
                Ok(true) => Ok(rest.push(sids.last())),
            },
        }
    }
}

proof fn lemma_below_error_sticks(h: Hive, sids: Seq<usize>, n: int)
    requires
        0 <= n <= sids.len(),
        portable_below(h, sids.take(n)) is Err,
    ensures
        portable_below(h, sids) == portable_below(h, sids.take(n)),
    decreases sids.len() - n,
{
    if n < sids.len() {
        assert(sids.take(n + 1).drop_last() =~= sids.take(n));
        lemma_below_error_sticks(h, sids, n + 1);
    } else {
        assert(sids.take(n) =~= sids);
    }
}

/// The reported device keys below the `Devices` keys among `ids`, in order.
pub open spec fn portable_devices(h: Hive, ids: Seq<usize>) -> Result<Seq<usize>, ExtractError>
    decreases ids.len(),
{
    if ids.len() == 0 {
        Ok(Seq::empty())
    } else {
        match portable_devices(h, ids.drop_last()) {
            Err(e) => Err(e),
            Ok(rest) => {
                let k = ids.last();
                if !starts_with(h.cells@[k as int].name@, "Devices"@) {
                    Ok(rest)
                } else {
                    match subkeys_spec(h.cells@, k) {
                        Err(e) => Err(ExtractError::Format(e)),
                        Ok(None) => Err(ExtractError::NoSubkeys),
                        Ok(Some(sids)) => match portable_below(h, sids) {
                            Err(e) => Err(e),
                            Ok(ds) => Ok(rest + ds),
                        },
                    }
                }
            },
        }
    }
}

proof fn lemma_devices_error_sticks(h: Hive, ids: Seq<usize>, n: int)
    requires
        0 <= n <= ids.len(),
        portable_devices(h, ids.take(n)) is Err,
    ensures
        portable_devices(h, ids) == portable_devices(h, ids.take(n)),
    decreases ids.len() - n,
{
    if n < ids.len() {
        assert(ids.take(n + 1).drop_last() =~= ids.take(n));
        lemma_devices_error_sticks(h, ids, n + 1);
    } else {
        assert(ids.take(n) =~= ids);
    }
}

/// The portable devices that the SOFTWARE hive records, in key order.
pub fn sof_get_device_data(hive: &Hive, vendors: &VendorList) -> (r: Result<Vec<PortableDevice>, ExtractError>)
    ensures
        match subkeys_lookup(*hive, "Microsoft\\Windows Portable Devices"@) {
            Err(e) => r == Err::<Vec<PortableDevice>, ExtractError>(e),
            Ok(ids) => match portable_devices(*hive, ids) {
                Err(e) => r == Err::<Vec<PortableDevice>, ExtractError>(e),
                Ok(ds) => r matches Ok(es) && es@.len() == ds.len() && forall|k: int|
                    0 <= k < ds.len() ==> portable_matches(*hive, vendors@, ds[k], #[trigger] es@[k]),
            },
        },
{
    let keys = find_subkeys(hive, "Microsoft\\Windows Portable Devices")?;
    let ghost ids = keys@.map_values(|k: KeyNode| k.cell);
    proof {
        assert(ids =~= subkeys_lookup(*hive, "Microsoft\\Windows Portable Devices"@)->Ok_0);
        assert(ids.take(0) =~= Seq::<usize>::empty());
    }
    let mut out: Vec<PortableDevice> = Vec::new();
    let ghost mut ds: Seq<usize> = Seq::empty();
    let mut i: usize = 0;
    while i < keys.len()
        invariant
            i <= keys@.len(),
            ids == keys@.map_values(|k: KeyNode| k.cell),
            subkeys_lookup(*hive, "Microsoft\\Windows Portable Devices"@) == Ok::<Seq<usize>, ExtractError>(ids),
            forall|j: int| 0 <= j < keys@.len() ==> (#[trigger] keys@[j]).cell < hive.cells@.len(),
            portable_devices(*hive, ids.take(i as int)) == Ok::<Seq<usize>, ExtractError>(ds),
            out@.len() == ds.len(),
            forall|k: int| 0 <= k < ds.len() ==> portable_matches(*hive, vendors@, ds[k], #[trigger] out@[k]),
        decreases keys.len() - i,
    {
        let key = keys[i];
        proof {
            assert(ids.take(i as int + 1).drop_last() =~= ids.take(i as int));
            assert(ids.take(i as int + 1).last() == key.cell);
        }
        if str_starts_with(hive.name(key).as_str(), "Devices") {
            let subs = match hive.list_subkeys(key) {
                Ok(Some(s)) => s,
                Ok(None) => {
                    proof {
                        assert(portable_devices(*hive, ids.take(i as int + 1)) == Err::<Seq<usize>, ExtractError>(ExtractError::NoSubkeys));
                        lemma_devices_error_sticks(*hive, ids, i as int + 1);
                    }
                    return Err(ExtractError::NoSubkeys);
                },
                Err(e) => {
                    proof {
                        assert(portable_devices(*hive, ids.take(i as int + 1)) == Err::<Seq<usize>, ExtractError>(ExtractError::Format(e)));
                        lemma_devices_error_sticks(*hive, ids, i as int + 1);
                    }
                    return Err(ExtractError::Format(e));
                },
            };
            let ghost sids = subs@.map_values(|k: KeyNode| k.cell);
            proof {
                assert(sids =~= subkeys_spec(hive.cells@, key.cell)->Ok_0->Some_0);
                assert(sids.take(0) =~= Seq::<usize>::empty());
            }
            let ghost base = ds;
            let ghost mut below: Seq<usize> = Seq::empty();
            let mut j: usize = 0;
            while j < subs.len()
                invariant
                    j <= subs@.len(),
                    sids == subs@.map_values(|k: KeyNode| k.cell),
                    forall|t: int| 0 <= t < subs@.len() ==> (#[trigger] subs@[t]).cell < hive.cells@.len(),
                    portable_below(*hive, sids.take(j as int)) == Ok::<Seq<usize>, ExtractError>(below),
                    ds == base + below,
                    out@.len() == ds.len(),
                    forall|k: int| 0 <= k < ds.len() ==> portable_matches(*hive, vendors@, ds[k], #[trigger] out@[k]),
                    key.cell < hive.cells@.len(),
                    starts_with(hive.cells@[key.cell as int].name@, "Devices"@),
                    subkeys_spec(hive.cells@, key.cell) == Ok::<Option<Seq<usize>>, crate::hive::FormatError>(Some(sids)),
                    portable_devices(*hive, ids.take(i as int)) == Ok::<Seq<usize>, ExtractError>(base),
                    i < ids.len(),
                    subkeys_lookup(*hive, "Microsoft\\Windows Portable Devices"@) == Ok::<Seq<usize>, ExtractError>(ids),
                    ids.take(i as int + 1).drop_last() == ids.take(i as int),
                    ids.take(i as int + 1).last() == key.cell,
                decreases subs.len() - j,
            {
                let sk = subs[j];
                proof {
                    assert(sids.take(j as int + 1).drop_last() =~= sids.take(j as int));
                    assert(sids.take(j as int + 1).last() == sk.cell);
                }
                match portable_entry(hive, vendors, sk) {
                    Err(e) => {
                        proof {
                            assert(portable_below(*hive, sids.take(j as int + 1)) == Err::<Seq<usize>, ExtractError>(e));
                            lemma_below_error_sticks(*hive, sids, j as int + 1);
                            assert(portable_devices(*hive, ids.take(i as int + 1)) == Err::<Seq<usize>, ExtractError>(e));
                            lemma_devices_error_sticks(*hive, ids, i as int + 1);
                        }
                        return Err(e);
                    },
                    Ok(None) => {},
                    Ok(Some(d)) => {
                        out.push(d);
                        proof {
                            below = below.push(sk.cell);
                            ds = ds.push(sk.cell);
                            assert(ds =~= base + below);
                        }
                    },
                }
                j = j + 1;
            }
            proof {
                assert(sids.take(subs@.len() as int) =~= sids);
            }
        }
        i = i + 1;
    }
    proof {
        assert(ids.take(keys@.len() as int) =~= ids);
    }
    Ok(out)
}

} // verus!
