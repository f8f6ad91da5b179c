//! USB devices recorded under `ControlSet001\Enum\USB` of the SYSTEM hive.
//!
//! Each subkey named `VID_vvvv&PID_pppp` holds one subkey per device serial
//! number. A device is reported where its key has a `ParentIdPrefix` value;
//! its location and friendly name are reported where present (empty where
//! absent). A value that is present but not a string, or a value list that
//! cannot be read, is an error.

use vstd::prelude::*;
use vstd::string::*;

use crate::conv::{convert_to_hex, convert_to_int, hex_text, parse_hex_u16, strip_0x};
use crate::devid::chars_of;
use crate::extract::{
    find_subkeys, optional_text, optional_value_text, required_text, starts_with,
    str_starts_with, subkeys_lookup, text_lookup, ExtractError,
};
use crate::hive::{subkeys_spec, Hive, KeyNode};
use crate::vendors::{product_name, product_name_text, vendor_name, vendor_name_text, VendorList};
use crate::wintime::{convert_win_time, WinTimestamp};

verus! {

/// One USB device.
pub struct UsbEntry {
    pub vid: String,
    pub pid: String,
    pub vendorname: String,
    pub productname: String,
    pub serial_number: String,
    pub parentidprefix: String,
    pub friendly_name: String,
    pub location_information: String,
    pub time_stamp: WinTimestamp,
}

/// The vendor and product ids written in a `VID_vvvv&PID_pppp` key name:
/// characters 4 to 8 and 13 to 17, read as hexadecimal.
pub open spec fn usb_ids_of(name: Seq<char>) -> Result<(u16, u16), ExtractError> {
    if name.len() < 17 {
        Err(ExtractError::Unparsable)
    } else {
        match parse_hex_u16(strip_0x(name.subrange(4, 8))) {
            Err(e) => Err(ExtractError::BadId(e)),
            Ok(v) => match parse_hex_u16(strip_0x(name.subrange(13, 17))) {
                Err(e) => Err(ExtractError::BadId(e)),
                Ok(p) => Ok((v as u16, p as u16)),
            },
        }
    }
}

/// Whether the device key `at` is reported: `Ok(false)` where it has no
/// `ParentIdPrefix`; an error where one of its values cannot be read or is
/// not a string.
pub open spec fn usb_check(h: Hive, at: usize) -> Result<bool, ExtractError> {
    match text_lookup(h, at, "ParentIdPrefix"@) {
        Err(ExtractError::ValueNotFound) => Ok(false),
        Err(e) => Err(e),
        Ok(_) => match optional_text(h, at, "FriendlyName"@) {
            Err(e) => Err(e),
            Ok(_) => match optional_text(h, at, "LocationInformation"@) {
                Err(e) => Err(e),
                Ok(_) => Ok(true),
            },
        },
    }
}

/// `e` reports the device of key `at`, of vendor `vid` and product `pid`.
pub open spec fn usb_entry_matches(h: Hive, vendors: Map<u16, crate::vendors::Vendor>, dev: (u16, u16, usize), e: UsbEntry) -> bool {
    let (vid, pid, at) = dev;
    &&& e.vid@ == hex_text(vid)
    &&& e.pid@ == hex_text(pid)
    &&& e.vendorname@ == vendor_name_text(vendors, vid)
    &&& e.productname@ == product_name_text(vendors, vid, pid)
    &&& e.serial_number@ == h.cells@[at as int].name@
    &&& e.parentidprefix@ == text_lookup(h, at, "ParentIdPrefix"@)->Ok_0
    &&& e.friendly_name@ == optional_text(h, at, "FriendlyName"@)->Ok_0
    &&& e.location_information@ == optional_text(h, at, "LocationInformation"@)->Ok_0
    &&& e.time_stamp == WinTimestamp { micros: h.cells@[at as int].timestamp / 10 }
}

/// The reported devices among the keys `ids`, in order; the first key that
/// cannot be read is the error.
pub open spec fn reported_devices(h: Hive, vid: u16, pid: u16, ids: Seq<usize>) -> Result<Seq<(u16, u16, usize)>, ExtractError>
    decreases ids.len(),
{
    if ids.len() == 0 {
        Ok(Seq::empty())
    } else {
        match reported_devices(h, vid, pid, ids.drop_last()) {
            Err(e) => Err(e),
            Ok(rest) => match usb_check(h, ids.last()) {
                Err(e) => Err(e),
                Ok(false) => Ok(rest),
                Ok(true) => Ok(rest.push((vid, pid, ids.last()))),
            },
        }
    }
}

proof fn lemma_reported_error_sticks(h: Hive, vid: u16, pid: u16, ids: Seq<usize>, n: int)
    requires
        0 <= n <= ids.len(),
        reported_devices(h, vid, pid, ids.take(n)) is Err,
    ensures
        reported_devices(h, vid, pid, ids) == reported_devices(h, vid, pid, ids.take(n)),
    decreases ids.len() - n,
{
    if n < ids.len() {
        assert(ids.take(n + 1).drop_last() =~= ids.take(n));
        lemma_reported_error_sticks(h, vid, pid, ids, n + 1);
    } else {
        assert(ids.take(n) =~= ids);
    }
}

/// The devices of the product keys `ids`, in order; the first key whose
/// name or serial list cannot be read is the error.
pub open spec fn usb_devices(h: Hive, ids: Seq<usize>) -> Result<Seq<(u16, u16, usize)>, ExtractError>
    decreases ids.len(),
{
    if ids.len() == 0 {
        Ok(Seq::empty())
    } else {
        match usb_devices(h, ids.drop_last()) {
            Err(e) => Err(e),
            Ok(rest) => {
                let at = ids.last();
                let name = h.cells@[at as int].name@;
                if !starts_with(name, "VID_"@) {
                    Ok(rest)
                } else {
                    match usb_ids_of(name) {
                        Err(e) => Err(e),
                        Ok((vid, pid)) => match subkeys_spec(h.cells@, at) {
                            Err(e) => Err(ExtractError::Format(e)),
                            Ok(None) => Err(ExtractError::NoSubkeys),
                            Ok(Some(sids)) => match reported_devices(h, vid, pid, sids) {
                                Err(e) => Err(e),
                                Ok(ds) => Ok(rest + ds),
                            },
                        },
                    }
                }
            },
        }
    }
}

/// Once a prefix of the product keys fails, the whole list fails the same
/// way.
proof fn lemma_usb_error_sticks(h: Hive, ids: Seq<usize>, n: int)
    requires
        0 <= n <= ids.len(),
        usb_devices(h, ids.take(n)) is Err,
    ensures
        usb_devices(h, ids) == usb_devices(h, ids.take(n)),
    decreases ids.len() - n,
{
    if n < ids.len() {
        assert(ids.take(n + 1).drop_last() =~= ids.take(n));
        lemma_usb_error_sticks(h, ids, n + 1);
    } else {
        assert(ids.take(n) =~= ids);
    }
}

/// Reads the vendor and product ids of a `VID_vvvv&PID_pppp` key name.
pub fn usb_ids(name: &str) -> (r: Result<(u16, u16), ExtractError>)
    ensures
        r == usb_ids_of(name@),
{
    let chars = chars_of(name);
    if chars.len() < 17 {
        return Err(ExtractError::Unparsable);
    }
    let v = crate::devid::span_string(&chars, 4, 8);
    let p = crate::devid::span_string(&chars, 13, 17);
    let vid = match convert_to_int(v.as_str()) {
        Ok(x) => x,
        Err(e) => return Err(ExtractError::BadId(e)),
    };
    let pid = match convert_to_int(p.as_str()) {
        Ok(x) => x,
        Err(e) => return Err(ExtractError::BadId(e)),
    };
    Ok((vid, pid))
}

/// The report of one device key; `None` where it has no `ParentIdPrefix`.
fn usb_entry(hive: &Hive, vendors: &VendorList, vid: u16, pid: u16, node: KeyNode) -> (r: Result<Option<UsbEntry>, ExtractError>)
    requires
        node.cell < hive.cells@.len(),
    ensures
        match usb_check(*hive, node.cell) {
            Err(e) => r == Err::<Option<UsbEntry>, ExtractError>(e),
            Ok(false) => r matches Ok(None),
            Ok(true) => r matches Ok(Some(e)) && usb_entry_matches(*hive, vendors@, (vid, pid, node.cell), e),
        },
{
    let parentidprefix = match required_text(hive, node, "ParentIdPrefix") {
        Err(ExtractError::ValueNotFound) => return Ok(None),
        Err(e) => return Err(e),
        Ok(s) => s,
    };
    let friendly_name = optional_value_text(hive, node, "FriendlyName")?;
    let location_information = optional_value_text(hive, node, "LocationInformation")?;
    Ok(
        Some(
            UsbEntry {
                vid: convert_to_hex(vid),
                pid: convert_to_hex(pid),
                vendorname: vendor_name(vendors, vid),
                productname: product_name(vendors, vid, pid),
                serial_number: hive.name(node).clone(),
                parentidprefix,
                friendly_name,
                location_information,
                time_stamp: convert_win_time(hive.timestamp(node)),
            },
        ),
    )
}

/// The USB devices that the SYSTEM hive records, in key order.
pub fn sys_get_usb_data(hive: &Hive, vendors: &VendorList) -> (r: Result<Vec<UsbEntry>, ExtractError>)
    ensures
        match subkeys_lookup(*hive, "ControlSet001\\Enum\\USB"@) {
            Err(e) => r == Err::<Vec<UsbEntry>, ExtractError>(e),
            Ok(ids) => match usb_devices(*hive, ids) {
                Err(e) => r == Err::<Vec<UsbEntry>, ExtractError>(e),
                Ok(devs) => r matches Ok(es) && es@.len() == devs.len() && forall|k: int|
                    0 <= k < devs.len() ==> usb_entry_matches(*hive, vendors@, devs[k], #[trigger] es@[k]),
            },
        },
{
    let keys = find_subkeys(hive, "ControlSet001\\Enum\\USB")?;
    let ghost ids = keys@.map_values(|k: KeyNode| k.cell);
    proof {
        assert(ids =~= subkeys_lookup(*hive, "ControlSet001\\Enum\\USB"@)->Ok_0);
        assert(ids.take(0) =~= Seq::<usize>::empty());
    }
    let mut out: Vec<UsbEntry> = Vec::new();
    let ghost mut devs: Seq<(u16, u16, usize)> = Seq::empty();
    let mut i: usize = 0;
    while i < keys.len()
        invariant
            i <= keys@.len(),
            ids == keys@.map_values(|k: KeyNode| k.cell),
            subkeys_lookup(*hive, "ControlSet001\\Enum\\USB"@) == Ok::<Seq<usize>, ExtractError>(ids),
            forall|j: int| 0 <= j < keys@.len() ==> (#[trigger] keys@[j]).cell < hive.cells@.len(),
            usb_devices(*hive, ids.take(i as int)) == Ok::<Seq<(u16, u16, usize)>, ExtractError>(devs),
            out@.len() == devs.len(),
            forall|k: int| 0 <= k < devs.len() ==> usb_entry_matches(*hive, vendors@, devs[k], #[trigger] out@[k]),
        decreases keys.len() - i,
    {
        let key = keys[i];
        proof {
            assert(ids.take(i as int + 1).drop_last() =~= ids.take(i as int));
            assert(ids.take(i as int + 1).last() == key.cell);
        }
        if str_starts_with(hive.name(key).as_str(), "VID_") {
            let (vid, pid) = match usb_ids(hive.name(key).as_str()) {
                Ok(x) => x,
                Err(e) => {
                    proof {
                        assert(usb_devices(*hive, ids.take(i as int + 1)) == Err::<Seq<(u16, u16, usize)>, ExtractError>(e));
                        lemma_usb_error_sticks(*hive, ids, i as int + 1);
                    }
                    return Err(e);
                },
            };
            let serials = match hive.list_subkeys(key) {
                Ok(Some(s)) => s,
                Ok(None) => {
                    proof {
                        assert(usb_devices(*hive, ids.take(i as int + 1)) == Err::<Seq<(u16, u16, usize)>, ExtractError>(ExtractError::NoSubkeys));
                        lemma_usb_error_sticks(*hive, ids, i as int + 1);
                    }
                    return Err(ExtractError::NoSubkeys);
                },
                Err(e) => {
                    proof {
                        assert(usb_devices(*hive, ids.take(i as int + 1)) == Err::<Seq<(u16, u16, usize)>, ExtractError>(ExtractError::Format(e)));
                        lemma_usb_error_sticks(*hive, ids, i as int + 1);
                    }
                    return Err(ExtractError::Format(e));
                },
            };
            let ghost sids = serials@.map_values(|k: KeyNode| k.cell);
            proof {
                assert(sids =~= subkeys_spec(hive.cells@, key.cell)->Ok_0->Some_0);
                assert(sids.take(0) =~= Seq::<usize>::empty());
            }
            let ghost base = devs;
            let ghost mut below: Seq<(u16, u16, usize)> = Seq::empty();
            let mut s: usize = 0;
            while s < serials.len()
                invariant
                    s <= serials@.len(),
                    sids == serials@.map_values(|k: KeyNode| k.cell),
                    forall|j: int| 0 <= j < serials@.len() ==> (#[trigger] serials@[j]).cell < hive.cells@.len(),
                    reported_devices(*hive, vid, pid, sids.take(s as int)) == Ok::<Seq<(u16, u16, usize)>, ExtractError>(below),
                    devs == base + below,
                    out@.len() == devs.len(),
                    forall|k: int| 0 <= k < devs.len() ==> usb_entry_matches(*hive, vendors@, devs[k], #[trigger] out@[k]),
                    i < ids.len(),
                    key.cell < hive.cells@.len(),
                    starts_with(hive.cells@[key.cell as int].name@, "VID_"@),
                    usb_ids_of(hive.cells@[key.cell as int].name@) == Ok::<(u16, u16), ExtractError>((vid, pid)),
                    subkeys_spec(hive.cells@, key.cell) == Ok::<Option<Seq<usize>>, crate::hive::FormatError>(Some(sids)),
                    subkeys_lookup(*hive, "ControlSet001\\Enum\\USB"@) == Ok::<Seq<usize>, ExtractError>(ids),
                    usb_devices(*hive, ids.take(i as int)) == Ok::<Seq<(u16, u16, usize)>, ExtractError>(base),
                    ids.take(i as int + 1).drop_last() == ids.take(i as int),
                    ids.take(i as int + 1).last() == key.cell,
                decreases serials.len() - s,
            {
                let sk = serials[s];
                proof {
                    assert(sids.take(s as int + 1).drop_last() =~= sids.take(s as int));
                    assert(sids.take(s as int + 1).last() == sk.cell);
                }
                match usb_entry(hive, vendors, vid, pid, sk) {
                    Err(e) => {
                        proof {
                            assert(reported_devices(*hive, vid, pid, sids.take(s as int + 1)) == Err::<Seq<(u16, u16, usize)>, ExtractError>(e));
                            lemma_reported_error_sticks(*hive, vid, pid, sids, s as int + 1);
                            assert(usb_devices(*hive, ids.take(i as int + 1)) == Err::<Seq<(u16, u16, usize)>, ExtractError>(e));
                            lemma_usb_error_sticks(*hive, ids, i as int + 1);
                        }
                        return Err(e);
                    },
                    Ok(None) => {},
                    Ok(Some(e)) => {
                        out.push(e);
                        proof {
                            below = below.push((vid, pid, sk.cell));
                            devs = devs.push((vid, pid, sk.cell));
                            assert(devs =~= base + below);
                        }
                    },
                }
                s = s + 1;
            }
            proof {
                assert(sids.take(serials@.len() as int) =~= sids);
            }
        }
        i = i + 1;
    }
    proof {
        assert(ids.take(keys@.len() as int) =~= ids);
    }
    Ok(out)
}

} // verus!
