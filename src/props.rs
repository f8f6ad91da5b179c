//! Connection times kept in a device key's property store, and the device
//! reports that read them: HID, USB storage and SCSI devices of the SYSTEM
//! hive.
//!
//! A device key holds `Properties\{83da...}\0064` (first connection),
//! `...\0066` (last connection) and `...\0067` (last removal); each time is
//! the last-write time of that key. Where several keys begin alike, the
//! first is taken.

use vstd::prelude::*;
use vstd::string::*;

use crate::conv::{convert_to_hex, hex_text};
use crate::devid::{chars_of, disk_fields, parse_disk_id};
use crate::extract::{
    find_subkeys, find_value, optional_text, optional_value_text, starts_with, str_starts_with,
    subkeys_lookup, value_lookup,
    ExtractError,
};
use crate::hive::{subkeys_spec, Hive, KeyCell, KeyNode};
use crate::usb::{usb_ids, usb_ids_of};
use crate::vendors::{product_name, product_name_text, vendor_name, vendor_name_text, VendorList};
use crate::wintime::{convert_win_time, WinTimestamp};

verus! {

/// The first of the keys `ids` whose name begins with `p`.
pub open spec fn first_with_prefix(cells: Seq<KeyCell>, ids: Seq<usize>, p: Seq<char>) -> Option<usize>
    decreases ids.len(),
{
    if ids.len() == 0 {
        None
    } else if starts_with(cells[ids[0] as int].name@, p) {
        Some(ids[0])
    } else {
        first_with_prefix(cells, ids.drop_first(), p)
    }
}

/// The first subkey of `at` whose name begins with `p`; an error where `at`
/// has no readable subkey list.
pub open spec fn child_with_prefix(h: Hive, at: usize, p: Seq<char>) -> Result<Option<usize>, ExtractError> {
    match subkeys_spec(h.cells@, at) {
        Err(e) => Err(ExtractError::Format(e)),
        Ok(None) => Err(ExtractError::NoSubkeys),
        Ok(Some(ids)) => Ok(first_with_prefix(h.cells@, ids, p)),
    }
}

/// The first subkey of `node` whose name begins with `p`.
pub fn find_child_with_prefix(hive: &Hive, node: KeyNode, p: &str) -> (r: Result<Option<KeyNode>, ExtractError>)
    requires
        node.cell < hive.cells@.len(),
    ensures
        match child_with_prefix(*hive, node.cell, p@) {
            Err(e) => r == Err::<Option<KeyNode>, ExtractError>(e),
            Ok(None) => r == Ok::<Option<KeyNode>, ExtractError>(None),
            Ok(Some(c)) => r == Ok::<Option<KeyNode>, ExtractError>(Some(KeyNode { cell: c }))
                && c < hive.cells@.len(),
        },
{
    let ks = match hive.list_subkeys(node) {
        Ok(Some(ks)) => ks,
        Ok(None) => return Err(ExtractError::NoSubkeys),
        Err(e) => return Err(ExtractError::Format(e)),
    };
    let ghost ids = ks@.map_values(|k: KeyNode| k.cell);
    proof {
        assert(ids =~= subkeys_spec(hive.cells@, node.cell)->Ok_0->Some_0);
        assert(ids.skip(0) =~= ids);
    }
    let mut i: usize = 0;
    while i < ks.len()
        invariant
            i <= ks@.len(),
            ids == ks@.map_values(|k: KeyNode| k.cell),
            node.cell < hive.cells@.len(),
            subkeys_spec(hive.cells@, node.cell) == Ok::<Option<Seq<usize>>, crate::hive::FormatError>(Some(ids)),
            forall|j: int| 0 <= j < ks@.len() ==> (#[trigger] ks@[j]).cell < hive.cells@.len(),
            first_with_prefix(hive.cells@, ids, p@) == first_with_prefix(hive.cells@, ids.skip(i as int), p@),
        decreases ks.len() - i,
    {
        let k = ks[i];
        proof {
            assert(ids.skip(i as int)[0] == k.cell);
            assert(ids.skip(i as int).drop_first() =~= ids.skip(i as int + 1));
        }
        if str_starts_with(hive.name(k).as_str(), p) {
            return Ok(Some(k));
        }
        i = i + 1;
    }
    proof {
        assert(ids.skip(i as int) =~= Seq::<usize>::empty());
    }
    Ok(None)
}

/// The timestamp of the key in cell `c`.
pub open spec fn key_time(h: Hive, c: usize) -> WinTimestamp {
    WinTimestamp { micros: h.cells@[c as int].timestamp / 10 }
}

/// The keys whose times are the first connection, last connection and
/// (where `removal` holds) last removal of device `at`; `None` where one of
/// them is absent.
pub open spec fn connection_cells(h: Hive, at: usize, removal: bool) -> Result<Option<(usize, usize, Option<usize>)>, ExtractError> {
    match child_with_prefix(h, at, "Properties"@) {
        Err(e) => Err(e),
        Ok(None) => Ok(None),
        Ok(Some(props)) => match child_with_prefix(h, props, "{83da"@) {
            Err(e) => Err(e),
            Ok(None) => Ok(None),
            Ok(Some(cls)) => match child_with_prefix(h, cls, "0064"@) {
                Err(e) => Err(e),
                Ok(None) => Ok(None),
                Ok(Some(fc)) => match child_with_prefix(h, cls, "0066"@) {
                    Err(e) => Err(e),
                    Ok(None) => Ok(None),
                    Ok(Some(lc)) => if removal {
                        match child_with_prefix(h, cls, "0067"@) {
                            Err(e) => Err(e),
                            Ok(None) => Ok(None),
                            Ok(Some(lr)) => Ok(Some((fc, lc, Some(lr)))),
                        }
                    } else {
                        Ok(Some((fc, lc, None)))
                    },
                },
            },
        },
    }
}

/// When a device was first connected, last connected and last removed.
#[derive(Clone, Copy, Debug, PartialEq, Eq, Structural)]
pub struct ConnectionTimes {
    pub first_connected: WinTimestamp,
    pub last_connected: WinTimestamp,
    pub last_removed: Option<WinTimestamp>,
}

/// The times of the keys `cs`.
pub open spec fn times_of(h: Hive, cs: (usize, usize, Option<usize>)) -> ConnectionTimes {
    ConnectionTimes {
        first_connected: key_time(h, cs.0),
        last_connected: key_time(h, cs.1),
        last_removed: match cs.2 {
            Some(c) => Some(key_time(h, c)),
            None => None,
        },
    }
}

/// The connection times of device `node`.
pub fn connection_times(hive: &Hive, node: KeyNode, removal: bool) -> (r: Result<Option<ConnectionTimes>, ExtractError>)
    requires
        node.cell < hive.cells@.len(),
    ensures
        match connection_cells(*hive, node.cell, removal) {
            Err(e) => r == Err::<Option<ConnectionTimes>, ExtractError>(e),
            Ok(None) => r == Ok::<Option<ConnectionTimes>, ExtractError>(None),
            Ok(Some(cs)) => r == Ok::<Option<ConnectionTimes>, ExtractError>(Some(times_of(*hive, cs))),
        },
{
    let props = match find_child_with_prefix(hive, node, "Properties")? {
        Some(k) => k,
        None => return Ok(None),
    };
    let cls = match find_child_with_prefix(hive, props, "{83da")? {
        Some(k) => k,
        None => return Ok(None),
    };
    let fc = match find_child_with_prefix(hive, cls, "0064")? {
        Some(k) => k,
        None => return Ok(None),
    };
    let lc = match find_child_with_prefix(hive, cls, "0066")? {
        Some(k) => k,
        None => return Ok(None),
    };
    let lr = if removal {
        match find_child_with_prefix(hive, cls, "0067")? {
            Some(k) => Some(convert_win_time(hive.timestamp(k))),
            None => return Ok(None),
        }
    } else {
        None
    };
    Ok(
        Some(
            ConnectionTimes {
                first_connected: convert_win_time(hive.timestamp(fc)),
                last_connected: convert_win_time(hive.timestamp(lc)),
                last_removed: lr,
            },
        ),
    )
}

/// The connection keys of a device.
pub type ConnCells = (usize, usize, Option<usize>);

/// The devices among the serial keys `sids` that have connection times,
/// in order, with those keys; the first that cannot be read is the error.
/// Where `reads_name` holds, a `FriendlyName` that cannot be read or is not
/// a string is such an error; where `named` holds, a key without a
/// `FriendlyName` is passed over.
pub open spec fn timed_devices(h: Hive, sids: Seq<usize>, removal: bool, named: bool, reads_name: bool) -> Result<Seq<(usize, ConnCells)>, ExtractError>
    decreases sids.len(),
{
    if sids.len() == 0 {
        Ok(Seq::empty())
    } else {
        match timed_devices(h, sids.drop_last(), removal, named, reads_name) {
            Err(e) => Err(e),
            Ok(rest) => if reads_name && optional_text(h, sids.last(), "FriendlyName"@) is Err {
                Err(optional_text(h, sids.last(), "FriendlyName"@)->Err_0)
            } else if named && value_lookup(h, sids.last(), "FriendlyName"@) is Err {
                Ok(rest)
            } else {
                match connection_cells(h, sids.last(), removal) {
                    Err(e) => Err(e),
                    Ok(None) => Ok(rest),
                    Ok(Some(cs)) => Ok(rest.push((sids.last(), cs))),
                }
            },
        }
    }
}

proof fn lemma_timed_error_sticks(h: Hive, sids: Seq<usize>, removal: bool, named: bool, reads_name: bool, n: int)
    requires
        0 <= n <= sids.len(),
        timed_devices(h, sids.take(n), removal, named, reads_name) is Err,
    ensures
        timed_devices(h, sids, removal, named, reads_name) == timed_devices(h, sids.take(n), removal, named, reads_name),
    decreases sids.len() - n,
{
    if n < sids.len() {
        assert(sids.take(n + 1).drop_last() =~= sids.take(n));
        lemma_timed_error_sticks(h, sids, removal, named, reads_name, n + 1);
    } else {
        assert(sids.take(n) =~= sids);
    }
}

/// The timed devices below the serial keys of `node`, each with its
/// connection times, in order; see `timed_devices`.
pub fn timed_serials(hive: &Hive, node: KeyNode, removal: bool, named: bool, reads_name: bool) -> (r: Result<Vec<(KeyNode, ConnectionTimes)>, ExtractError>)
    requires
        node.cell < hive.cells@.len(),
    ensures
        match subkeys_spec(hive.cells@, node.cell) {
            Err(e) => r == Err::<Vec<(KeyNode, ConnectionTimes)>, ExtractError>(ExtractError::Format(e)),
            Ok(None) => r == Err::<Vec<(KeyNode, ConnectionTimes)>, ExtractError>(ExtractError::NoSubkeys),
            Ok(Some(sids)) => match timed_devices(*hive, sids, removal, named, reads_name) {
                Err(e) => r == Err::<Vec<(KeyNode, ConnectionTimes)>, ExtractError>(e),
                Ok(ds) => r matches Ok(v) && v@.len() == ds.len() && forall|k: int|
                    0 <= k < ds.len() ==> (#[trigger] v@[k]).0.cell == ds[k].0 && v@[k].0.cell
                        < hive.cells@.len() && v@[k].1 == times_of(*hive, ds[k].1) && (reads_name
                        ==> optional_text(*hive, ds[k].0, "FriendlyName"@) is Ok),
            },
        },
{
    let ks = match hive.list_subkeys(node) {
        Ok(Some(ks)) => ks,
        Ok(None) => return Err(ExtractError::NoSubkeys),
        Err(e) => return Err(ExtractError::Format(e)),
    };
    let ghost sids = ks@.map_values(|k: KeyNode| k.cell);
    proof {
        assert(sids =~= subkeys_spec(hive.cells@, node.cell)->Ok_0->Some_0);
        assert(sids.take(0) =~= Seq::<usize>::empty());
    }
    let mut out: Vec<(KeyNode, ConnectionTimes)> = Vec::new();
    let ghost mut ds: Seq<(usize, ConnCells)> = Seq::empty();
    let mut i: usize = 0;
    while i < ks.len()
        invariant
            i <= ks@.len(),
            sids == ks@.map_values(|k: KeyNode| k.cell),
            node.cell < hive.cells@.len(),
            subkeys_spec(hive.cells@, node.cell) == Ok::<Option<Seq<usize>>, crate::hive::FormatError>(Some(sids)),
            forall|j: int| 0 <= j < ks@.len() ==> (#[trigger] ks@[j]).cell < hive.cells@.len(),
            timed_devices(*hive, sids.take(i as int), removal, named, reads_name) == Ok::<Seq<(usize, ConnCells)>, ExtractError>(ds),
            out@.len() == ds.len(),
            forall|k: int|
                0 <= k < ds.len() ==> (#[trigger] out@[k]).0.cell == ds[k].0 && out@[k].0.cell
                    < hive.cells@.len() && out@[k].1 == times_of(*hive, ds[k].1) && (reads_name
                    ==> optional_text(*hive, ds[k].0, "FriendlyName"@) is Ok),
        decreases ks.len() - i,
    {
        let k = ks[i];
        proof {
            assert(sids.take(i as int + 1).drop_last() =~= sids.take(i as int));
            assert(sids.take(i as int + 1).last() == k.cell);
        }
        if reads_name {
            match optional_value_text(hive, k, "FriendlyName") {
                Err(e) => {
                    proof {
                        assert(timed_devices(*hive, sids.take(i as int + 1), removal, named, reads_name) == Err::<Seq<(usize, ConnCells)>, ExtractError>(e));
                        lemma_timed_error_sticks(*hive, sids, removal, named, reads_name, i as int + 1);
                    }
                    return Err(e);
                },
                Ok(_) => {},
            }
        }
        if named && find_value(hive, k, "FriendlyName").is_err() {
            i = i + 1;
            continue;
        }
        match connection_times(hive, k, removal) {
            Err(e) => {
                proof {
                    assert(timed_devices(*hive, sids.take(i as int + 1), removal, named, reads_name) == Err::<Seq<(usize, ConnCells)>, ExtractError>(e));
                    lemma_timed_error_sticks(*hive, sids, removal, named, reads_name, i as int + 1);
                }
                return Err(e);
            },
            Ok(None) => {},
            Ok(Some(t)) => {
                out.push((k, t));
                proof {
                    ds = ds.push((k.cell, connection_cells(*hive, k.cell, removal)->Ok_0->Some_0));
                }
            },
        }
        i = i + 1;
    }
    proof {
        assert(sids.take(ks@.len() as int) =~= sids);
    }
    Ok(out)
}

/// The kinds of device key that the device reports read.
#[derive(Clone, Copy, Debug, PartialEq, Eq, Structural)]
pub enum DeviceClass {
    /// `Enum\HID`: keys named `VID_vvvv&PID_pppp` (or `Vid...`).
    Hid,
    /// `Enum\USBSTOR`: keys named `Disk&Ven_v&Prod_p&Rev_r`.
    UsbStor,
    /// `Enum\SCSI`: keys named `Disk&Ven_v&Prod_p` or `CdRom&Ven_v&Prod_p`.
    Scsi,
}

/// The marker before the vendor in a SCSI key name.
pub open spec fn scsi_marker(name: Seq<char>) -> Seq<char> {
    if starts_with(name, "Disk&Ven_"@) {
        "Disk&Ven_"@
    } else {
        "CdRom&Ven_"@
    }
}

/// Whether a report reads the key named `name`.
pub open spec fn class_selects(c: DeviceClass, name: Seq<char>) -> bool {
    match c {
        DeviceClass::Hid => starts_with(name, "VID_"@) || starts_with(name, "Vid"@),
        DeviceClass::UsbStor => true,
        DeviceClass::Scsi => starts_with(name, "Disk&Ven_"@) || starts_with(name, "CdRom&Ven_"@),
    }
}

/// Whether the name of a read key holds what the report needs from it.
pub open spec fn class_key_check(c: DeviceClass, name: Seq<char>) -> Result<(), ExtractError> {
    match c {
        DeviceClass::Hid => match usb_ids_of(name) {
            Ok(_) => Ok(()),
            Err(e) => Err(e),
        },
        DeviceClass::UsbStor => if disk_fields(name, "Disk&Ven_"@, true) is Some {
            Ok(())
        } else {
            Err(ExtractError::Unparsable)
        },
        DeviceClass::Scsi => if disk_fields(name, scsi_marker(name), false) is Some {
            Ok(())
        } else {
            Err(ExtractError::Unparsable)
        },
    }
}

/// The devices of a report below the keys `ids`, in order, as (device key,
/// serial key, connection keys); the first key that cannot be read is the
/// error.
pub open spec fn class_devices(h: Hive, c: DeviceClass, ids: Seq<usize>) -> Result<Seq<(usize, usize, ConnCells)>, ExtractError>
    decreases ids.len(),
{
    if ids.len() == 0 {
        Ok(Seq::empty())
    } else {
        match class_devices(h, c, ids.drop_last()) {
            Err(e) => Err(e),
            Ok(rest) => {
                let k = ids.last();
                let name = h.cells@[k as int].name@;
                if !class_selects(c, name) {
                    Ok(rest)
                } else {
                    match class_key_check(c, name) {
                        Err(e) => Err(e),
                        Ok(_) => match subkeys_spec(h.cells@, k) {
                            Err(e) => Err(ExtractError::Format(e)),
                            Ok(None) => Err(ExtractError::NoSubkeys),
                            Ok(Some(sids)) => match timed_devices(
                                h,
                                sids,
                                c == DeviceClass::UsbStor,
                                c == DeviceClass::UsbStor,
                                c != DeviceClass::Hid,
                            ) {
                                Err(e) => Err(e),
                                Ok(ds) => Ok(
                                    rest + ds.map_values(|d: (usize, ConnCells)| (k, d.0, d.1)),
                                ),
                            },
                        },
                    }
                }
            },
        }
    }
}

proof fn lemma_class_error_sticks(h: Hive, c: DeviceClass, ids: Seq<usize>, n: int)
    requires
        0 <= n <= ids.len(),
        class_devices(h, c, ids.take(n)) is Err,
    ensures
        class_devices(h, c, ids) == class_devices(h, c, ids.take(n)),
    decreases ids.len() - n,
{
    if n < ids.len() {
        assert(ids.take(n + 1).drop_last() =~= ids.take(n));
        lemma_class_error_sticks(h, c, ids, n + 1);
    } else {
        assert(ids.take(n) =~= ids);
    }
}

fn class_selects_name(c: DeviceClass, name: &str) -> (r: bool)
    ensures
        r == class_selects(c, name@),
{
    match c {
        DeviceClass::Hid => str_starts_with(name, "VID_") || str_starts_with(name, "Vid"),
        DeviceClass::UsbStor => true,
        DeviceClass::Scsi => str_starts_with(name, "Disk&Ven_") || str_starts_with(name, "CdRom&Ven_"),
    }
}

fn check_class_key(c: DeviceClass, name: &str) -> (r: Result<(), ExtractError>)
    ensures
        r == class_key_check(c, name@),
{
    match c {
        DeviceClass::Hid => match usb_ids(name) {
            Ok(_) => Ok(()),
            Err(e) => Err(e),
        },
        DeviceClass::UsbStor => {
            let chars = chars_of(name);
            if parse_disk_id(&chars, "Disk&Ven_", true).is_some() {
                Ok(())
            } else {
                Err(ExtractError::Unparsable)
            }
        },
        DeviceClass::Scsi => {
            let chars = chars_of(name);
            let marker = if str_starts_with(name, "Disk&Ven_") { "Disk&Ven_" } else { "CdRom&Ven_" };
            if parse_disk_id(&chars, marker, false).is_some() {
                Ok(())
            } else {
                Err(ExtractError::Unparsable)
            }
        },
    }
}

/// The devices of a report below the key at `path`, in key order.
fn class_device_keys(hive: &Hive, path: &str, c: DeviceClass) -> (r: Result<Vec<(KeyNode, KeyNode, ConnectionTimes)>, ExtractError>)
    ensures
        match subkeys_lookup(*hive, path@) {
            Err(e) => r == Err::<Vec<(KeyNode, KeyNode, ConnectionTimes)>, ExtractError>(e),
            Ok(ids) => match class_devices(*hive, c, ids) {
                Err(e) => r == Err::<Vec<(KeyNode, KeyNode, ConnectionTimes)>, ExtractError>(e),
                Ok(ds) => r matches Ok(v) && v@.len() == ds.len() && forall|k: int|
                    0 <= k < ds.len() ==> device_row(*hive, c, ds[k], #[trigger] v@[k]),
            },
        },
{
    let keys = find_subkeys(hive, path)?;
    let ghost ids = keys@.map_values(|k: KeyNode| k.cell);
    proof {
        assert(ids =~= subkeys_lookup(*hive, path@)->Ok_0);
        assert(ids.take(0) =~= Seq::<usize>::empty());
    }
    let mut out: Vec<(KeyNode, KeyNode, ConnectionTimes)> = Vec::new();
    let ghost mut ds: Seq<(usize, usize, ConnCells)> = Seq::empty();
    let mut i: usize = 0;
    while i < keys.len()
        invariant
            i <= keys@.len(),
            ids == keys@.map_values(|k: KeyNode| k.cell),
            subkeys_lookup(*hive, path@) == Ok::<Seq<usize>, ExtractError>(ids),
            forall|j: int| 0 <= j < keys@.len() ==> (#[trigger] keys@[j]).cell < hive.cells@.len(),
            class_devices(*hive, c, ids.take(i as int)) == Ok::<Seq<(usize, usize, ConnCells)>, ExtractError>(ds),
            out@.len() == ds.len(),
            forall|k: int| 0 <= k < ds.len() ==> device_row(*hive, c, ds[k], #[trigger] out@[k]),
        decreases keys.len() - i,
    {
        let key = keys[i];
        proof {
            assert(ids.take(i as int + 1).drop_last() =~= ids.take(i as int));
            assert(ids.take(i as int + 1).last() == key.cell);
        }
        if class_selects_name(c, hive.name(key).as_str()) {
            match check_class_key(c, hive.name(key).as_str()) {
                Err(e) => {
                    proof {
                        assert(class_devices(*hive, c, ids.take(i as int + 1)) == Err::<Seq<(usize, usize, ConnCells)>, ExtractError>(e));
                        lemma_class_error_sticks(*hive, c, ids, i as int + 1);
                    }
                    return Err(e);
                },
                Ok(_) => {},
            }
            let is_stor = c == DeviceClass::UsbStor;
            let reads_name = c != DeviceClass::Hid;
            match timed_serials(hive, key, is_stor, is_stor, reads_name) {
                Err(e) => {
                    proof {
                        assert(class_devices(*hive, c, ids.take(i as int + 1)) == Err::<Seq<(usize, usize, ConnCells)>, ExtractError>(e));
                        lemma_class_error_sticks(*hive, c, ids, i as int + 1);
                    }
                    return Err(e);
                },
                Ok(serials) => {
                    let ghost sd = timed_devices(
                        *hive,
                        subkeys_spec(hive.cells@, key.cell)->Ok_0->Some_0,
                        is_stor,
                        is_stor,
                        reads_name,
                    )->Ok_0;
                    let ghost base = ds;
                    let ghost added = sd.map_values(|d: (usize, ConnCells)| (key.cell, d.0, d.1));
                    let mut j: usize = 0;
                    while j < serials.len()
                        invariant
                            j <= serials@.len(),
                            serials@.len() == sd.len(),
                            added == sd.map_values(|d: (usize, ConnCells)| (key.cell, d.0, d.1)),
                            key.cell < hive.cells@.len(),
                            class_key_check(c, hive.cells@[key.cell as int].name@) is Ok,
                            class_selects(c, hive.cells@[key.cell as int].name@),
                            forall|k: int|
                                0 <= k < sd.len() ==> (#[trigger] serials@[k]).0.cell == sd[k].0
                                    && serials@[k].0.cell < hive.cells@.len() && serials@[k].1
                                    == times_of(*hive, sd[k].1) && (reads_name ==> optional_text(
                                    *hive,
                                    sd[k].0,
                                    "FriendlyName"@,
                                ) is Ok),
                            reads_name == (c != DeviceClass::Hid),
                            ds == base + added.take(j as int),
                            out@.len() == ds.len(),
                            forall|k: int| 0 <= k < ds.len() ==> device_row(*hive, c, ds[k], #[trigger] out@[k]),
                        decreases serials.len() - j,
                    {
                        let (sk, t) = serials[j];
                        out.push((key, sk, t));
                        proof {
                            ds = ds.push(added[j as int]);
                            assert(ds =~= base + added.take(j as int + 1));
                        }
                        j = j + 1;
                    }
                    proof {
                        assert(added.take(serials@.len() as int) =~= added);
                    }
                },
            }
        }
        i = i + 1;
    }
    proof {
        assert(ids.take(keys@.len() as int) =~= ids);
    }
    Ok(out)
}

/// `row` holds the device `d` of a report: its device key, serial key and
/// connection times; the device key passed the report's checks.
pub open spec fn device_row(h: Hive, c: DeviceClass, d: (usize, usize, ConnCells), row: (KeyNode, KeyNode, ConnectionTimes)) -> bool {
    &&& row.0.cell == d.0
    &&& row.1.cell == d.1
    &&& row.2 == times_of(h, d.2)
    &&& d.0 < h.cells@.len()
    &&& d.1 < h.cells@.len()
    &&& class_selects(c, h.cells@[d.0 as int].name@)
    &&& class_key_check(c, h.cells@[d.0 as int].name@) is Ok
    &&& (c != DeviceClass::Hid ==> optional_text(h, d.1, "FriendlyName"@) is Ok)
}

/// One HID device.
pub struct HidEntry {
    pub full_key_name: String,
    pub time_stamp: WinTimestamp,
    pub vendor_id: String,
    pub product_id: String,
    pub vendorname: String,
    pub productname: String,
    pub serialnumber: String,
    pub first_connected: WinTimestamp,
    pub last_connected: WinTimestamp,
}

/// `e` reports the HID device `d`.
pub open spec fn hid_matches(h: Hive, vendors: Map<u16, crate::vendors::Vendor>, d: (usize, usize, ConnCells), e: HidEntry) -> bool {
    let name = h.cells@[d.0 as int].name@;
    let (vid, pid) = usb_ids_of(name)->Ok_0;
    &&& e.full_key_name@ == name
    &&& e.time_stamp == key_time(h, d.1)
    &&& e.vendor_id@ == hex_text(vid)
    &&& e.product_id@ == hex_text(pid)
    &&& e.vendorname@ == vendor_name_text(vendors, vid)
    &&& e.productname@ == product_name_text(vendors, vid, pid)
    &&& e.serialnumber@ == h.cells@[d.1 as int].name@
    &&& e.first_connected == key_time(h, d.2.0)
    &&& e.last_connected == key_time(h, d.2.1)
}

/// The HID devices that the SYSTEM hive records, in key order.
pub fn sys_get_hid_data(hive: &Hive, vendors: &VendorList) -> (r: Result<Vec<HidEntry>, ExtractError>)
    ensures
        match subkeys_lookup(*hive, "ControlSet001\\Enum\\HID"@) {
            Err(e) => r == Err::<Vec<HidEntry>, ExtractError>(e),
            Ok(ids) => match class_devices(*hive, DeviceClass::Hid, ids) {
                Err(e) => r == Err::<Vec<HidEntry>, ExtractError>(e),
                Ok(ds) => r matches Ok(es) && es@.len() == ds.len() && forall|k: int|
                    0 <= k < ds.len() ==> hid_matches(*hive, vendors@, ds[k], #[trigger] es@[k]),
            },
        },
{
    let rows = class_device_keys(hive, "ControlSet001\\Enum\\HID", DeviceClass::Hid)?;
    let ghost ds = class_devices(*hive, DeviceClass::Hid, subkeys_lookup(*hive, "ControlSet001\\Enum\\HID"@)->Ok_0)->Ok_0;
    let mut out: Vec<HidEntry> = Vec::new();
    let mut i: usize = 0;
    while i < rows.len()
        invariant
            i <= rows@.len(),
            rows@.len() == ds.len(),
            forall|k: int| 0 <= k < ds.len() ==> device_row(*hive, DeviceClass::Hid, ds[k], #[trigger] rows@[k]),
            out@.len() == i,
            forall|k: int| 0 <= k < i ==> hid_matches(*hive, vendors@, ds[k], #[trigger] out@[k]),
        decreases rows.len() - i,
    {
        let (key, serial, t) = rows[i];
        proof {
            assert(device_row(*hive, DeviceClass::Hid, ds[i as int], rows@[i as int]));
        }
        let name = hive.name(key);
        let (vid, pid) = match usb_ids(name.as_str()) {
            Ok(x) => x,
            Err(e) => return Err(e),
        };
        out.push(
            HidEntry {
                full_key_name: name.clone(),
                time_stamp: convert_win_time(hive.timestamp(serial)),
                vendor_id: convert_to_hex(vid),
                product_id: convert_to_hex(pid),
                vendorname: vendor_name(vendors, vid),
                productname: product_name(vendors, vid, pid),
                serialnumber: hive.name(serial).clone(),
                first_connected: t.first_connected,
                last_connected: t.last_connected,
            },
        );
        i = i + 1;
    }
    Ok(out)
}

/// One USB storage device.
pub struct UsbStorEntry {
    pub time_stamp: WinTimestamp,
    pub manufacturer: String,
    pub title: String,
    pub version: String,
    pub serial_number: String,
    pub device_name: String,
    pub first_connected: WinTimestamp,
    pub last_connected: WinTimestamp,
    pub last_removed: Option<WinTimestamp>,
}

/// `e` reports the USB storage device `d`.
pub open spec fn usbstor_matches(h: Hive, d: (usize, usize, ConnCells), e: UsbStorEntry) -> bool {
    let f = disk_fields(h.cells@[d.0 as int].name@, "Disk&Ven_"@, true)->Some_0;
    &&& e.time_stamp == key_time(h, d.1)
    &&& e.manufacturer@ == f[0]
    &&& e.title@ == f[1]
    &&& e.version@ == f[2]
    &&& e.serial_number@ == h.cells@[d.1 as int].name@
    &&& e.device_name@ == optional_text(h, d.1, "FriendlyName"@)->Ok_0
    &&& e.first_connected == key_time(h, d.2.0)
    &&& e.last_connected == key_time(h, d.2.1)
    &&& e.last_removed == times_of(h, d.2).last_removed
}

/// The USB storage devices that the SYSTEM hive records, in key order.
/// Every key below `USBSTOR` must name its vendor, product and revision;
/// only serial keys with a readable `FriendlyName` are reported.
pub fn sys_get_usbstor_data(hive: &Hive) -> (r: Result<Vec<UsbStorEntry>, ExtractError>)
    ensures
        match subkeys_lookup(*hive, "ControlSet001\\Enum\\USBSTOR"@) {
            Err(e) => r == Err::<Vec<UsbStorEntry>, ExtractError>(e),
            Ok(ids) => match class_devices(*hive, DeviceClass::UsbStor, ids) {
                Err(e) => r == Err::<Vec<UsbStorEntry>, ExtractError>(e),
                Ok(ds) => r matches Ok(es) && es@.len() == ds.len() && forall|k: int|
                    0 <= k < ds.len() ==> usbstor_matches(*hive, ds[k], #[trigger] es@[k]),
            },
        },
{
    let rows = class_device_keys(hive, "ControlSet001\\Enum\\USBSTOR", DeviceClass::UsbStor)?;
    let ghost ds = class_devices(*hive, DeviceClass::UsbStor, subkeys_lookup(*hive, "ControlSet001\\Enum\\USBSTOR"@)->Ok_0)->Ok_0;
    let mut out: Vec<UsbStorEntry> = Vec::new();
    let mut i: usize = 0;
    while i < rows.len()
        invariant
            i <= rows@.len(),
            rows@.len() == ds.len(),
            forall|k: int| 0 <= k < ds.len() ==> device_row(*hive, DeviceClass::UsbStor, ds[k], #[trigger] rows@[k]),
            out@.len() == i,
            forall|k: int| 0 <= k < i ==> usbstor_matches(*hive, ds[k], #[trigger] out@[k]),
        decreases rows.len() - i,
    {
        let (key, serial, t) = rows[i];
        proof {
            assert(device_row(*hive, DeviceClass::UsbStor, ds[i as int], rows@[i as int]));
        }
        let chars = chars_of(hive.name(key).as_str());
        let id = match parse_disk_id(&chars, "Disk&Ven_", true) {
            Some(id) => id,
            None => return Err(ExtractError::Unparsable),
        };
        out.push(
            UsbStorEntry {
                time_stamp: convert_win_time(hive.timestamp(serial)),
                manufacturer: id.vendor,
                title: id.product,
                version: id.revision,
                serial_number: hive.name(serial).clone(),
                device_name: match optional_value_text(hive, serial, "FriendlyName") {
                    Ok(n) => n,
                    Err(e) => return Err(e),
                },
                first_connected: t.first_connected,
                last_connected: t.last_connected,
                last_removed: t.last_removed,
            },
        );
        i = i + 1;
    }
    Ok(out)
}

/// One SCSI device.
pub struct ScsiEntry {
    pub time_stamp: WinTimestamp,
    pub manufacturer: String,
    pub title: String,
    pub parentidprefix: String,
    pub device_name: String,
    pub first_connected: WinTimestamp,
    pub last_connected: WinTimestamp,
}

/// `e` reports the SCSI device `d`.
pub open spec fn scsi_matches(h: Hive, d: (usize, usize, ConnCells), e: ScsiEntry) -> bool {
    let name = h.cells@[d.0 as int].name@;
    let f = disk_fields(name, scsi_marker(name), false)->Some_0;
    &&& e.time_stamp == key_time(h, d.1)
    &&& e.manufacturer@ == f[0]
    &&& e.title@ == f[1]
    &&& e.parentidprefix@ == h.cells@[d.1 as int].name@
    &&& e.device_name@ == optional_text(h, d.1, "FriendlyName"@)->Ok_0
    &&& e.first_connected == key_time(h, d.2.0)
    &&& e.last_connected == key_time(h, d.2.1)
}

/// The SCSI disks and optical drives that the SYSTEM hive records, in key
/// order.
pub fn sys_get_scsi_data(hive: &Hive) -> (r: Result<Vec<ScsiEntry>, ExtractError>)
    ensures
        match subkeys_lookup(*hive, "ControlSet001\\Enum\\SCSI"@) {
            Err(e) => r == Err::<Vec<ScsiEntry>, ExtractError>(e),
            Ok(ids) => match class_devices(*hive, DeviceClass::Scsi, ids) {
                Err(e) => r == Err::<Vec<ScsiEntry>, ExtractError>(e),
                Ok(ds) => r matches Ok(es) && es@.len() == ds.len() && forall|k: int|
                    0 <= k < ds.len() ==> scsi_matches(*hive, ds[k], #[trigger] es@[k]),
            },
        },
{
    let rows = class_device_keys(hive, "ControlSet001\\Enum\\SCSI", DeviceClass::Scsi)?;
    let ghost ds = class_devices(*hive, DeviceClass::Scsi, subkeys_lookup(*hive, "ControlSet001\\Enum\\SCSI"@)->Ok_0)->Ok_0;
    let mut out: Vec<ScsiEntry> = Vec::new();
    let mut i: usize = 0;
    while i < rows.len()
        invariant
            i <= rows@.len(),
            rows@.len() == ds.len(),
            forall|k: int| 0 <= k < ds.len() ==> device_row(*hive, DeviceClass::Scsi, ds[k], #[trigger] rows@[k]),
            out@.len() == i,
            forall|k: int| 0 <= k < i ==> scsi_matches(*hive, ds[k], #[trigger] out@[k]),
        decreases rows.len() - i,
    {
        let (key, serial, t) = rows[i];
        proof {
            assert(device_row(*hive, DeviceClass::Scsi, ds[i as int], rows@[i as int]));
        }
        let name = hive.name(key).as_str();
        let chars = chars_of(name);
        let marker = if str_starts_with(name, "Disk&Ven_") { "Disk&Ven_" } else { "CdRom&Ven_" };
        let id = match parse_disk_id(&chars, marker, false) {
            Some(id) => id,
            None => return Err(ExtractError::Unparsable),
        };
        out.push(
            ScsiEntry {
                time_stamp: convert_win_time(hive.timestamp(serial)),
                manufacturer: id.vendor,
                title: id.product,
                parentidprefix: hive.name(serial).clone(),
                device_name: match optional_value_text(hive, serial, "FriendlyName") {
                    Ok(n) => n,
                    Err(e) => return Err(e),
                },
                first_connected: t.first_connected,
                last_connected: t.last_connected,
            },
        );
        i = i + 1;
    }
    Ok(out)
}

} // verus!
