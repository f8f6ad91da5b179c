//! Volumes recorded under `Microsoft\Windows Search\VolumeInfoCache` of the
//! SOFTWARE hive: one subkey per drive, with its drive type and label.

use vstd::prelude::*;
use vstd::string::*;

use crate::extract::{
    dword_of, find_subkeys, find_value, optional_text, optional_value_text, subkeys_lookup,
    value_lookup, ExtractError,
};
use crate::hive::{Hive, KeyNode};
use crate::wintime::{convert_win_time, WinTimestamp};

verus! {

/// One cached volume.
pub struct VicEntry {
    pub timestamp: WinTimestamp,
    pub drive_name: String,
    pub vol_label: String,
    pub drive_type: String,
}

/// The name of a Windows drive type code.
pub open spec fn drive_type_name(d: u32) -> Option<Seq<char>> {
    if d == 0 {
        Some("Unknown"@)
    } else if d == 1 {
        Some("NoRootDirectory"@)
    } else if d == 2 {
        Some("Removable Storage Device"@)
    } else if d == 3 {
        Some("Fixed Disk"@)
    } else if d == 4 {
        Some("Network Drive"@)
    } else if d == 5 {
        Some("CDRom"@)
    } else if d == 6 {
        Some("RAM Disk"@)
    } else {
        None
    }
}

/// The name of a Windows drive type code.
pub fn drive_type_text(d: u32) -> (r: Option<&'static str>)
    ensures
        match drive_type_name(d) {
            Some(n) => r matches Some(s) && s@ == n,
            None => r is None,
        },
{
    if d == 0 {
        Some("Unknown")
    } else if d == 1 {
        Some("NoRootDirectory")
    } else if d == 2 {
        Some("Removable Storage Device")
    } else if d == 3 {
        Some("Fixed Disk")
    } else if d == 4 {
        Some("Network Drive")
    } else if d == 5 {
        Some("CDRom")
    } else if d == 6 {
        Some("RAM Disk")
    } else {
        None
    }
}

/// The label of the volume key `at`: empty where it has no `VolumeLabel`,
/// an error where its value list cannot be read or the label is not a
/// string.
pub open spec fn volume_label(h: Hive, at: usize) -> Result<Seq<char>, ExtractError> {
    optional_text(h, at, "VolumeLabel"@)
}

/// The drive type and label reported for the volume key `at`: none where
/// its drive type has no name; an empty type where it has no
/// `DriveType`; an error where its value list cannot be read.
pub open spec fn volume_of(h: Hive, at: usize) -> Result<Option<(Seq<char>, Seq<char>)>, ExtractError> {
    match value_lookup(h, at, "DriveType"@) {
        Err(ExtractError::ValueNotFound) => match volume_label(h, at) {
            Err(e) => Err(e),
            Ok(l) => Ok(Some((Seq::empty(), l))),
        },
        Err(e) => Err(e),
        Ok(v) => match dword_of(v) {
            Err(d) => Err(ExtractError::Decode(d)),
            Ok(x) => match drive_type_name(x) {
                None => Ok(None),
                Some(n) => match volume_label(h, at) {
                    Err(e) => Err(e),
                    Ok(l) => Ok(Some((n, l))),
                },
            },
        },
    }
}

/// The volumes reported for the keys `ids`, in order, as (key, type,
/// label); the first key that cannot be read is the error.
pub open spec fn volumes(h: Hive, ids: Seq<usize>) -> Result<Seq<(usize, Seq<char>, Seq<char>)>, ExtractError>
    decreases ids.len(),
{
    if ids.len() == 0 {
        Ok(Seq::empty())
    } else {
        match volumes(h, ids.drop_last()) {
            Err(e) => Err(e),
            Ok(rest) => match volume_of(h, ids.last()) {
                Err(e) => Err(e),
                Ok(None) => Ok(rest),
                Ok(Some((t, l))) => Ok(rest.push((ids.last(), t, l))),
            },
        }
    }
}

proof fn lemma_volumes_error_sticks(h: Hive, ids: Seq<usize>, n: int)
    requires
        0 <= n <= ids.len(),
        volumes(h, ids.take(n)) is Err,
    ensures
        volumes(h, ids) == volumes(h, ids.take(n)),
    decreases ids.len() - n,
{
    if n < ids.len() {
        assert(ids.take(n + 1).drop_last() =~= ids.take(n));
        lemma_volumes_error_sticks(h, ids, n + 1);
    } else {
        assert(ids.take(n) =~= ids);
    }
}

/// `e` reports volume `v` of the hive.
pub open spec fn vic_matches(h: Hive, v: (usize, Seq<char>, Seq<char>), e: VicEntry) -> bool {
    &&& e.drive_name@ == h.cells@[v.0 as int].name@
    &&& e.timestamp == WinTimestamp { micros: h.cells@[v.0 as int].timestamp / 10 }
    &&& e.drive_type@ == v.1
    &&& e.vol_label@ == v.2
}

fn read_volume_label(hive: &Hive, node: KeyNode) -> (r: Result<String, ExtractError>)
    requires
        node.cell < hive.cells@.len(),
    ensures
        match volume_label(*hive, node.cell) {
            Ok(t) => r matches Ok(s) && s@ == t,
            Err(e) => r == Err::<String, ExtractError>(e),
        },
{
    optional_value_text(hive, node, "VolumeLabel")
}

/// The report of one volume key, if its drive type is reported.
fn volume_entry(hive: &Hive, node: KeyNode) -> (r: Result<Option<VicEntry>, ExtractError>)
    requires
        node.cell < hive.cells@.len(),
    ensures
        match volume_of(*hive, node.cell) {
            Err(e) => r == Err::<Option<VicEntry>, ExtractError>(e),
            Ok(None) => r matches Ok(None),
            Ok(Some((t, l))) => r matches Ok(Some(e)) && vic_matches(*hive, (node.cell, t, l), e),
        },
{
    let drive_type = match find_value(hive, node, "DriveType") {
        Err(ExtractError::ValueNotFound) => String::new(),
        Err(e) => return Err(e),
        Ok(v) => match v.dword_data() {
            Err(d) => return Err(ExtractError::Decode(d)),
            Ok(x) => match drive_type_text(x) {
                None => return Ok(None),
                Some(n) => String::from_str(n),
            },
        },
    };
    let vol_label = read_volume_label(hive, node)?;
    Ok(
        Some(
            VicEntry {
                timestamp: convert_win_time(hive.timestamp(node)),
                drive_name: hive.name(node).clone(),
                vol_label,
                drive_type,
            },
        ),
    )
}

/// The volumes that the SOFTWARE hive caches, in key order.
pub fn sof_get_vic_data(hive: &Hive) -> (r: Result<Vec<VicEntry>, ExtractError>)
    ensures
        match subkeys_lookup(*hive, "Microsoft\\Windows Search\\VolumeInfoCache"@) {
            Err(e) => r == Err::<Vec<VicEntry>, ExtractError>(e),
            Ok(ids) => match volumes(*hive, ids) {
                Err(e) => r == Err::<Vec<VicEntry>, ExtractError>(e),
                Ok(vs) => r matches Ok(es) && es@.len() == vs.len() && forall|k: int|
                    0 <= k < vs.len() ==> vic_matches(*hive, vs[k], #[trigger] es@[k]),
            },
        },
{
    let keys = find_subkeys(hive, "Microsoft\\Windows Search\\VolumeInfoCache")?;
    let ghost ids = keys@.map_values(|k: KeyNode| k.cell);
    proof {
        assert(ids =~= subkeys_lookup(*hive, "Microsoft\\Windows Search\\VolumeInfoCache"@)->Ok_0);
        assert(ids.take(0) =~= Seq::<usize>::empty());
    }
    let mut out: Vec<VicEntry> = Vec::new();
    let ghost mut vs: Seq<(usize, Seq<char>, Seq<char>)> = Seq::empty();
    let mut i: usize = 0;
    while i < keys.len()
        invariant
            i <= keys@.len(),
            ids == keys@.map_values(|k: KeyNode| k.cell),
            subkeys_lookup(*hive, "Microsoft\\Windows Search\\VolumeInfoCache"@) == Ok::<Seq<usize>, ExtractError>(ids),
            forall|j: int| 0 <= j < keys@.len() ==> (#[trigger] keys@[j]).cell < hive.cells@.len(),
            volumes(*hive, ids.take(i as int)) == Ok::<Seq<(usize, Seq<char>, Seq<char>)>, ExtractError>(vs),
            out@.len() == vs.len(),
            forall|k: int| 0 <= k < vs.len() ==> vic_matches(*hive, vs[k], #[trigger] out@[k]),
        decreases keys.len() - i,
    {
        let key = keys[i];
        proof {
            assert(ids.take(i as int + 1).drop_last() =~= ids.take(i as int));
            assert(ids.take(i as int + 1).last() == key.cell);
        }
        match volume_entry(hive, key) {
            Err(e) => {
                proof {
                    assert(volumes(*hive, ids.take(i as int + 1)) == Err::<Seq<(usize, Seq<char>, Seq<char>)>, ExtractError>(e));
                    lemma_volumes_error_sticks(*hive, ids, i as int + 1);
                }
                return Err(e);
            },
            Ok(None) => {},
            Ok(Some(e)) => {
                out.push(e);
                proof {
                    let (t, l) = volume_of(*hive, key.cell)->Ok_0->Some_0;
                    vs = vs.push((key.cell, t, l));
                }
            },
        }
        i = i + 1;
    }
    proof {
        assert(ids.take(keys@.len() as int) =~= ids);
    }
    Ok(out)
}

} // verus!
