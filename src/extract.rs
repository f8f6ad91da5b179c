//! Registry artifacts extracted from a hive: the logic that each extractor
//! applies after the hive has been read.

use vstd::prelude::*;
use vstd::string::*;

use crate::hive::{
    first_named, lemma_first_named, path_components, subkeys_spec, walk, FormatError, Hive, KeyNode,
};
use crate::conv::HexError;
use crate::devid::{chars_of, device_fields, first_occurrence, find_from, parse_device_id};
use crate::text::{decode_unmarked_text, high_bytes_zero, latin1, utf16le_decoding, TextEncoding};
use crate::value::{
    le_u64, string_bytes, DecodeError, Value, REG_DWORD, REG_DWORD_BIG_ENDIAN, REG_EXPAND_SZ,
    REG_QWORD, REG_SZ, be_u32, le_u32,
};
use crate::wintime::{convert_win_time, WinTimestamp};

verus! {

/// Why an artifact could not be extracted from a hive.
#[derive(Clone, Copy, Debug, PartialEq, Eq, Structural)]
pub enum ExtractError {
    /// The key that holds the artifact is absent.
    KeyNotFound,
    /// A value that the artifact needs is absent.
    ValueNotFound,
    /// The key has no subkey list.
    NoSubkeys,
    /// The hive is damaged where the artifact lies.
    Format(FormatError),
    /// A value does not hold the type the artifact needs.
    Decode(DecodeError),
    /// A device identifier lacks one of its fields.
    Unparsable,
    /// A vendor or product id is not hexadecimal.
    BadId(HexError),
}

/// The key at `path` below the root, as `Hive::navigate` finds it.
pub open spec fn key_lookup(h: Hive, path: Seq<char>) -> Result<usize, ExtractError> {
    if h.root >= h.cells@.len() {
        Err(ExtractError::Format(FormatError::CellOutOfRange { cell: h.root }))
    } else {
        match walk(h.cells@, h.root, path_components(path)) {
            Ok(Some(c)) => Ok(c),
            Ok(None) => Err(ExtractError::KeyNotFound),
            Err(e) => Err(ExtractError::Format(e)),
        }
    }
}

/// The value named `name` of cell `at`, as `Hive::read_value` finds it.
pub open spec fn value_lookup(h: Hive, at: usize, name: Seq<char>) -> Result<Value, ExtractError> {
    match h.cells@[at as int].values {
        None => Err(ExtractError::ValueNotFound),
        Some(Err(e)) => Err(ExtractError::Format(e)),
        Some(Ok(vs)) => match first_named(vs@, name) {
            Some(v) => Ok(v),
            None => Err(ExtractError::ValueNotFound),
        },
    }
}

/// What `Value::string_data` gives for `v`.
pub open spec fn string_of(v: Value) -> Result<Seq<char>, DecodeError> {
    if v.data_type == REG_SZ || v.data_type == REG_EXPAND_SZ {
        Ok(utf16le_decoding(string_bytes(v.data@)).0)
    } else {
        Err(DecodeError::TypeMismatch { found: v.data_type })
    }
}

/// Finds the key at `path` below the root.
pub fn find_key(hive: &Hive, path: &str) -> (r: Result<KeyNode, ExtractError>)
    ensures
        match key_lookup(*hive, path@) {
            Ok(c) => r == Ok::<KeyNode, ExtractError>(KeyNode { cell: c }) && c < hive.cells@.len(),
            Err(e) => r == Err::<KeyNode, ExtractError>(e),
        },
{
    match hive.navigate(path) {
        Ok(Some(k)) => Ok(k),
        Ok(None) => Err(ExtractError::KeyNotFound),
        Err(e) => Err(ExtractError::Format(e)),
    }
}

/// Finds the value named `name` of `node`.
pub fn find_value<'a>(hive: &'a Hive, node: KeyNode, name: &str) -> (r: Result<&'a Value, ExtractError>)
    requires
        node.cell < hive.cells@.len(),
    ensures
        match value_lookup(*hive, node.cell, name@) {
            Ok(v) => r matches Ok(x) && *x == v,
            Err(e) => r == Err::<&Value, ExtractError>(e),
        },
{
    let r = hive.read_value(node, name);
    proof {
        match hive.cells@[node.cell as int].values {
            Some(Ok(vs)) => {
                match r {
                    Ok(Some(v)) => {
                        let i = choose|i: int|
                            #![trigger vs@[i]]
                            0 <= i < vs@.len() && *v == vs@[i] && names_match_at(vs@, i, name@)
                                && forall|j: int|
                                0 <= j < i ==> !crate::hive::names_match(
                                    #[trigger] vs@[j].name@,
                                    name@,
                                );
                        lemma_first_named(vs@, name@, i);
                    },
                    Ok(None) => {
                        lemma_first_named(vs@, name@, vs@.len() as int);
                    },
                    Err(_) => {},
                }
            },
            _ => {},
        }
    }
    match r {
        Ok(Some(v)) => Ok(v),
        Ok(None) => Err(ExtractError::ValueNotFound),
        Err(e) => Err(ExtractError::Format(e)),
    }
}

/// The name of the `i`-th value of `vs` matches `name`.
pub open spec fn names_match_at(vs: Seq<Value>, i: int, name: Seq<char>) -> bool {
    crate::hive::names_match(vs[i].name@, name)
}

/// The text of the value named `name` of cell `at`, which must be present
/// and a string.
pub open spec fn text_lookup(h: Hive, at: usize, name: Seq<char>) -> Result<Seq<char>, ExtractError> {
    match value_lookup(h, at, name) {
        Err(e) => Err(e),
        Ok(v) => match string_of(v) {
            Ok(t) => Ok(t),
            Err(d) => Err(ExtractError::Decode(d)),
        },
    }
}

/// The text of the value named `name` of cell `at`: empty where the value
/// is absent, an error where the value list cannot be read or the value is
/// not a string.
pub open spec fn optional_text(h: Hive, at: usize, name: Seq<char>) -> Result<Seq<char>, ExtractError> {
    match text_lookup(h, at, name) {
        Err(ExtractError::ValueNotFound) => Ok(Seq::empty()),
        other => other,
    }
}

/// The text of a value of `node` that must be present and a string.
pub fn required_text(hive: &Hive, node: KeyNode, name: &str) -> (r: Result<String, ExtractError>)
    requires
        node.cell < hive.cells@.len(),
    ensures
        match text_lookup(*hive, node.cell, name@) {
            Ok(t) => r matches Ok(s) && s@ == t,
            Err(e) => r == Err::<String, ExtractError>(e),
        },
{
    let v = find_value(hive, node, name)?;
    match v.string_data() {
        Ok(s) => Ok(s),
        Err(d) => Err(ExtractError::Decode(d)),
    }
}

/// The text of a value of `node` that may be absent.
pub fn optional_value_text(hive: &Hive, node: KeyNode, name: &str) -> (r: Result<String, ExtractError>)
    requires
        node.cell < hive.cells@.len(),
    ensures
        match optional_text(*hive, node.cell, name@) {
            Ok(t) => r matches Ok(s) && s@ == t,
            Err(e) => r == Err::<String, ExtractError>(e),
        },
{
    match required_text(hive, node, name) {
        Err(ExtractError::ValueNotFound) => Ok(String::new()),
        other => other,
    }
}

/// The computer's name, from the `ComputerName` value of the SYSTEM hive.
pub fn get_computer_name(hive: &Hive) -> (r: Result<String, ExtractError>)
    ensures
        match key_lookup(*hive, "ControlSet001\\Control\\ComputerName\\ComputerName"@) {
            Err(e) => r == Err::<String, ExtractError>(e),
            Ok(c) => match value_lookup(*hive, c, "ComputerName"@) {
                Err(e) => r == Err::<String, ExtractError>(e),
                Ok(v) => match string_of(v) {
                    Ok(t) => r matches Ok(s) && s@ == t,
                    Err(d) => r == Err::<String, ExtractError>(ExtractError::Decode(d)),
                },
            },
        },
{
    let key = find_key(hive, "ControlSet001\\Control\\ComputerName\\ComputerName")?;
    let v = find_value(hive, key, "ComputerName")?;
    match v.string_data() {
        Ok(s) => Ok(s),
        Err(d) => Err(ExtractError::Decode(d)),
    }
}

/// The time of the last shutdown, from the first eight bytes (a FILETIME)
/// of the `ShutdownTime` value, whatever its type.
pub fn get_shutdown_time(hive: &Hive) -> (r: Result<WinTimestamp, ExtractError>)
    ensures
        match key_lookup(*hive, "ControlSet001\\Control\\Windows"@) {
            Err(e) => r == Err::<WinTimestamp, ExtractError>(e),
            Ok(c) => match value_lookup(*hive, c, "ShutdownTime"@) {
                Err(e) => r == Err::<WinTimestamp, ExtractError>(e),
                Ok(v) => if v.data@.len() >= 8 {
                    r == Ok::<WinTimestamp, ExtractError>(
                        WinTimestamp { micros: (le_u64(v.data@) / 10) as u64 },
                    )
                } else {
                    r == Err::<WinTimestamp, ExtractError>(
                        ExtractError::Decode(
                            DecodeError::Truncated { needed: 8, actual: v.data@.len() as usize },
                        ),
                    )
                },
            },
        },
{
    let key = find_key(hive, "ControlSet001\\Control\\Windows")?;
    let v = find_value(hive, key, "ShutdownTime")?;
    let raw = Value { name: String::new(), data_type: REG_QWORD, data: v.data() };
    match raw.qword_data() {
        Ok(ticks) => Ok(convert_win_time(ticks)),
        Err(d) => Err(ExtractError::Decode(d)),
    }
}

/// The installation record of an operating system.
pub struct SourceOsEntry {
    pub current_build_number: String,
    pub edition_id: String,
    pub installation_type: String,
    pub install_date: WinTimestamp,
    pub install_time: WinTimestamp,
    pub path_name: String,
    pub product_id: String,
    pub product_name: String,
    pub registered_organization: String,
    pub registered_owner: String,
    pub software_type: String,
}

/// Seconds since the Unix epoch as a timestamp.
pub open spec fn unix_seconds_stamp(s: u32) -> WinTimestamp {
    WinTimestamp { micros: ((s + 11644473600) * 1000000) as u64 }
}

/// What a 32-bit value decodes to, as `Value::dword_data` gives it.
pub open spec fn dword_of(v: Value) -> Result<u32, DecodeError> {
    if !(v.data_type == REG_DWORD || v.data_type == REG_DWORD_BIG_ENDIAN) {
        Err(DecodeError::TypeMismatch { found: v.data_type })
    } else if v.data@.len() < 4 {
        Err(DecodeError::Truncated { needed: 4, actual: v.data@.len() as usize })
    } else if v.data_type == REG_DWORD {
        Ok(le_u32(v.data@) as u32)
    } else {
        Ok(be_u32(v.data@) as u32)
    }
}

/// What a 64-bit value decodes to, as `Value::qword_data` gives it.
pub open spec fn qword_of(v: Value) -> Result<u64, DecodeError> {
    if v.data_type != REG_QWORD {
        Err(DecodeError::TypeMismatch { found: v.data_type })
    } else if v.data@.len() < 8 {
        Err(DecodeError::Truncated { needed: 8, actual: v.data@.len() as usize })
    } else {
        Ok(le_u64(v.data@) as u64)
    }
}

/// The installation record kept in `node`: its text values (each must be a
/// string), its install date (a 32-bit count of Unix seconds) and its
/// install time (a FILETIME). Each of the values must be present, and the
/// date and time must decode.
pub fn os_entry(hive: &Hive, node: KeyNode) -> (r: Result<SourceOsEntry, ExtractError>)
    requires
        node.cell < hive.cells@.len(),
    ensures
        (r is Ok) <==> os_entry_found(*hive, node.cell),
        r matches Ok(e) ==> os_entry_matches(*hive, node.cell, e),
{
    let current_build_number = required_text(hive, node, "CurrentBuildNumber")?;
    let edition_id = required_text(hive, node, "EditionID")?;
    let installation_type = required_text(hive, node, "InstallationType")?;
    let install_d = find_value(hive, node, "InstallDate")?;
    let install_d = match install_d.dword_data() {
        Ok(d) => d,
        Err(e) => return Err(ExtractError::Decode(e)),
    };
    let install_t = find_value(hive, node, "InstallTime")?;
    let install_t = match install_t.qword_data() {
        Ok(t) => t,
        Err(e) => return Err(ExtractError::Decode(e)),
    };
    let path_name = required_text(hive, node, "PathName")?;
    let product_id = required_text(hive, node, "ProductID")?;
    let product_name = required_text(hive, node, "ProductName")?;
    let registered_organization = required_text(hive, node, "RegisteredOrganization")?;
    let registered_owner = required_text(hive, node, "RegisteredOwner")?;
    let software_type = required_text(hive, node, "SoftwareType")?;
    let secs = install_d as u64 + 11644473600;
    Ok(SourceOsEntry {
        current_build_number,
        edition_id,
        installation_type,
        install_date: WinTimestamp { micros: secs * 1000000 },
        install_time: convert_win_time(install_t),
        path_name,
        product_id,
        product_name,
        registered_organization,
        registered_owner,
        software_type,
    })
}

/// The names of the text values of an installation record.
pub open spec fn os_text_names() -> Seq<Seq<char>> {
    seq![
        "CurrentBuildNumber"@,
        "EditionID"@,
        "InstallationType"@,
        "PathName"@,
        "ProductID"@,
        "ProductName"@,
        "RegisteredOrganization"@,
        "RegisteredOwner"@,
        "SoftwareType"@,
    ]
}

/// Every value of an installation record is present in cell `at`, and its
/// date and time decode.
pub open spec fn os_entry_found(h: Hive, at: usize) -> bool {
    &&& forall|i: int| 0 <= i < 9 ==> #[trigger] text_lookup(h, at, os_text_names()[i]) is Ok
    &&& value_lookup(h, at, "InstallDate"@) matches Ok(d) && dword_of(d) is Ok
    &&& value_lookup(h, at, "InstallTime"@) matches Ok(t) && qword_of(t) is Ok
}

/// `e` holds the installation record of cell `at`.
pub open spec fn os_entry_matches(h: Hive, at: usize, e: SourceOsEntry) -> bool {
    &&& text_lookup(h, at, "CurrentBuildNumber"@) == Ok::<Seq<char>, ExtractError>(e.current_build_number@)
    &&& text_lookup(h, at, "EditionID"@) == Ok::<Seq<char>, ExtractError>(e.edition_id@)
    &&& text_lookup(h, at, "InstallationType"@) == Ok::<Seq<char>, ExtractError>(e.installation_type@)
    &&& text_lookup(h, at, "PathName"@) == Ok::<Seq<char>, ExtractError>(e.path_name@)
    &&& text_lookup(h, at, "ProductID"@) == Ok::<Seq<char>, ExtractError>(e.product_id@)
    &&& text_lookup(h, at, "ProductName"@) == Ok::<Seq<char>, ExtractError>(e.product_name@)
    &&& text_lookup(h, at, "RegisteredOrganization"@) == Ok::<Seq<char>, ExtractError>(e.registered_organization@)
    &&& text_lookup(h, at, "RegisteredOwner"@) == Ok::<Seq<char>, ExtractError>(e.registered_owner@)
    &&& text_lookup(h, at, "SoftwareType"@) == Ok::<Seq<char>, ExtractError>(e.software_type@)
    &&& value_lookup(h, at, "InstallDate"@) matches Ok(d) && dword_of(d) matches Ok(s)
        && e.install_date == unix_seconds_stamp(s)
    &&& value_lookup(h, at, "InstallTime"@) matches Ok(t) && qword_of(t) matches Ok(ticks)
        && e.install_time == convert_win_time_spec(ticks)
}

/// The timestamp of a FILETIME, as `convert_win_time` gives it.
pub open spec fn convert_win_time_spec(ticks: u64) -> WinTimestamp {
    WinTimestamp { micros: ticks / 10 }
}

/// `s` begins with `p`.
pub open spec fn starts_with(s: Seq<char>, p: Seq<char>) -> bool {
    s.len() >= p.len() && s.take(p.len() as int) == p
}

/// Whether `s` begins with `p`.
pub fn str_starts_with(s: &str, p: &str) -> (r: bool)
    ensures
        r == starts_with(s@, p@),
{
    let n = p.unicode_len();
    if s.unicode_len() < n {
        return false;
    }
    let mut i: usize = 0;
    while i < n
        invariant
            n == p@.len(),
            n <= s@.len(),
            i <= n,
            forall|j: int| 0 <= j < i ==> s@[j] == p@[j],
        decreases n - i,
    {
        if s.get_char(i) != p.get_char(i) {
            return false;
        }
        i = i + 1;
    }
    assert(s@.take(n as int) =~= p@);
    true
}

/// The subkeys of the key at `path`, as `Hive::list_subkeys` gives them.
pub open spec fn subkeys_lookup(h: Hive, path: Seq<char>) -> Result<Seq<usize>, ExtractError> {
    match key_lookup(h, path) {
        Err(e) => Err(e),
        Ok(c) => match subkeys_spec(h.cells@, c) {
            Ok(Some(ids)) => Ok(ids),
            Ok(None) => Err(ExtractError::NoSubkeys),
            Err(e) => Err(ExtractError::Format(e)),
        },
    }
}

/// The subkeys of the key at `path`; a key without a subkey list is an
/// error.
pub fn find_subkeys(hive: &Hive, path: &str) -> (r: Result<Vec<KeyNode>, ExtractError>)
    ensures
        match subkeys_lookup(*hive, path@) {
            Ok(ids) => r matches Ok(ks) && ks@.len() == ids.len() && forall|j: int|
                0 <= j < ids.len() ==> (#[trigger] ks@[j]).cell == ids[j] && ids[j]
                    < hive.cells@.len(),
            Err(e) => r == Err::<Vec<KeyNode>, ExtractError>(e),
        },
{
    let key = find_key(hive, path)?;
    match hive.list_subkeys(key) {
        Ok(Some(ks)) => Ok(ks),
        Ok(None) => Err(ExtractError::NoSubkeys),
        Err(e) => Err(ExtractError::Format(e)),
    }
}

/// The cells among `ids` whose key name begins with `prefix`, in order.
pub open spec fn cells_named_with(h: Hive, ids: Seq<usize>, prefix: Seq<char>) -> Seq<usize>
    decreases ids.len(),
{
    if ids.len() == 0 {
        Seq::empty()
    } else {
        let rest = cells_named_with(h, ids.drop_last(), prefix);
        if starts_with(h.cells@[ids.last() as int].name@, prefix) {
            rest.push(ids.last())
        } else {
            rest
        }
    }
}

/// Selecting from a prefix of the cells selects a prefix of the selection.
pub proof fn lemma_named_prefix(h: Hive, ids: Seq<usize>, n: int, prefix: Seq<char>)
    requires
        0 <= n <= ids.len(),
    ensures
        cells_named_with(h, ids.take(n), prefix).len() <= cells_named_with(h, ids, prefix).len(),
        forall|j: int|
            0 <= j < cells_named_with(h, ids.take(n), prefix).len() ==> #[trigger] cells_named_with(
                h,
                ids.take(n),
                prefix,
            )[j] == cells_named_with(h, ids, prefix)[j],
    decreases ids.len(),
{
    if n == ids.len() {
        assert(ids.take(n) =~= ids);
    } else {
        let d = ids.drop_last();
        assert(ids.take(n) =~= d.take(n));
        lemma_named_prefix(h, d, n, prefix);
    }
}

/// The subkeys of `Setup` whose name begins with `Source OS`, in order.
pub open spec fn source_os_cells(h: Hive) -> Result<Seq<usize>, ExtractError> {
    match subkeys_lookup(h, "Setup"@) {
        Ok(ids) => Ok(cells_named_with(h, ids, "Source OS"@)),
        Err(e) => Err(e),
    }
}

/// `r` is the outcome of reading the installation records of earlier
/// operating systems: an error where the `Setup` subkeys cannot be listed;
/// success exactly where every selected record can be read, each then in
/// order.
pub open spec fn os_updates_of(h: Hive, r: Result<Vec<SourceOsEntry>, ExtractError>) -> bool {
    match source_os_cells(h) {
        Err(e) => r == Err::<Vec<SourceOsEntry>, ExtractError>(e),
        Ok(sel) => {
            &&& ((r is Ok) <==> forall|i: int|
                0 <= i < sel.len() ==> os_entry_found(h, #[trigger] sel[i]))
            &&& (r matches Ok(es) ==> es@.len() == sel.len() && forall|i: int|
                0 <= i < sel.len() ==> os_entry_matches(h, sel[i], #[trigger] es@[i]))
        },
    }
}

/// The installation records of earlier operating systems: one for each
/// subkey of `Setup` whose name begins with `Source OS`, read from that
/// subkey, in order. The first record that cannot be read fails the whole.
pub fn get_os_updates(hive: &Hive) -> (r: Result<Vec<SourceOsEntry>, ExtractError>)
    ensures
        os_updates_of(*hive, r),
{
    let keys = find_subkeys(hive, "Setup")?;
    let ghost ids = keys@.map_values(|k: KeyNode| k.cell);
    proof {
        assert(ids =~= subkeys_lookup(*hive, "Setup"@)->Ok_0);
    }
    let mut out: Vec<SourceOsEntry> = Vec::new();
    let mut i: usize = 0;
    while i < keys.len()
        invariant
            i <= keys@.len(),
            ids == keys@.map_values(|k: KeyNode| k.cell),
            subkeys_lookup(*hive, "Setup"@) == Ok::<Seq<usize>, ExtractError>(ids),
            forall|j: int| 0 <= j < keys@.len() ==> (#[trigger] keys@[j]).cell < hive.cells@.len(),
            out@.len() == cells_named_with(*hive, ids.take(i as int), "Source OS"@).len(),
            forall|j: int|
                0 <= j < out@.len() ==> os_entry_matches(
                    *hive,
                    cells_named_with(*hive, ids.take(i as int), "Source OS"@)[j],
                    #[trigger] out@[j],
                ),
            forall|j: int|
                0 <= j < out@.len() ==> os_entry_found(
                    *hive,
                    #[trigger] cells_named_with(*hive, ids.take(i as int), "Source OS"@)[j],
                ),
        decreases keys.len() - i,
    {
        let k = keys[i];
        proof {
            assert(ids.take(i as int + 1).drop_last() =~= ids.take(i as int));
            assert(ids.take(i as int + 1).last() == k.cell);
        }
        if str_starts_with(hive.name(k).as_str(), "Source OS") {
            let entry = os_entry(hive, k);
            match entry {
                Ok(e) => {
                    out.push(e);
                },
                Err(e) => {
                    proof {
                        let sel_i = cells_named_with(*hive, ids.take(i as int + 1), "Source OS"@);
                        let prev = cells_named_with(*hive, ids.take(i as int), "Source OS"@);
                        assert(starts_with(hive.cells@[k.cell as int].name@, "Source OS"@));
                        assert(sel_i == prev.push(k.cell));
                        assert(sel_i[out@.len() as int] == k.cell);
                        lemma_named_prefix(*hive, ids, i as int + 1, "Source OS"@);
                        let sel = cells_named_with(*hive, ids, "Source OS"@);
                        assert(sel[out@.len() as int] == k.cell);
                        assert(!os_entry_found(*hive, sel[out@.len() as int]));
                        assert(out@.len() < sel.len());
                        assert(!(forall|t: int| 0 <= t < sel.len() ==> os_entry_found(*hive, #[trigger] sel[t])));
                        assert(source_os_cells(*hive) == Ok::<Seq<usize>, ExtractError>(sel));
                        let x = source_os_cells(*hive);
                        assert(x->Ok_0 == sel);
                        assert(!(forall|t: int| 0 <= t < x->Ok_0.len() ==> os_entry_found(*hive, #[trigger] x->Ok_0[t])));
                        assert(os_updates_of(*hive, Err::<Vec<SourceOsEntry>, ExtractError>(e)));
                    }
                    return Err(e);
                },
            }
        }
        i = i + 1;
    }
    proof {
        assert(ids.take(keys@.len() as int) =~= ids);
        assert(source_os_cells(*hive) == Ok::<Seq<usize>, ExtractError>(
            cells_named_with(*hive, ids, "Source OS"@),
        ));
    }
    Ok(out)
}

/// A device that the system has mounted: the value's name, its data as
/// text, and the fields of the device identifier in that text, if any.
pub struct MountedDevice {
    pub device_name: String,
    pub device_data: String,
    pub vendorname: String,
    pub productname: String,
    pub revision: String,
    pub serial: String,
    pub guid: String,
}

/// The text of `s` holds `p`.
pub open spec fn holds(s: Seq<char>, p: Seq<char>) -> bool {
    first_occurrence(s, p, 0) is Some
}

/// Whether a mounted-device value describes a device, and which form its
/// identifier takes: `Some(None)` for single-byte data, `Some(Some(rev))`
/// for UTF-16 data whose identifier has (or lacks) a revision field, and
/// `None` for UTF-16 data that names `&Rev` without the field's marker.
pub open spec fn mounted_form(v: Value) -> Option<Option<bool>> {
    if !high_bytes_zero(v.data@) {
        Some(None)
    } else {
        let t = utf16le_decoding(v.data@).0;
        if holds(t, "&Rev_"@) {
            Some(Some(true))
        } else if !holds(t, "&Rev"@) {
            Some(Some(false))
        } else {
            None
        }
    }
}

/// The value cannot be read as a mounted device: its identifier lacks a
/// field.
pub open spec fn mounted_fails(v: Value) -> bool {
    mounted_form(v) matches Some(Some(rev)) && device_fields(utf16le_decoding(v.data@).0, "Ven_"@, "&Prod_"@, "&Rev_"@, rev) is None
}

/// `d` describes the mounted-device value `v`.
pub open spec fn mounted_matches(v: Value, d: MountedDevice) -> bool {
    &&& d.device_name@ == v.name@
    &&& match mounted_form(v) {
        Some(None) => d.device_data@ == latin1(v.data@) && d.vendorname@.len() == 0
            && d.productname@.len() == 0 && d.revision@.len() == 0 && d.serial@.len() == 0
            && d.guid@.len() == 0,
        Some(Some(rev)) => {
            let t = utf16le_decoding(v.data@).0;
            &&& d.device_data@ == t
            &&& (device_fields(t, "Ven_"@, "&Prod_"@, "&Rev_"@, rev) matches Some(f) && d.vendorname@ == f[0]
                && d.productname@ == f[1] && d.revision@ == f[2] && d.serial@ == f[3]
                && d.guid@ == f[4])
        },
        None => false,
    }
}

/// Reads one value of the `MountedDevices` key. Single-byte data is kept as
/// text; UTF-16 data is split into the fields of its device identifier.
pub fn mounted_device(v: &Value) -> (r: Result<Option<MountedDevice>, ExtractError>)
    ensures
        mounted_fails(*v) <==> r == Err::<Option<MountedDevice>, ExtractError>(ExtractError::Unparsable),
        !mounted_fails(*v) ==> (r matches Ok(o) && (o is Some <==> mounted_form(*v) is Some)),
        r matches Ok(Some(d)) ==> mounted_matches(*v, d),
{
    let data = v.data.as_slice();
    let (enc, text) = decode_unmarked_text(data);
    match enc {
        TextEncoding::ExtendedAscii => Ok(
            Some(
                MountedDevice {
                    device_name: v.name.clone(),
                    device_data: text,
                    vendorname: String::new(),
                    productname: String::new(),
                    revision: String::new(),
                    serial: String::new(),
                    guid: String::new(),
                },
            ),
        ),
        TextEncoding::Utf16Le => {
            let chars = chars_of(text.as_str());
            let rev = if find_from(&chars, "&Rev_", 0).is_some() {
                true
            } else if find_from(&chars, "&Rev", 0).is_none() {
                false
            } else {
                return Ok(None);
            };
            match parse_device_id(&chars, "Ven_", "&Prod_", "&Rev_", rev) {
                None => Err(ExtractError::Unparsable),
                Some(id) => Ok(
                    Some(
                        MountedDevice {
                            device_name: v.name.clone(),
                            device_data: text,
                            vendorname: id.vendor,
                            productname: id.product,
                            revision: id.revision,
                            serial: id.serial,
                            guid: id.guid,
                        },
                    ),
                ),
            }
        },
    }
}

/// The values among `vs` that describe a device, in order.
pub open spec fn mounted_values(vs: Seq<Value>) -> Seq<Value>
    decreases vs.len(),
{
    if vs.len() == 0 {
        Seq::empty()
    } else {
        let rest = mounted_values(vs.drop_last());
        if mounted_form(vs.last()) is Some {
            rest.push(vs.last())
        } else {
            rest
        }
    }
}

/// The values of the `MountedDevices` key, as `Hive::values` gives them
/// (none where the key has no value list).
pub open spec fn mounted_device_values(h: Hive) -> Result<Seq<Value>, ExtractError> {
    match key_lookup(h, "MountedDevices"@) {
        Err(e) => Err(e),
        Ok(c) => match h.cells@[c as int].values {
            None => Ok(Seq::empty()),
            Some(Err(e)) => Err(ExtractError::Format(e)),
            Some(Ok(vs)) => Ok(vs@),
        },
    }
}

/// The devices that the system has mounted, one for each value of the
/// `MountedDevices` key that describes one, in order. A value whose device
/// identifier lacks a field fails the whole.
pub fn sys_get_mounteddev_data(hive: &Hive) -> (r: Result<Vec<MountedDevice>, ExtractError>)
    ensures
        match mounted_device_values(*hive) {
            Err(e) => r == Err::<Vec<MountedDevice>, ExtractError>(e),
            Ok(vs) => {
                &&& ((r is Ok) <==> forall|i: int| 0 <= i < vs.len() ==> !mounted_fails(#[trigger] vs[i]))
                &&& (r is Err ==> r == Err::<Vec<MountedDevice>, ExtractError>(ExtractError::Unparsable))
                &&& (r matches Ok(ds) ==> ds@.len() == mounted_values(vs).len() && forall|k: int|
                    0 <= k < ds@.len() ==> mounted_matches(mounted_values(vs)[k], #[trigger] ds@[k]))
            },
        },
{
    let key = find_key(hive, "MountedDevices")?;
    let vs = match hive.values(key) {
        Ok(Some(vs)) => vs,
        Ok(None) => return Ok(Vec::new()),
        Err(e) => return Err(ExtractError::Format(e)),
    };
    let ghost all = vs@;
    let mut out: Vec<MountedDevice> = Vec::new();
    let mut i: usize = 0;
    while i < vs.len()
        invariant
            all == vs@,
            mounted_device_values(*hive) == Ok::<Seq<Value>, ExtractError>(all),
            i <= vs@.len(),
            forall|j: int| 0 <= j < i ==> !mounted_fails(#[trigger] all[j]),
            out@.len() == mounted_values(all.take(i as int)).len(),
            forall|k: int|
                0 <= k < out@.len() ==> mounted_matches(
                    mounted_values(all.take(i as int))[k],
                    #[trigger] out@[k],
                ),
        decreases vs.len() - i,
    {
        proof {
            assert(all.take(i as int + 1).drop_last() =~= all.take(i as int));
            assert(all.take(i as int + 1).last() == all[i as int]);
        }
        match mounted_device(&vs[i]) {
            Ok(Some(d)) => {
                out.push(d);
            },
            Ok(None) => {},
            Err(e) => {
                proof {
                    let x = mounted_device_values(*hive);
                    assert(x->Ok_0 == all);
                    assert(mounted_fails(x->Ok_0[i as int]));
                    assert(!(forall|j: int| 0 <= j < x->Ok_0.len() ==> !mounted_fails(#[trigger] x->Ok_0[j])));
                }
                return Err(e);
            },
        }
        i = i + 1;
    }
    proof {
        assert(all.take(vs@.len() as int) =~= all);
    }
    Ok(out)
}

/// The installation record of the running operating system, from
/// `Microsoft\Windows NT\CurrentVersion` of the SOFTWARE hive.
pub fn get_current_os_version(hive: &Hive) -> (r: Result<SourceOsEntry, ExtractError>)
    ensures
        match key_lookup(*hive, "Microsoft\\Windows NT\\CurrentVersion"@) {
            Err(e) => r == Err::<SourceOsEntry, ExtractError>(e),
            Ok(c) => ((r is Ok) <==> os_entry_found(*hive, c)) && (r matches Ok(e)
                ==> os_entry_matches(*hive, c, e)),
        },
{
    let key = find_key(hive, "Microsoft\\Windows NT\\CurrentVersion")?;
    os_entry(hive, key)
}

} // verus!
