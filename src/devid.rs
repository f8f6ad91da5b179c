//! Device identifiers embedded in registry names and data, such as
//! `_??_USBSTOR#Disk&Ven_Kingston&Prod_DataTraveler&Rev_1.00#0019E06B#{53f5...}`.
//!
//! Each field runs from its marker to the first occurrence of the next
//! marker; the last field is the run of non-whitespace characters after the
//! second `#`. Fields are trimmed of surrounding whitespace.

use vstd::prelude::*;
use vstd::string::*;

verus! {

/// `p` occurs in `s` at index `i`.
pub open spec fn occurs_at(s: Seq<char>, p: Seq<char>, i: int) -> bool {
    0 <= i && i + p.len() <= s.len() && s.subrange(i, i + p.len()) == p
}

/// The first index at or after `from` where `p` occurs in `s`.
pub open spec fn first_occurrence(s: Seq<char>, p: Seq<char>, from: int) -> Option<int>
    decreases s.len() + 1 - from,
{
    if from < 0 || from + p.len() > s.len() {
        None
    } else if occurs_at(s, p, from) {
        Some(from)
    } else {
        first_occurrence(s, p, from + 1)
    }
}

/// Whether a character is whitespace, as `char::is_whitespace` defines it.
pub open spec fn is_space(c: char) -> bool {
    let u = c as u32;
    (9 <= u && u <= 13) || u == 32 || u == 0x85 || u == 0xA0 || u == 0x1680 || (0x2000 <= u && u
        <= 0x200A) || u == 0x2028 || u == 0x2029 || u == 0x202F || u == 0x205F || u == 0x3000
}

/// The length of the run of non-whitespace characters of `s` from `from`.
pub open spec fn non_space_run(s: Seq<char>, from: int) -> int
    decreases s.len() - from,
{
    if from < 0 || from >= s.len() || is_space(s[from]) {
        0
    } else {
        1 + non_space_run(s, from + 1)
    }
}

/// `s` without leading whitespace.
pub open spec fn trim_start(s: Seq<char>) -> Seq<char>
    decreases s.len(),
{
    if s.len() > 0 && is_space(s[0]) {
        trim_start(s.drop_first())
    } else {
        s
    }
}

/// `s` without trailing whitespace.
pub open spec fn trim_end(s: Seq<char>) -> Seq<char>
    decreases s.len(),
{
    if s.len() > 0 && is_space(s.last()) {
        trim_end(s.drop_last())
    } else {
        s
    }
}

/// `s` without surrounding whitespace, as `str::trim` gives it.
pub open spec fn trim(s: Seq<char>) -> Seq<char> {
    trim_end(trim_start(s))
}

/// The spans of the vendor, product, revision (empty where the form has
/// none), serial and GUID fields of a device identifier whose fields are
/// introduced by the markers `ven`, `prod` and `rev`.
pub open spec fn device_spans(s: Seq<char>, ven: Seq<char>, prod: Seq<char>, rev: Seq<char>, with_revision: bool) -> Option<Seq<(int, int)>> {
    match first_occurrence(s, ven, 0) {
        None => None,
        Some(v) => match first_occurrence(s, prod, v + ven.len()) {
            None => None,
            Some(p) => {
                let a = p + prod.len();
                let tail = if with_revision {
                    match first_occurrence(s, rev, a) {
                        None => None,
                        Some(r) => match first_occurrence(s, "#"@, r + rev.len()) {
                            None => None,
                            Some(h) => Some(((a, r), (r + rev.len(), h), h + 1)),
                        },
                    }
                } else {
                    match first_occurrence(s, "#"@, a) {
                        None => None,
                        Some(h) => Some(((a, h), (h, h), h + 1)),
                    }
                };
                match tail {
                    None => None,
                    Some((pr, rv, d)) => match first_occurrence(s, "#"@, d) {
                        None => None,
                        Some(h2) => Some(
                            seq![
                                (v + ven.len(), p),
                                pr,
                                rv,
                                (d, h2),
                                (h2 + 1, h2 + 1 + non_space_run(s, h2 + 1)),
                            ],
                        ),
                    },
                }
            },
        },
    }
}

/// The fields of a device identifier, trimmed.
pub open spec fn device_fields(s: Seq<char>, ven: Seq<char>, prod: Seq<char>, rev: Seq<char>, with_revision: bool) -> Option<Seq<Seq<char>>> {
    match device_spans(s, ven, prod, rev, with_revision) {
        None => None,
        Some(sp) => Some(Seq::new(5, |i: int| trim(s.subrange(sp[i].0, sp[i].1)))),
    }
}

/// The fields of a device identifier.
pub struct DeviceId {
    pub vendor: String,
    pub product: String,
    pub revision: String,
    pub serial: String,
    pub guid: String,
}

/// The characters `from..to` of `s` as a string.
pub fn span_string(s: &Vec<char>, from: usize, to: usize) -> (r: String)
    requires
        from <= to <= s@.len(),
    ensures
        r@ == s@.subrange(from as int, to as int),
{
    let mut v: Vec<char> = Vec::new();
    let mut i = from;
    while i < to
        invariant
            from <= i <= to <= s@.len(),
            v@ == s@.subrange(from as int, i as int),
        decreases to - i,
    {
        v.push(s[i]);
        i = i + 1;
        assert(v@ =~= s@.subrange(from as int, i as int));
    }
    crate::conv::string_of_chars(&v)
}

/// The characters of a string.
pub fn chars_of(s: &str) -> (r: Vec<char>)
    ensures
        r@ == s@,
{
    let n = s.unicode_len();
    let mut out: Vec<char> = Vec::new();
    let mut i: usize = 0;
    while i < n
        invariant
            n == s@.len(),
            i <= n,
            out@ == s@.take(i as int),
        decreases n - i,
    {
        out.push(s.get_char(i));
        i = i + 1;
        assert(out@ =~= s@.take(i as int));
    }
    assert(s@.take(n as int) =~= s@);
    out
}

/// The first index at or after `from` where `p` occurs in `s`.
pub fn find_from(s: &Vec<char>, p: &str, from: usize) -> (r: Option<usize>)
    ensures
        r matches Some(i) ==> first_occurrence(s@, p@, from as int) == Some(i as int) && from <= i
            && i + p@.len() <= s@.len(),
        r is None ==> first_occurrence(s@, p@, from as int) is None,
{
    let n = s.len();
    let m = p.unicode_len();
    let mut i = from;
    while i <= n && m <= n - i
        invariant
            n == s@.len(),
            m == p@.len(),
            from <= i,
            first_occurrence(s@, p@, from as int) == first_occurrence(s@, p@, i as int),
        decreases n + 1 - i,
    {
        let mut k: usize = 0;
        let mut same = true;
        while k < m
            invariant
                n == s@.len(),
                m == p@.len(),
                i + m <= n,
                k <= m,
                same == forall|j: int| 0 <= j < k ==> s@[i + j] == p@[j],
            decreases m - k,
        {
            if s[i + k] != p.get_char(k) {
                same = false;
            }
            k = k + 1;
        }
        if same {
            assert(s@.subrange(i as int, i + m) =~= p@);
            return Some(i);
        }
        assert(!occurs_at(s@, p@, i as int)) by {
            if s@.subrange(i as int, i + m) == p@ {
                assert forall|j: int| 0 <= j < m implies s@[i + j] == p@[j] by {
                    assert(s@.subrange(i as int, i + m)[j] == s@[i + j]);
                }
            }
        }
        i = i + 1;
    }
    None
}

/// Whether `c` is whitespace, as `char::is_whitespace` defines it.
pub fn char_is_space(c: char) -> (r: bool)
    ensures
        r == is_space(c),
{
    let u = c as u32;
    (9 <= u && u <= 13) || u == 32 || u == 0x85 || u == 0xA0 || u == 0x1680 || (0x2000 <= u && u
        <= 0x200A) || u == 0x2028 || u == 0x2029 || u == 0x202F || u == 0x205F || u == 0x3000
}

/// The length of the run of non-whitespace characters of `s` from `from`.
fn run_length(s: &Vec<char>, from: usize) -> (r: usize)
    requires
        from <= s@.len(),
    ensures
        r as int == non_space_run(s@, from as int),
        from + r <= s@.len(),
{
    let n = s.len();
    let mut i = from;
    while i < n && !char_is_space(s[i])
        invariant
            n == s@.len(),
            from <= i <= n,
            non_space_run(s@, from as int) == (i - from) + non_space_run(s@, i as int),
        decreases n - i,
    {
        i = i + 1;
    }
    i - from
}

/// The trimmed text of `s[from..to]`.
pub fn trimmed_span(s: &Vec<char>, from: usize, to: usize) -> (r: String)
    requires
        from <= to <= s@.len(),
    ensures
        r@ == trim(s@.subrange(from as int, to as int)),
{
    let ghost whole = s@.subrange(from as int, to as int);
    let mut a = from;
    while a < to && char_is_space(s[a])
        invariant
            from <= a <= to <= s@.len(),
            trim_start(whole) == trim_start(s@.subrange(a as int, to as int)),
        decreases to - a,
    {
        assert(s@.subrange(a as int, to as int).drop_first() =~= s@.subrange(a + 1, to as int));
        a = a + 1;
    }
    let ghost started = s@.subrange(a as int, to as int);
    assert(trim_start(started) == started);
    let mut b = to;
    while b > a && char_is_space(s[b - 1])
        invariant
            from <= a <= b <= to <= s@.len(),
            trim_end(started) == trim_end(s@.subrange(a as int, b as int)),
        decreases b - a,
    {
        assert(s@.subrange(a as int, b as int).drop_last() =~= s@.subrange(a as int, b - 1));
        b = b - 1;
    }
    span_string(s, a, b)
}

/// Reads the fields of a device identifier: `ven` vendor `prod` product,
/// then, where `with_revision` holds, `rev` revision, then `#` serial `#`
/// GUID. `None` where a marker is missing.
pub fn parse_device_id(s: &Vec<char>, ven: &str, prod: &str, rev: &str, with_revision: bool) -> (r: Option<DeviceId>)
    ensures
        device_fields(s@, ven@, prod@, rev@, with_revision) is None <==> r is None,
        r matches Some(d) ==> device_fields(s@, ven@, prod@, rev@, with_revision) matches Some(f)
            && d.vendor@ == f[0] && d.product@ == f[1] && d.revision@ == f[2] && d.serial@ == f[3]
            && d.guid@ == f[4],
{
    proof {
        reveal_strlit("#");
    }
    let n = s.len();
    let lv = ven.unicode_len();
    let lp = prod.unicode_len();
    let lr = rev.unicode_len();
    let v = match find_from(s, ven, 0) {
        Some(v) => v,
        None => return None,
    };
    let p = match find_from(s, prod, v + lv) {
        Some(p) => p,
        None => return None,
    };
    let a = p + lp;
    let (prod_end, rev_start, rev_end, d) = if with_revision {
        let r = match find_from(s, rev, a) {
            Some(r) => r,
            None => return None,
        };
        let h = match find_from(s, "#", r + lr) {
            Some(h) => h,
            None => return None,
        };
        (r, r + lr, h, h + 1)
    } else {
        let h = match find_from(s, "#", a) {
            Some(h) => h,
            None => return None,
        };
        (h, h, h, h + 1)
    };
    let h2 = match find_from(s, "#", d) {
        Some(h2) => h2,
        None => return None,
    };
    let run = run_length(s, h2 + 1);
    let id = DeviceId {
        vendor: trimmed_span(s, v + lv, p),
        product: trimmed_span(s, a, prod_end),
        revision: trimmed_span(s, rev_start, rev_end),
        serial: trimmed_span(s, d, h2),
        guid: trimmed_span(s, h2 + 1, h2 + 1 + run),
    };
    Some(id)
}

/// The GUID of a software device name: the text between the first `UM#`
/// and the next `#`.
pub open spec fn um_guid(s: Seq<char>) -> Option<Seq<char>> {
    match first_occurrence(s, "UM#"@, 0) {
        None => None,
        Some(u) => match first_occurrence(s, "#"@, u + 3) {
            None => None,
            Some(h) => Some(trim(s.subrange(u + 3, h))),
        },
    }
}

/// Reads the GUID of a software device name.
pub fn parse_um_guid(s: &Vec<char>) -> (r: Option<String>)
    ensures
        match um_guid(s@) {
            None => r is None,
            Some(g) => r matches Some(t) && t@ == g,
        },
{
    proof {
        reveal_strlit("UM#");
        reveal_strlit("#");
    }
    let n = s.len();
    let u = match find_from(s, "UM#", 0) {
        Some(u) => u,
        None => return None,
    };
    let h = match find_from(s, "#", u + 3) {
        Some(h) => h,
        None => return None,
    };
    Some(trimmed_span(s, u + 3, h))
}

/// The spans of the vendor, product and revision of a storage-class key
/// name: `marker` vendor `&Prod_` product, then, where `with_revision`
/// holds, `&Rev_` and a non-empty run of non-whitespace; without it the
/// product is the run of non-whitespace after `&Prod_`.
pub open spec fn disk_spans(s: Seq<char>, marker: Seq<char>, with_revision: bool) -> Option<Seq<(int, int)>> {
    match first_occurrence(s, marker, 0) {
        None => None,
        Some(v) => match first_occurrence(s, "&Prod_"@, v + marker.len()) {
            None => None,
            Some(p) => if with_revision {
                match first_occurrence(s, "&Rev_"@, p + 6) {
                    None => None,
                    Some(r) => {
                        let n = non_space_run(s, r + 5);
                        if n == 0 {
                            None
                        } else {
                            Some(seq![(v + marker.len(), p), (p + 6, r), (r + 5, r + 5 + n)])
                        }
                    },
                }
            } else {
                Some(seq![(v + marker.len(), p), (p + 6, p + 6 + non_space_run(s, p + 6)), (p + 6, p + 6)])
            },
        },
    }
}

/// The trimmed vendor, product and revision of a storage-class key name.
pub open spec fn disk_fields(s: Seq<char>, marker: Seq<char>, with_revision: bool) -> Option<Seq<Seq<char>>> {
    match disk_spans(s, marker, with_revision) {
        None => None,
        Some(sp) => Some(Seq::new(3, |i: int| trim(s.subrange(sp[i].0, sp[i].1)))),
    }
}

/// The vendor, product and revision of a storage device.
pub struct DiskId {
    pub vendor: String,
    pub product: String,
    pub revision: String,
}

/// Reads the vendor, product and (where `with_revision` holds) revision of
/// a storage-class key name that uses `marker` before the vendor.
pub fn parse_disk_id(s: &Vec<char>, marker: &str, with_revision: bool) -> (r: Option<DiskId>)
    ensures
        disk_fields(s@, marker@, with_revision) is None <==> r is None,
        r matches Some(d) ==> disk_fields(s@, marker@, with_revision) matches Some(f) && d.vendor@
            == f[0] && d.product@ == f[1] && d.revision@ == f[2],
{
    proof {
        reveal_strlit("&Prod_");
        reveal_strlit("&Rev_");
    }
    let n = s.len();
    let m = marker.unicode_len();
    let v = match find_from(s, marker, 0) {
        Some(v) => v,
        None => return None,
    };
    let p = match find_from(s, "&Prod_", v + m) {
        Some(p) => p,
        None => return None,
    };
    if with_revision {
        let r = match find_from(s, "&Rev_", p + 6) {
            Some(r) => r,
            None => return None,
        };
        let run = run_length(s, r + 5);
        if run == 0 {
            return None;
        }
        Some(
            DiskId {
                vendor: trimmed_span(s, v + m, p),
                product: trimmed_span(s, p + 6, r),
                revision: trimmed_span(s, r + 5, r + 5 + run),
            },
        )
    } else {
        let run = run_length(s, p + 6);
        Some(
            DiskId {
                vendor: trimmed_span(s, v + m, p),
                product: trimmed_span(s, p + 6, p + 6 + run),
                revision: trimmed_span(s, p + 6, p + 6),
            },
        )
    }
}

} // verus!
