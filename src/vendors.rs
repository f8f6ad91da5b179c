//! The USB vendor and product names that device reports are annotated with.

use std::collections::HashMap;
use vstd::prelude::*;

verus! {

broadcast use vstd::std_specs::hash::group_hash_axioms;

/// A product of a vendor: its 16-bit id and its name, if known.
pub struct Device {
    pub did: u16,
    pub name: Option<String>,
}

/// A USB vendor: its name, if known, its 16-bit id, and its products by id.
pub struct Vendor {
    pub name: Option<String>,
    pub vid: u16,
    pub devices: HashMap<u16, Device>,
}

/// The vendors, by id.
pub type VendorList = HashMap<u16, Vendor>;

/// The name of vendor `vid`, empty where the vendor or its name is unknown.
pub open spec fn vendor_name_text(vs: Map<u16, Vendor>, vid: u16) -> Seq<char> {
    if vs.contains_key(vid) {
        match vs[vid].name {
            Some(n) => n@,
            None => Seq::empty(),
        }
    } else {
        Seq::empty()
    }
}

/// The name of product `pid` of vendor `vid`, empty where it is unknown.
pub open spec fn product_name_text(vs: Map<u16, Vendor>, vid: u16, pid: u16) -> Seq<char> {
    if vs.contains_key(vid) && vs[vid].devices@.contains_key(pid) {
        match vs[vid].devices@[pid].name {
            Some(n) => n@,
            None => Seq::empty(),
        }
    } else {
        Seq::empty()
    }
}

impl Vendor {
    /// A vendor with no products yet.
    pub fn new(vid: u16, name: Option<String>) -> (r: Vendor)
        ensures
            r.vid == vid,
            r.name == name,
            r.devices@ == Map::<u16, Device>::empty(),
    {
        Vendor { name, vid, devices: HashMap::new() }
    }

    /// Records a product, replacing any earlier one with the same id.
    pub fn add_device(&mut self, device: Device)
        ensures
            final(self).vid == old(self).vid,
            final(self).name == old(self).name,
            final(self).devices@ == old(self).devices@.insert(device.did, device),
    {
        self.devices.insert(device.did, device);
    }
}

/// The name of vendor `vid`, empty where it is unknown.
pub fn vendor_name(vendors: &VendorList, vid: u16) -> (r: String)
    ensures
        r@ == vendor_name_text(vendors@, vid),
{
    match vendors.get(&vid) {
        Some(v) => match &v.name {
            Some(n) => n.clone(),
            None => String::new(),
        },
        None => String::new(),
    }
}

/// The name of product `pid` of vendor `vid`, empty where it is unknown.
pub fn product_name(vendors: &VendorList, vid: u16, pid: u16) -> (r: String)
    ensures
        r@ == product_name_text(vendors@, vid, pid),
{
    match vendors.get(&vid) {
        Some(v) => match v.devices.get(&pid) {
            Some(d) => match &d.name {
                Some(n) => n.clone(),
                None => String::new(),
            },
            None => String::new(),
        },
        None => String::new(),
    }
}

} // verus!
