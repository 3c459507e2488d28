//! The model identifier in configuration ROM of Fireface series.
//!
//! The directory entries of configuration ROM in IEEE 1212 are held as plain values: the key of
//! each entry by its six-bit code, and its content. Parsing the raw content of the ROM into the
//! entries is left to the caller.

use super::RME_OUI;
use vstd::prelude::*;

verus! {

/// The key code of directory entry for the identifier of vendor.
pub const KEY_VENDOR: u8 = 0x03;

/// The key code of directory entry for unit directory.
pub const KEY_UNIT: u8 = 0x11;

/// The key code of directory entry for the version of unit.
pub const KEY_VERSION: u8 = 0x13;

/// The content of directory entry.
#[derive(Debug)]
pub enum RomEntryData {
    /// The immediate value.
    Immediate(u32),
    /// The offset in CSR address space.
    CsrOffset(usize),
    /// The content of leaf.
    Leaf(Vec<u8>),
    /// The entries of directory.
    Directory(Vec<RomEntry>),
}

/// The directory entry.
#[derive(Debug)]
pub struct RomEntry {
    /// The six-bit code of key.
    pub key: u8,
    /// The content.
    pub data: RomEntryData,
}

/// The directory entries in root directory block of configuration ROM.
#[derive(Debug)]
pub struct ConfigRomRoot {
    /// The entries.
    pub root: Vec<RomEntry>,
}

/// The immediate value of the entry, if the entry has the key and an immediate value.
pub open spec fn immediate_of(entry: RomEntry, key: u8) -> Option<u32> {
    if entry.key == key {
        match entry.data {
            RomEntryData::Immediate(v) => Some(v),
            _ => None,
        }
    } else {
        None
    }
}

/// The entries of the directory of the entry, if the entry has the key and a directory.
pub open spec fn directory_of(entry: RomEntry, key: u8) -> Option<Seq<RomEntry>> {
    if entry.key == key {
        match entry.data {
            RomEntryData::Directory(d) => Some(d@),
            _ => None,
        }
    } else {
        None
    }
}

/// The immediate value of the first entry from the index on which has the key and an immediate
/// value.
pub open spec fn first_immediate_from(entries: Seq<RomEntry>, key: u8, i: int) -> Option<u32>
    decreases entries.len() - i,
{
    if i < 0 || i >= entries.len() {
        None
    } else if let Some(v) = immediate_of(entries[i], key) {
        Some(v)
    } else {
        first_immediate_from(entries, key, i + 1)
    }
}

/// The directory of the first entry from the index on which has the key and a directory.
pub open spec fn first_directory_from(entries: Seq<RomEntry>, key: u8, i: int) -> Option<
    Seq<RomEntry>,
>
    decreases entries.len() - i,
{
    if i < 0 || i >= entries.len() {
        None
    } else if let Some(d) = directory_of(entries[i], key) {
        Some(d)
    } else {
        first_directory_from(entries, key, i + 1)
    }
}

/// The model identifier in the root directory: when the first immediate entry of vendor is the
/// identifier of RME, the first immediate entry of version in the first unit directory.
pub open spec fn model_id_of(root: Seq<RomEntry>) -> Option<u32> {
    if first_immediate_from(root, KEY_VENDOR, 0) == Some(RME_OUI) {
        match first_directory_from(root, KEY_UNIT, 0) {
            Some(unit) => first_immediate_from(unit, KEY_VERSION, 0),
            None => None,
        }
    } else {
        None
    }
}

/// Find the immediate value of the first entry which has the key and an immediate value.
pub fn find_immediate(entries: &[RomEntry], key: u8) -> (r: Option<u32>)
    ensures
        r == first_immediate_from(entries@, key, 0),
{
    let mut i: usize = 0;
    while i < entries.len()
        invariant
            i <= entries@.len(),
            first_immediate_from(entries@, key, 0) == first_immediate_from(entries@, key, i as int),
        decreases entries@.len() - i,
    {
        let entry = &entries[i];
        if entry.key == key {
            if let RomEntryData::Immediate(v) = &entry.data {
                return Some(*v);
            }
        }
        i += 1;
    }
    None
}

/// Find the entries of the directory of the first entry which has the key and a directory.
pub fn find_directory(entries: &[RomEntry], key: u8) -> (r: Option<&[RomEntry]>)
    ensures
        r matches Some(d) ==> first_directory_from(entries@, key, 0) == Some(d@),
        r is None ==> first_directory_from(entries@, key, 0) is None,
{
    let mut i: usize = 0;
    while i < entries.len()
        invariant
            i <= entries@.len(),
            first_directory_from(entries@, key, 0) == first_directory_from(entries@, key, i as int),
        decreases entries@.len() - i,
    {
        let entry = &entries[i];
        if entry.key == key {
            if let RomEntryData::Directory(d) = &entry.data {
                return Some(d.as_slice());
            }
        }
        i += 1;
    }
    None
}

/// Parser of configuration rom for RME Fireface series.
pub trait FfConfigRom {
    fn get_model_id(&self) -> Option<u32>;
}

impl FfConfigRom for ConfigRomRoot {
    fn get_model_id(&self) -> (r: Option<u32>)
        ensures
            r == model_id_of(self.root@),
    {
        match find_immediate(self.root.as_slice(), KEY_VENDOR) {
            Some(vendor_id) if vendor_id == RME_OUI => {
                match find_directory(self.root.as_slice(), KEY_UNIT) {
                    Some(entries) => find_immediate(entries, KEY_VERSION),
                    None => None,
                }
            },
            _ => None,
        }
    }
}

} // verus!
