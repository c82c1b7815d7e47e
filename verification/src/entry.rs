//! File entries as the scanner stores them, and the raw entries the
//! storage driver hands over during directory enumeration.

use vstd::prelude::*;

verus! {

/// Upper bound on the stored length of an entry name, in bytes.
pub const NAME_CAP: usize = 64;

/// Mathematical model of one directory entry: the name bytes, the byte
/// count (meaningless for directories), and the directory flag.
pub struct EntryModel {
    pub name: Seq<u8>,
    pub size: u32,
    pub is_dir: bool,
}

/// A directory entry exactly as enumerated by the storage driver:
/// the name may have any length.
pub struct RawEntry {
    pub name: Vec<u8>,
    pub size: u32,
    pub is_dir: bool,
}

impl View for RawEntry {
    type V = EntryModel;

    open spec fn view(&self) -> EntryModel {
        EntryModel { name: self.name@, size: self.size, is_dir: self.is_dir }
    }
}

/// A catalog entry: immutable once created, name bounded by `NAME_CAP`.
pub struct FileEntry {
    pub name: Vec<u8>,
    pub size: u32,
    pub is_dir: bool,
}

impl View for FileEntry {
    type V = EntryModel;

    open spec fn view(&self) -> EntryModel {
        EntryModel { name: self.name@, size: self.size, is_dir: self.is_dir }
    }
}

/// The over-length-name policy: a name of at most `NAME_CAP` bytes is
/// kept verbatim, a longer one is truncated to its first `NAME_CAP` bytes.
pub open spec fn spec_bound_name(name: Seq<u8>) -> Seq<u8> {
    if name.len() <= NAME_CAP {
        name
    } else {
        name.take(NAME_CAP as int)
    }
}

/// What a raw entry becomes when it enters the catalog.
pub open spec fn spec_entry_of(raw: EntryModel) -> EntryModel {
    EntryModel { name: spec_bound_name(raw.name), size: raw.size, is_dir: raw.is_dir }
}

/// A name of at most `NAME_CAP` bytes is preserved verbatim; a longer
/// name is cut to exactly its first `NAME_CAP` bytes, nothing else.
pub proof fn lemma_name_policy(name: Seq<u8>)
    ensures
        name.len() <= NAME_CAP ==> spec_bound_name(name) == name,
        name.len() > NAME_CAP ==> spec_bound_name(name) == name.take(NAME_CAP as int),
        spec_bound_name(name).len() <= NAME_CAP,
{
}

impl FileEntry {
    /// The entry's name stays within the bound.
    pub open spec fn wf(self) -> bool {
        self.name@.len() <= NAME_CAP
    }

    /// Build a catalog entry from what the driver enumerated, applying
    /// the name-length policy.
    pub fn from_raw(raw: &RawEntry) -> (e: FileEntry)
        ensures
            e.wf(),
            e@ == spec_entry_of(raw@),
    {
        let mut name = clone_bytes(&raw.name);
        if name.len() > NAME_CAP {
            name.truncate(NAME_CAP);
        }
        FileEntry { name, size: raw.size, is_dir: raw.is_dir }
    }
}

/// Byte-for-byte copy of a name buffer.
pub(crate) fn clone_bytes(v: &Vec<u8>) -> (r: Vec<u8>)
    ensures
        r@ == v@,
{
    let mut r: Vec<u8> = Vec::new();
    let mut i: usize = 0;
    while i < v.len()
        invariant
            i <= v.len(),
            r@ == v@.take(i as int),
        decreases v.len() - i,
    {
        r.push(v[i]);
        i = i + 1;
        proof {
            assert(r@ =~= v@.take(i as int));
        }
    }
    proof {
        assert(r@ =~= v@);
    }
    r
}

impl Clone for FileEntry {
    /// A clone carries the same name bytes, size and flag.
    fn clone(&self) -> (r: Self)
        ensures
            r@ == self@,
    {
        FileEntry { name: clone_bytes(&self.name), size: self.size, is_dir: self.is_dir }
    }
}

/// One enumerated slot as the driver reports it: either a decoded entry,
/// or one that could not be decoded and is skipped without failing the scan.
pub enum DirItem {
    Decoded(RawEntry),
    Undecodable,
}

impl View for DirItem {
    type V = Option<EntryModel>;

    open spec fn view(&self) -> Option<EntryModel> {
        match self {
            DirItem::Decoded(raw) => Some(raw@),
            DirItem::Undecodable => None,
        }
    }
}

} // verus!
