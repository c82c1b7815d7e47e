//! The bounded, ordered catalog of directory entries and the rule that
//! turns one directory enumeration into the published listing.

use vstd::prelude::*;
use crate::entry::{DirItem, EntryModel, FileEntry, NAME_CAP, spec_entry_of};

verus! {

/// Upper bound on the number of catalog entries.
pub const CATALOG_CAP: usize = 32;

/// The decoded entries of one enumeration, in enumeration order;
/// undecodable slots are dropped individually.
pub open spec fn spec_decoded(items: Seq<Option<EntryModel>>) -> Seq<EntryModel>
    decreases items.len(),
{
    if items.len() == 0 {
        Seq::empty()
    } else {
        let rest = spec_decoded(items.drop_last());
        match items.last() {
            Some(e) => rest.push(e),
            None => rest,
        }
    }
}

/// The decoded entries with the name-length policy applied, before the
/// capacity bound.
pub open spec fn spec_listed(items: Seq<Option<EntryModel>>) -> Seq<EntryModel> {
    spec_decoded(items).map_values(|e: EntryModel| spec_entry_of(e))
}

/// What one enumeration publishes: the decoded entries in order, each
/// under the name-length policy, truncated to the first `CATALOG_CAP`.
pub open spec fn spec_catalog_of(items: Seq<Option<EntryModel>>) -> Seq<EntryModel> {
    if spec_listed(items).len() <= CATALOG_CAP {
        spec_listed(items)
    } else {
        spec_listed(items).take(CATALOG_CAP as int)
    }
}

/// The view of one enumeration report, slot by slot.
pub open spec fn spec_items_view(items: Seq<DirItem>) -> Seq<Option<EntryModel>> {
    items.map_values(|it: DirItem| it@)
}

/// The published catalog keeps exactly the first `CATALOG_CAP` decoded
/// entries, in enumeration order, each under the name policy; nothing
/// beyond the bound and nothing out of order.
pub proof fn lemma_catalog_shape(items: Seq<Option<EntryModel>>)
    ensures
        spec_decoded(items).len() <= CATALOG_CAP ==> spec_catalog_of(items).len()
            == spec_decoded(items).len(),
        spec_decoded(items).len() > CATALOG_CAP ==> spec_catalog_of(items).len() == CATALOG_CAP,
        forall|i: int|
            0 <= i < spec_catalog_of(items).len() ==> spec_catalog_of(items)[i] == spec_entry_of(
                spec_decoded(items)[i],
            ),
{
}

/// The ordered listing of currently known entries, at most `CATALOG_CAP`
/// of them, replaced wholesale on each successful scan.
pub struct Catalog {
    entries: Vec<FileEntry>,
}

impl View for Catalog {
    type V = Seq<EntryModel>;

    closed spec fn view(&self) -> Seq<EntryModel> {
        self.entries@.map_values(|e: FileEntry| e@)
    }
}

impl Catalog {
    /// Every name within bound, and the listing within capacity.
    pub open spec fn wf(self) -> bool {
        &&& self@.len() <= CATALOG_CAP
        &&& forall|i: int| 0 <= i < self@.len() ==> (#[trigger] self@[i]).name.len() <= NAME_CAP
    }

    /// The empty catalog of process start.
    pub fn new() -> (c: Catalog)
        ensures
            c.wf(),
            c@ == Seq::<EntryModel>::empty(),
    {
        let c = Catalog { entries: Vec::new() };
        proof {
            assert(c@ =~= Seq::<EntryModel>::empty());
        }
        c
    }

    pub fn len(&self) -> (n: usize)
        ensures
            n == self@.len(),
    {
        self.entries.len()
    }

    pub fn get(&self, i: usize) -> (e: &FileEntry)
        requires
            i < self@.len(),
        ensures
            e@ == self@[i as int],
    {
        &self.entries[i]
    }

    /// Append one entry if the capacity allows it, else drop it silently.
    /// Returns whether the entry was kept.
    pub fn push_bounded(&mut self, e: FileEntry) -> (kept: bool)
        requires
            old(self).wf(),
            e.wf(),
        ensures
            final(self).wf(),
            kept == (old(self)@.len() < CATALOG_CAP),
            kept ==> final(self)@ == old(self)@.push(e@),
            !kept ==> final(self)@ == old(self)@,
    {
        if self.entries.len() < CATALOG_CAP {
            self.entries.push(e);
            proof {
                assert(self@ =~= old(self)@.push(e@));
            }
            true
        } else {
            false
        }
    }

    /// A clone lists the same entries.
    pub fn duplicate(&self) -> (r: Catalog)
        ensures
            r@ == self@,
    {
        let mut out: Vec<FileEntry> = Vec::new();
        let mut i: usize = 0;
        while i < self.entries.len()
            invariant
                i <= self.entries.len(),
                out@.len() == i as int,
                forall|j: int| 0 <= j < i ==> (#[trigger] out@[j])@ == self.entries@[j]@,
            decreases self.entries.len() - i,
        {
            let e = self.entries[i].clone();
            out.push(e);
            i = i + 1;
        }
        let r = Catalog { entries: out };
        proof {
            assert(r@ =~= self@);
        }
        r
    }
}

/// One step of the enumeration: extending the report by one slot extends
/// the decoded sequence by the slot's entry, or not at all.
proof fn lemma_decoded_step(s: Seq<Option<EntryModel>>, i: int)
    requires
        0 <= i < s.len(),
    ensures
        s[i] matches Some(e) ==> spec_decoded(s.take(i + 1)) == spec_decoded(s.take(i)).push(e),
        s[i] is None ==> spec_decoded(s.take(i + 1)) == spec_decoded(s.take(i)),
{
    assert(s.take(i + 1).drop_last() =~= s.take(i));
    assert(s.take(i + 1).last() == s[i]);
}

/// Build the catalog one successful enumeration publishes: decoded
/// entries in order, names bounded, the first `CATALOG_CAP` kept and the
/// excess dropped without failing the scan.
pub fn build_catalog(items: &Vec<DirItem>) -> (c: Catalog)
    ensures
        c.wf(),
        c@ == spec_catalog_of(spec_items_view(items@)),
{
    let ghost s = spec_items_view(items@);
    let mut c = Catalog::new();
    let mut i: usize = 0;
    proof {
        assert(s.take(0) =~= Seq::<Option<EntryModel>>::empty());
        assert(spec_listed(s.take(0)) =~= Seq::<EntryModel>::empty());
    }
    while i < items.len()
        invariant
            i <= items.len(),
            s == spec_items_view(items@),
            s.len() == items@.len(),
            c.wf(),
            c@ == spec_catalog_of(s.take(i as int)),
        decreases items.len() - i,
    {
        let ghost gi = i as int;
        proof {
            lemma_decoded_step(s, gi);
            assert(s[gi] == items@[gi]@);
        }
        match &items[i] {
            DirItem::Decoded(raw) => {
                let e = FileEntry::from_raw(raw);
                let _ = c.push_bounded(e);
                proof {
                    let pre = spec_listed(s.take(gi));
                    let post = spec_listed(s.take(gi + 1));
                    assert(post =~= pre.push(spec_entry_of(raw@)));
                    if pre.len() >= CATALOG_CAP {
                        assert(post.take(CATALOG_CAP as int) =~= pre.take(CATALOG_CAP as int));
                        assert(pre.take(CATALOG_CAP as int) =~= spec_catalog_of(s.take(gi)));
                    }
                    assert(c@ == spec_catalog_of(s.take(gi + 1)));
                }
            },
            DirItem::Undecodable => {
                proof {
                    assert(spec_decoded(s.take(gi + 1)) == spec_decoded(s.take(gi)));
                    assert(c@ == spec_catalog_of(s.take(gi + 1)));
                }
            },
        }
        i = i + 1;
    }
    proof {
        assert(s.take(s.len() as int) =~= s);
    }
    c
}

} // verus!
