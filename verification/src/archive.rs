//! Archive packing policy: which immediate children of a source directory
//! belong in the packed archive, given an optional inclusion set of
//! top-level directory names. Directories are included when the inclusion
//! set is empty or names them; regular files always; symlinks only when
//! their target is relative; any other file type never.
use vstd::prelude::*;

use crate::text::str_eq;

verus! {

/// The file type of one immediate child of the source directory, as far
/// as the packing policy cares.
#[derive(Debug, Clone, Copy, PartialEq, Eq, Structural)]
pub enum EntryKind {
    Directory,
    RegularFile,
    Symlink { target_absolute: bool },
    Other,
}

/// One immediate child of the source directory.
#[derive(Debug, Clone, PartialEq, Eq)]
pub struct FsEntry {
    pub name: String,
    pub kind: EntryKind,
}

/// Mathematical image of an [`FsEntry`].
pub struct FsEntryV {
    pub name: Seq<char>,
    pub kind: EntryKind,
}

impl View for FsEntry {
    type V = FsEntryV;

    open spec fn view(&self) -> FsEntryV {
        FsEntryV { name: self.name@, kind: self.kind }
    }
}

/// The views of a sequence of entries.
pub open spec fn entry_views(s: Seq<FsEntry>) -> Seq<FsEntryV> {
    s.map_values(|e: FsEntry| e@)
}

/// The views of a sequence of strings.
pub open spec fn str_views(s: Seq<String>) -> Seq<Seq<char>> {
    s.map_values(|x: String| x@)
}

/// The packing policy for one entry.
pub open spec fn spec_entry_included(e: FsEntryV, inclusion: Seq<Seq<char>>) -> bool {
    match e.kind {
        EntryKind::Directory => inclusion.len() == 0 || inclusion.contains(e.name),
        EntryKind::RegularFile => true,
        EntryKind::Symlink { target_absolute } => !target_absolute,
        EntryKind::Other => false,
    }
}

/// The entries the archive holds: those the policy admits, in order.
pub open spec fn spec_pack_plan(entries: Seq<FsEntryV>, inclusion: Seq<Seq<char>>) -> Seq<
    FsEntryV,
> {
    entries.filter(|e: FsEntryV| spec_entry_included(e, inclusion))
}

fn contains_str(inclusion: &Vec<String>, name: &String) -> (r: bool)
    ensures
        r == str_views(inclusion@).contains(name@),
{
    let mut i: usize = 0;
    while i < inclusion.len()
        invariant
            i <= inclusion@.len(),
            forall|j: int| 0 <= j < i ==> str_views(inclusion@)[j] != name@,
        decreases inclusion@.len() - i,
    {
        if str_eq(inclusion[i].as_str(), name.as_str()) {
            proof {
                assert(str_views(inclusion@)[i as int] == name@);
            }
            return true;
        }
        i += 1;
    }
    false
}

/// Whether the packing policy admits `e` under the inclusion set.
pub fn entry_included(e: &FsEntry, inclusion: &Vec<String>) -> (r: bool)
    ensures
        r == spec_entry_included(e@, str_views(inclusion@)),
{
    match e.kind {
        EntryKind::Directory => inclusion.len() == 0 || contains_str(inclusion, &e.name),
        EntryKind::RegularFile => true,
        EntryKind::Symlink { target_absolute } => !target_absolute,
        EntryKind::Other => false,
    }
}

fn clone_entry(e: &FsEntry) -> (r: FsEntry)
    ensures
        r@ == e@,
{
    FsEntry { name: e.name.clone(), kind: e.kind }
}

proof fn lemma_filter_one(e: FsEntryV, pred: spec_fn(FsEntryV) -> bool)
    ensures
        seq![e].filter(pred) == if pred(e) {
            seq![e]
        } else {
            Seq::<FsEntryV>::empty()
        },
{
    reveal(Seq::filter);
    assert(seq![e].drop_last() =~= Seq::<FsEntryV>::empty());
    assert(Seq::<FsEntryV>::empty().filter(pred) =~= Seq::<FsEntryV>::empty());
    assert(seq![e].last() == e);
    if pred(e) {
        assert(seq![e].filter(pred) =~= seq![e]);
    } else {
        assert(seq![e].filter(pred) =~= Seq::<FsEntryV>::empty());
    }
}

/// Selects, in order, the immediate children that belong in the archive.
pub fn pack_plan(entries: &Vec<FsEntry>, inclusion: &Vec<String>) -> (r: Vec<FsEntry>)
    ensures
        entry_views(r@) == spec_pack_plan(entry_views(entries@), str_views(inclusion@)),
{
    let ghost pred = |e: FsEntryV| spec_entry_included(e, str_views(inclusion@));
    let mut r: Vec<FsEntry> = Vec::new();
    let mut i: usize = 0;
    while i < entries.len()
        invariant
            i <= entries@.len(),
            entry_views(r@) == entry_views(entries@.subrange(0, i as int)).filter(pred),
            pred == |e: FsEntryV| spec_entry_included(e, str_views(inclusion@)),
        decreases entries@.len() - i,
    {
        let ghost pre = entry_views(entries@.subrange(0, i as int));
        let ghost ev = entries@[i as int]@;
        proof {
            assert(entry_views(entries@.subrange(0, i + 1)) =~= pre + seq![ev]);
            Seq::filter_distributes_over_add(pre, seq![ev], pred);
            lemma_filter_one(ev, pred);
        }
        let e = &entries[i];
        if entry_included(e, inclusion) {
            r.push(clone_entry(e));
            proof {
                assert(entry_views(r@) =~= pre.filter(pred) + seq![ev]);
            }
        } else {
            proof {
                assert(pre.filter(pred) + Seq::<FsEntryV>::empty() =~= pre.filter(pred));
            }
        }
        i += 1;
    }
    proof {
        assert(entries@.subrange(0, entries@.len() as int) =~= entries@);
    }
    r
}

proof fn lemma_filter_membership(s: Seq<FsEntryV>, pred: spec_fn(FsEntryV) -> bool, e: FsEntryV)
    ensures
        s.filter(pred).contains(e) <==> (s.contains(e) && pred(e)),
    decreases s.len(),
{
    reveal(Seq::filter);
    if s.len() == 0 {
    } else {
        let s0 = s.drop_last();
        lemma_filter_membership(s0, pred, e);
        let f0 = s0.filter(pred);
        let f = s.filter(pred);
        if s0.contains(e) {
            let j = choose|j: int| 0 <= j < s0.len() && s0[j] == e;
            assert(s[j] == e);
            assert(s.contains(e));
        }
        if pred(s.last()) {
            assert(f == f0.push(s.last()));
            if f.contains(e) {
                let i = choose|i: int| 0 <= i < f.len() && f[i] == e;
                if i < f0.len() {
                    assert(f0[i] == e);
                    assert(f0.contains(e));
                } else {
                    assert(e == s.last());
                    assert(s[s.len() - 1] == e);
                    assert(s.contains(e));
                }
            }
            if s.contains(e) && pred(e) {
                let j = choose|j: int| 0 <= j < s.len() && s[j] == e;
                if j < s.len() - 1 {
                    assert(s0[j] == e);
                    assert(s0.contains(e));
                    let k = choose|k: int| 0 <= k < f0.len() && f0[k] == e;
                    assert(f[k] == e);
                    assert(f.contains(e));
                } else {
                    assert(f[f.len() - 1] == e);
                    assert(f.contains(e));
                }
            }
        } else {
            assert(f == f0);
            if s.contains(e) && pred(e) {
                let j = choose|j: int| 0 <= j < s.len() && s[j] == e;
                if j == s.len() - 1 {
                    assert(e == s.last());
                    assert(false);
                } else {
                    assert(s0[j] == e);
                    assert(s0.contains(e));
                }
            }
        }
    }
}

/// Law: with an empty inclusion set, packing keeps exactly the
/// directories, regular files and relative symlinks; absolute symlinks
/// and other file types are absent. Since unpacking extracts every
/// archived entry verbatim, the round trip reproduces exactly those
/// entries.
pub proof fn lemma_pack_empty_include(entries: Seq<FsEntryV>, e: FsEntryV)
    ensures
        spec_pack_plan(entries, Seq::empty()).contains(e) <==> (entries.contains(e) && match e.kind {
            EntryKind::Directory => true,
            EntryKind::RegularFile => true,
            EntryKind::Symlink { target_absolute } => !target_absolute,
            EntryKind::Other => false,
        }),
{
    lemma_filter_membership(entries, |ev: FsEntryV| spec_entry_included(ev, Seq::empty()), e);
}

/// Law: with a non-empty inclusion set, packing keeps exactly the
/// directories whose name is in the set, all regular files, and all
/// relative symlinks: the inclusion filter applies to directories only.
pub proof fn lemma_pack_nonempty_include(
    entries: Seq<FsEntryV>,
    inclusion: Seq<Seq<char>>,
    e: FsEntryV,
)
    requires
        inclusion.len() > 0,
    ensures
        spec_pack_plan(entries, inclusion).contains(e) <==> (entries.contains(e) && match e.kind {
            EntryKind::Directory => inclusion.contains(e.name),
            EntryKind::RegularFile => true,
            EntryKind::Symlink { target_absolute } => !target_absolute,
            EntryKind::Other => false,
        }),
{
    lemma_filter_membership(entries, |ev: FsEntryV| spec_entry_included(ev, inclusion), e);
}

} // verus!
