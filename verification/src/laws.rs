use vstd::prelude::*;

use crate::folder_scanner::FolderToScan;
use crate::folder_scanner::FolderWithSize;
use crate::folder_scanner::ScanMode;
use crate::folder_scanner::explode_children;
use crate::folder_scanner::explode_spec;
use crate::folder_scanner::scan_target_spec;
use crate::fs_tree::FsDir;
use crate::fs_tree::FsEntry;
use crate::fs_tree::dir_count;
use crate::fs_tree::direct_total;
use crate::fs_tree::entries_dir_count;
use crate::fs_tree::entries_total;
use crate::fs_tree::entry_direct_size;
use crate::fs_tree::entry_total;
use crate::fs_tree::lemma_direct_le_entries_total;

verus! {

/// Sum of the reported sizes in a measurement list.
pub open spec fn sizes_total(ms: Seq<FolderWithSize>) -> nat
    decreases ms.len(),
{
    if ms.len() == 0 {
        0
    } else {
        sizes_total(ms.drop_last()) + ms.last().size as nat
    }
}

/// The non-recursive size of a directory depends only on the files directly
/// in it: two listings whose entries agree file by file have the same direct
/// total, however their subdirectories' contents differ — in particular,
/// adding a file into a subdirectory does not change the parent's `Direct`
/// measurement.
pub proof fn lemma_direct_total_ignores_subtrees(s1: Seq<FsEntry>, s2: Seq<FsEntry>)
    requires
        s1.len() == s2.len(),
        forall|k: int|
            0 <= k < s1.len() ==> entry_direct_size(#[trigger] s1[k]) == entry_direct_size(s2[k]),
    ensures
        direct_total(s1) == direct_total(s2),
    decreases s1.len(),
{
    if s1.len() > 0 {
        lemma_direct_total_ignores_subtrees(s1.drop_last(), s2.drop_last());
        assert(entry_direct_size(s1[s1.len() - 1]) == entry_direct_size(s2[s2.len() - 1]));
    }
}

/// Appending one entry adds exactly its subtree weight to the recursive
/// total of a listing.
pub proof fn lemma_entries_total_push(s: Seq<FsEntry>, e: FsEntry)
    ensures
        entries_total(s.push(e)) == entries_total(s) + entry_total(e),
{
    assert(s.push(e).drop_last() =~= s);
    assert(s.push(e).last() == e);
}

/// Replacing one entry changes the recursive total of a listing by the
/// difference of the two subtree weights.
pub proof fn lemma_entries_total_update(s: Seq<FsEntry>, i: int, e: FsEntry)
    requires
        0 <= i < s.len(),
    ensures
        entries_total(s.update(i, e)) + entry_total(s[i]) == entries_total(s) + entry_total(e),
    decreases s.len(),
{
    let su = s.update(i, e);
    if i == s.len() - 1 {
        assert(su.drop_last() =~= s.drop_last());
        assert(su.last() == e);
    } else {
        assert(su.drop_last() =~= s.drop_last().update(i, e));
        assert(su.last() == s.last());
        lemma_entries_total_update(s.drop_last(), i, e);
        assert(s.drop_last()[i] == s[i]);
    }
}

/// Moving a file between two subdirectories of the same root leaves the
/// root's fully recursive size unchanged. In `d1` the moved file, of length
/// `size`, stands at the end of the `i`-th entry's listing; in `d2` it
/// stands at the end of the `j`-th entry's listing instead, and everything
/// else is the same.
pub proof fn lemma_sum_move_file(d1: FsDir, d2: FsDir, i: int, j: int, size: u64)
    requires
        0 <= i < d1.entries@.len(),
        0 <= j < d1.entries@.len(),
        i != j,
        d2.entries@.len() == d1.entries@.len(),
        d1.entries@[i] is Dir,
        d1.entries@[j] is Dir,
        d2.entries@[i] is Dir,
        d2.entries@[j] is Dir,
        d1.entries@[i]->tree.entries@ == d2.entries@[i]->tree.entries@.push(
            (FsEntry::File { size }),
        ),
        d2.entries@[j]->tree.entries@ == d1.entries@[j]->tree.entries@.push(
            (FsEntry::File { size }),
        ),
        forall|k: int|
            0 <= k < d1.entries@.len() && k != i && k != j ==> #[trigger] d2.entries@[k]
                == d1.entries@[k],
    ensures
        entries_total(d2.entries@) == entries_total(d1.entries@),
{
    let s1 = d1.entries@;
    let s2 = d2.entries@;
    let mid = s1.update(i, s2[i]);
    assert(s2 =~= mid.update(j, s2[j]));
    lemma_entries_total_update(s1, i, s2[i]);
    lemma_entries_total_update(mid, j, s2[j]);
    assert(mid[j] == s1[j]);
    lemma_entries_total_push(s2[i]->tree.entries@, FsEntry::File { size });
    lemma_entries_total_push(s1[j]->tree.entries@, FsEntry::File { size });
}

/// Concatenating measurement lists adds their size totals.
pub proof fn lemma_sizes_total_concat(a: Seq<FolderWithSize>, b: Seq<FolderWithSize>)
    ensures
        sizes_total(a + b) == sizes_total(a) + sizes_total(b),
    decreases b.len(),
{
    if b.len() == 0 {
        assert(a + b =~= a);
    } else {
        assert((a + b).drop_last() =~= a + b.drop_last());
        lemma_sizes_total_concat(a, b.drop_last());
        assert((a + b).last() == b.last());
    }
}

/// A one-entry measurement list's size total is that entry's size.
pub proof fn lemma_sizes_total_singleton(m: FolderWithSize)
    ensures
        sizes_total(seq![m]) == m.size as nat,
{
    assert(seq![m].drop_last() =~= Seq::<FolderWithSize>::empty());
    assert(sizes_total(Seq::<FolderWithSize>::empty()) == 0);
    assert(seq![m].last() == m);
}

/// `Explode` emits exactly one measurement per directory entry below a
/// listing: the breakdown of a listing has as many entries as the listing
/// has directory nodes below it.
pub proof fn lemma_explode_children_count(mode: ScanMode, user: Option<String>, s: Seq<FsEntry>)
    ensures
        explode_children(mode, user, s).len() == entries_dir_count(s),
    decreases s,
{
    if s.len() > 0 {
        lemma_explode_children_count(mode, user, s.drop_last());
        match s.last() {
            FsEntry::File { .. } => {},
            FsEntry::Dir { tree } => {
                lemma_explode_children_count(mode, user, tree.entries@);
                assert(explode_spec(mode, user, tree) == explode_children(mode, user, tree.entries@)
                    + seq![
                    FolderWithSize {
                        folder: FolderToScan { path: tree.path, mode, user },
                        size: direct_total(tree.entries@) as u64,
                    },
                ]);
            },
        }
    }
}

/// `Explode` produces exactly one measurement per directory node of the
/// subtree rooted at `d` — the root and empty directories included.
pub proof fn lemma_explode_count(mode: ScanMode, user: Option<String>, d: FsDir)
    ensures
        explode_spec(mode, user, d).len() == dir_count(d),
{
    lemma_explode_children_count(mode, user, d.entries@);
}

/// The sizes of the breakdowns of a listing's subdirectories, plus the
/// listing's own direct total, account for every file below the listing.
pub proof fn lemma_explode_children_sum(mode: ScanMode, user: Option<String>, s: Seq<FsEntry>)
    requires
        entries_total(s) <= u64::MAX,
    ensures
        sizes_total(explode_children(mode, user, s)) + direct_total(s) == entries_total(s),
    decreases s,
{
    if s.len() > 0 {
        lemma_explode_children_sum(mode, user, s.drop_last());
        match s.last() {
            FsEntry::File { .. } => {
                assert(explode_children(mode, user, s) =~= explode_children(
                    mode,
                    user,
                    s.drop_last(),
                ));
            },
            FsEntry::Dir { tree } => {
                lemma_explode_children_sum(mode, user, tree.entries@);
                lemma_direct_le_entries_total(tree.entries@);
                lemma_sizes_total_concat(
                    explode_children(mode, user, s.drop_last()),
                    explode_spec(mode, user, tree),
                );
                let root = FolderWithSize {
                    folder: FolderToScan { path: tree.path, mode, user },
                    size: direct_total(tree.entries@) as u64,
                };
                lemma_sizes_total_concat(explode_children(mode, user, tree.entries@), seq![root]);
                lemma_sizes_total_singleton(root);
            },
        }
    }
}

/// Cross-mode consistency: the sizes of an `Explode` breakdown of a subtree
/// sum to exactly the `Sum` measurement of the same subtree.
pub proof fn lemma_explode_sum_consistency(mode: ScanMode, user: Option<String>, d: FsDir)
    requires
        entries_total(d.entries@) <= u64::MAX,
    ensures
        sizes_total(explode_spec(mode, user, d)) == entries_total(d.entries@),
{
    lemma_explode_children_sum(mode, user, d.entries@);
    lemma_direct_le_entries_total(d.entries@);
    let root = FolderWithSize {
        folder: FolderToScan { path: d.path, mode, user },
        size: direct_total(d.entries@) as u64,
    };
    lemma_sizes_total_concat(explode_children(mode, user, d.entries@), seq![root]);
    lemma_sizes_total_singleton(root);
}

/// Idempotence: scanning an unmodified tree image twice with the same target
/// yields identical measurements — what a scan reports is a function of the
/// target and the tree image alone.
pub proof fn lemma_scan_idempotent(
    t: FolderToScan,
    d: FsDir,
    r1: Seq<FolderWithSize>,
    r2: Seq<FolderWithSize>,
)
    requires
        r1 == scan_target_spec(t, d),
        r2 == scan_target_spec(t, d),
    ensures
        r1 == r2,
{
}

} // verus!
