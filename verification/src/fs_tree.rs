use vstd::prelude::*;

verus! {

/// One entry of a directory listing: a plain file with its byte length, or a
/// subdirectory with its own listing.
pub enum FsEntry {
    File { size: u64 },
    Dir { tree: FsDir },
}

/// An in-memory image of one directory: the path it was read from and the
/// entries found directly in it.
pub struct FsDir {
    pub path: String,
    pub entries: Vec<FsEntry>,
}

/// What one entry adds to its parent directory's non-recursive size: a file
/// adds its length, a subdirectory entry adds nothing.
pub open spec fn entry_direct_size(e: FsEntry) -> nat {
    match e {
        FsEntry::File { size } => size as nat,
        FsEntry::Dir { .. } => 0,
    }
}

/// Sum of the lengths of the files directly contained in a listing;
/// subdirectories and their contents are ignored.
pub open spec fn direct_total(s: Seq<FsEntry>) -> nat
    decreases s.len(),
{
    if s.len() == 0 {
        0
    } else {
        direct_total(s.drop_last()) + entry_direct_size(s.last())
    }
}

/// Sum of the lengths of every file anywhere below a listing, descending into
/// subdirectories without bound.
pub open spec fn entries_total(s: Seq<FsEntry>) -> nat
    decreases s,
{
    if s.len() == 0 {
        0
    } else {
        entries_total(s.drop_last()) + match s.last() {
            FsEntry::File { size } => size as nat,
            FsEntry::Dir { tree } => entries_total(tree.entries@),
        }
    }
}

/// The full subtree weight of one entry: a file's length, or the recursive
/// total of a subdirectory.
pub open spec fn entry_total(e: FsEntry) -> nat {
    match e {
        FsEntry::File { size } => size as nat,
        FsEntry::Dir { tree } => entries_total(tree.entries@),
    }
}

/// Number of directory nodes anywhere below a listing (the directory holding
/// the listing itself is not counted).
pub open spec fn entries_dir_count(s: Seq<FsEntry>) -> nat
    decreases s,
{
    if s.len() == 0 {
        0
    } else {
        entries_dir_count(s.drop_last()) + match s.last() {
            FsEntry::File { .. } => 0,
            FsEntry::Dir { tree } => 1 + entries_dir_count(tree.entries@),
        }
    }
}

/// Number of directory nodes in the subtree rooted at `d`, `d` included.
pub open spec fn dir_count(d: FsDir) -> nat {
    1 + entries_dir_count(d.entries@)
}

/// Taking one more entry of a listing grows the direct total by exactly that
/// entry's direct size.
pub proof fn lemma_direct_total_take_step(s: Seq<FsEntry>, i: int)
    requires
        0 <= i < s.len(),
    ensures
        direct_total(s.take(i + 1)) == direct_total(s.take(i)) + entry_direct_size(s[i]),
{
    assert(s.take(i + 1).drop_last() =~= s.take(i));
    assert(s.take(i + 1).last() == s[i]);
}

/// Taking one more entry of a listing grows the recursive total by exactly
/// that entry's subtree weight.
pub proof fn lemma_entries_total_take_step(s: Seq<FsEntry>, i: int)
    requires
        0 <= i < s.len(),
    ensures
        entries_total(s.take(i + 1)) == entries_total(s.take(i)) + entry_total(s[i]),
{
    assert(s.take(i + 1).drop_last() =~= s.take(i));
    assert(s.take(i + 1).last() == s[i]);
}

/// A prefix of a listing never weighs more than the whole listing, by the
/// non-recursive measure.
pub proof fn lemma_direct_total_take_le(s: Seq<FsEntry>, i: int)
    requires
        0 <= i <= s.len(),
    ensures
        direct_total(s.take(i)) <= direct_total(s),
    decreases s.len() - i,
{
    if i == s.len() {
        assert(s.take(i) =~= s);
    } else {
        lemma_direct_total_take_step(s, i);
        lemma_direct_total_take_le(s, i + 1);
    }
}

/// A prefix of a listing never weighs more than the whole listing, by the
/// recursive measure.
pub proof fn lemma_entries_total_take_le(s: Seq<FsEntry>, i: int)
    requires
        0 <= i <= s.len(),
    ensures
        entries_total(s.take(i)) <= entries_total(s),
    decreases s.len() - i,
{
    if i == s.len() {
        assert(s.take(i) =~= s);
    } else {
        lemma_entries_total_take_step(s, i);
        lemma_entries_total_take_le(s, i + 1);
    }
}

/// No single entry weighs more than the listing that contains it.
pub proof fn lemma_entry_total_le(s: Seq<FsEntry>, i: int)
    requires
        0 <= i < s.len(),
    ensures
        entry_total(s[i]) <= entries_total(s),
{
    lemma_entries_total_take_step(s, i);
    lemma_entries_total_take_le(s, i + 1);
}

/// The non-recursive size of a listing never exceeds its recursive total.
pub proof fn lemma_direct_le_entries_total(s: Seq<FsEntry>)
    ensures
        direct_total(s) <= entries_total(s),
    decreases s.len(),
{
    if s.len() > 0 {
        lemma_direct_le_entries_total(s.drop_last());
    }
}

} // verus!
