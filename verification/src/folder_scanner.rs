use vstd::prelude::*;
use vstd::string::StrSliceExecFns;

use crate::errors::FsError;
use crate::errors::ScanError;
use crate::fs_tree::FsDir;
use crate::fs_tree::FsEntry;
use crate::fs_tree::direct_total;
use crate::fs_tree::entries_total;
use crate::fs_tree::lemma_direct_le_entries_total;
use crate::fs_tree::lemma_direct_total_take_le;
use crate::fs_tree::lemma_direct_total_take_step;
use crate::fs_tree::lemma_entries_total_take_le;
use crate::fs_tree::lemma_entries_total_take_step;
use crate::fs_tree::lemma_entry_total_le;

verus! {

/// How a target's subtree is aggregated into measurements.
#[derive(Clone, Copy, Debug, PartialEq, Eq, Structural)]
pub enum ScanMode {
    /// Non-recursive: one measurement, the sum of the files directly in the
    /// target directory; subdirectory contents are ignored.
    Direct,
    /// Fully recursive: one measurement, the sum of every file anywhere in
    /// the subtree.
    Sum,
    /// Recursive breakdown: one measurement per directory in the subtree,
    /// each holding only the sizes of that directory's immediate files.
    Explode,
}

/// One configured unit of measurement: a directory to root the scan at, the
/// traversal mode, and an optional free-text tag naming who the space is
/// attributed to.
#[derive(Debug)]
pub struct FolderToScan {
    pub path: String,
    pub mode: ScanMode,
    pub user: Option<String>,
}

/// One reported data point: the target (or the derived per-directory target,
/// for `Explode` sub-entries) and its size in bytes.
#[derive(Debug)]
pub struct FolderWithSize {
    pub folder: FolderToScan,
    pub size: u64,
}

/// The measurements `Explode` produces for the subtrees of a listing, in
/// entry order; every directory entry contributes its own breakdown, files
/// contribute nothing.
pub open spec fn explode_children(mode: ScanMode, user: Option<String>, s: Seq<FsEntry>) -> Seq<
    FolderWithSize,
>
    decreases s,
{
    if s.len() == 0 {
        Seq::empty()
    } else {
        explode_children(mode, user, s.drop_last()) + match s.last() {
            FsEntry::File { .. } => Seq::<FolderWithSize>::empty(),
            FsEntry::Dir { tree } => explode_spec(mode, user, tree),
        }
    }
}

/// The measurements `Explode` produces for the subtree rooted at `d`: first
/// the breakdowns of the subdirectories, then one entry for `d` itself with
/// the sum of its immediate files — children stand before their parent.
pub open spec fn explode_spec(mode: ScanMode, user: Option<String>, d: FsDir) -> Seq<
    FolderWithSize,
>
    decreases d,
{
    explode_children(mode, user, d.entries@) + seq![
        FolderWithSize {
            folder: FolderToScan { path: d.path, mode, user },
            size: direct_total(d.entries@) as u64,
        },
    ]
}

/// Everything one target reports when scanned over the tree image `d`.
pub open spec fn scan_target_spec(t: FolderToScan, d: FsDir) -> Seq<FolderWithSize> {
    match t.mode {
        ScanMode::Direct => seq![
            FolderWithSize { folder: t, size: direct_total(d.entries@) as u64 },
        ],
        ScanMode::Sum => seq![
            FolderWithSize { folder: t, size: entries_total(d.entries@) as u64 },
        ],
        ScanMode::Explode => explode_spec(t.mode, t.user, d),
    }
}

/// Everything a whole target list reports, in target order, given one tree
/// image per target.
pub open spec fn scan_all_spec(targets: Seq<FolderToScan>, trees: Seq<FsDir>) -> Seq<
    FolderWithSize,
>
    decreases targets.len(),
{
    if targets.len() == 0 {
        Seq::empty()
    } else {
        scan_all_spec(targets.drop_last(), trees.drop_last()) + scan_target_spec(
            targets.last(),
            trees.last(),
        )
    }
}

/// The tree images of a sequence of read outcomes, meaningful at the
/// positions where the outcome was a success.
pub open spec fn ok_trees(outcomes: Seq<Result<FsDir, FsError>>) -> Seq<FsDir> {
    Seq::new(outcomes.len(), |i: int| outcomes[i]->Ok_0)
}

/// Copy of an optional owner tag, preserving it exactly.
fn clone_user(user: &Option<String>) -> (r: Option<String>)
    ensures
        r == *user,
{
    match user {
        Option::Some(s) => Option::Some(s.clone()),
        Option::None => Option::None,
    }
}

/// Copy of a scan target, preserving it exactly.
fn clone_target(t: &FolderToScan) -> (r: FolderToScan)
    ensures
        r == *t,
{
    FolderToScan { path: t.path.clone(), mode: t.mode, user: clone_user(&t.user) }
}

/// Copy of one measurement, preserving it exactly.
fn clone_measurement(m: &FolderWithSize) -> (r: FolderWithSize)
    ensures
        r == *m,
{
    FolderWithSize { folder: clone_target(&m.folder), size: m.size }
}

/// Copy of a full measurement list, preserving every entry exactly.
pub(crate) fn clone_measurements(v: &Vec<FolderWithSize>) -> (r: Vec<FolderWithSize>)
    ensures
        r@ == v@,
{
    let mut out: Vec<FolderWithSize> = Vec::new();
    let mut i: usize = 0;
    while i < v.len()
        invariant
            0 <= i <= v@.len(),
            out@ == v@.take(i as int),
        decreases v@.len() - i,
    {
        out.push(clone_measurement(&v[i]));
        proof {
            assert(v@.take(i as int).push(v@[i as int]) =~= v@.take(i + 1));
        }
        i = i + 1;
    }
    proof {
        assert(v@.take(v@.len() as int) =~= v@);
    }
    out
}

/// Sum of the lengths of the files directly in a listing, ignoring
/// subdirectories — the `Direct` aggregation.
fn direct_size_of(entries: &Vec<FsEntry>) -> (r: u64)
    requires
        direct_total(entries@) <= u64::MAX,
    ensures
        r == direct_total(entries@),
{
    let mut tot: u64 = 0;
    let mut i: usize = 0;
    while i < entries.len()
        invariant
            0 <= i <= entries@.len(),
            direct_total(entries@) <= u64::MAX,
            tot == direct_total(entries@.take(i as int)),
        decreases entries@.len() - i,
    {
        proof {
            lemma_direct_total_take_step(entries@, i as int);
            lemma_direct_total_take_le(entries@, i + 1);
        }
        match &entries[i] {
            FsEntry::File { size } => {
                tot = tot + *size;
            },
            FsEntry::Dir { .. } => {},
        }
        i = i + 1;
    }
    proof {
        assert(entries@.take(entries@.len() as int) =~= entries@);
    }
    tot
}

/// Sum of the lengths of every file anywhere below a listing — the `Sum`
/// aggregation, recursing into every subdirectory.
fn recursive_size_of(entries: &Vec<FsEntry>) -> (r: u64)
    requires
        entries_total(entries@) <= u64::MAX,
    ensures
        r == entries_total(entries@),
    decreases entries@,
{
    let mut tot: u64 = 0;
    let mut i: usize = 0;
    while i < entries.len()
        invariant
            0 <= i <= entries@.len(),
            entries_total(entries@) <= u64::MAX,
            tot == entries_total(entries@.take(i as int)),
        decreases entries@.len() - i,
    {
        proof {
            lemma_entries_total_take_step(entries@, i as int);
            lemma_entries_total_take_le(entries@, i + 1);
            lemma_entry_total_le(entries@, i as int);
        }
        match &entries[i] {
            FsEntry::File { size } => {
                tot = tot + *size;
            },
            FsEntry::Dir { tree } => {
                let sub = recursive_size_of(&tree.entries);
                tot = tot + sub;
            },
        }
        i = i + 1;
    }
    proof {
        assert(entries@.take(entries@.len() as int) =~= entries@);
    }
    tot
}

/// The `Explode` traversal over the subtree rooted at `d`: appends one
/// measurement per directory, subdirectories' breakdowns before the entry for
/// `d` itself, whose size covers only its immediate files.
fn explode_dir(mode: ScanMode, user: &Option<String>, d: &FsDir) -> (r: Vec<FolderWithSize>)
    requires
        entries_total(d.entries@) <= u64::MAX,
    ensures
        r@ == explode_spec(mode, *user, *d),
    decreases *d,
{
    let mut out: Vec<FolderWithSize> = Vec::new();
    let mut tot: u64 = 0;
    let mut i: usize = 0;
    proof {
        lemma_direct_le_entries_total(d.entries@);
    }
    while i < d.entries.len()
        invariant
            0 <= i <= d.entries@.len(),
            entries_total(d.entries@) <= u64::MAX,
            direct_total(d.entries@) <= u64::MAX,
            tot == direct_total(d.entries@.take(i as int)),
            out@ == explode_children(mode, *user, d.entries@.take(i as int)),
        decreases d.entries@.len() - i,
    {
        proof {
            lemma_direct_total_take_step(d.entries@, i as int);
            lemma_direct_total_take_le(d.entries@, i + 1);
            lemma_entry_total_le(d.entries@, i as int);
            assert(d.entries@.take(i + 1).drop_last() =~= d.entries@.take(i as int));
        }
        match &d.entries[i] {
            FsEntry::File { size } => {
                tot = tot + *size;
            },
            FsEntry::Dir { tree } => {
                let mut sub = explode_dir(mode, user, tree);
                out.append(&mut sub);
            },
        }
        i = i + 1;
    }
    proof {
        assert(d.entries@.take(d.entries@.len() as int) =~= d.entries@);
    }
    out.push(
        FolderWithSize {
            folder: FolderToScan { path: d.path.clone(), mode, user: clone_user(user) },
            size: tot,
        },
    );
    proof {
        assert(out@ =~= explode_spec(mode, *user, *d));
    }
    out
}

/// Scan of one target over the tree image `d`, producing the measurements
/// its mode calls for: a single direct or recursive sum, or the exploded
/// per-directory breakdown.
pub fn scan_target(t: &FolderToScan, d: &FsDir) -> (r: Vec<FolderWithSize>)
    requires
        entries_total(d.entries@) <= u64::MAX,
    ensures
        r@ == scan_target_spec(*t, *d),
{
    proof {
        lemma_direct_le_entries_total(d.entries@);
    }
    match t.mode {
        ScanMode::Direct => {
            let size = direct_size_of(&d.entries);
            let mut out: Vec<FolderWithSize> = Vec::new();
            out.push(FolderWithSize { folder: clone_target(t), size });
            proof {
                assert(out@ =~= scan_target_spec(*t, *d));
            }
            out
        },
        ScanMode::Sum => {
            let size = recursive_size_of(&d.entries);
            let mut out: Vec<FolderWithSize> = Vec::new();
            out.push(FolderWithSize { folder: clone_target(t), size });
            proof {
                assert(out@ =~= scan_target_spec(*t, *d));
            }
            out
        },
        ScanMode::Explode => explode_dir(t.mode, &t.user, d),
    }
}

/// The ordered, immutable list of scan targets, loaded once at startup.
#[derive(Debug)]
pub struct FolderScanner {
    folders: Vec<FolderToScan>,
}

impl View for FolderScanner {
    type V = Seq<FolderToScan>;

    closed spec fn view(&self) -> Seq<FolderToScan> {
        self.folders@
    }
}

impl FolderScanner {
    /// Whether every configured target names a non-empty path.
    pub open spec fn wf(&self) -> bool {
        forall|i: int| 0 <= i < self@.len() ==> (#[trigger] self@[i]).path@.len() > 0
    }

    /// Builds a target list, refusing a set in which any target's path is the
    /// empty string.
    pub fn new(folders: Vec<FolderToScan>) -> (r: Option<FolderScanner>)
        ensures
            match r {
                Option::Some(fs) => fs@ == folders@ && fs.wf(),
                Option::None => exists|i: int|
                    0 <= i < folders@.len() && (#[trigger] folders@[i]).path@.len() == 0,
            },
    {
        let mut i: usize = 0;
        while i < folders.len()
            invariant
                0 <= i <= folders@.len(),
                forall|j: int| 0 <= j < i ==> (#[trigger] folders@[j]).path@.len() > 0,
            decreases folders@.len() - i,
        {
            if folders[i].path.as_str().unicode_len() == 0 {
                return Option::None;
            }
            i = i + 1;
        }
        Option::Some(FolderScanner { folders })
    }

    /// The configured targets, in their scan order.
    pub fn folders(&self) -> (r: &Vec<FolderToScan>)
        ensures
            r@ == self@,
    {
        &self.folders
    }

    /// Scan of every target in order, given one read outcome per target.
    /// Succeeds with the concatenation of all targets' measurements exactly
    /// when every directory tree was read whole; the first target whose tree
    /// could not be read fails the entire scan with its filesystem fault, and
    /// no partial results are produced.
    pub fn scan(&self, trees: &Vec<Result<FsDir, FsError>>) -> (r: Result<
        Vec<FolderWithSize>,
        ScanError,
    >)
        requires
            trees@.len() == self@.len(),
            forall|i: int|
                0 <= i < trees@.len() && trees@[i] is Ok ==> entries_total(
                    (#[trigger] trees@[i])->Ok_0.entries@,
                ) <= u64::MAX,
        ensures
            r is Ok <==> (forall|i: int| 0 <= i < trees@.len() ==> (#[trigger] trees@[i]) is Ok),
            r is Ok ==> r->Ok_0@ == scan_all_spec(self@, ok_trees(trees@)),
            r is Err ==> exists|i: int|
                {
                    &&& 0 <= i < trees@.len()
                    &&& (#[trigger] trees@[i]) is Err
                    &&& forall|j: int| 0 <= j < i ==> trees@[j] is Ok
                    &&& r->Err_0 == (ScanError::Filesystem { fault: trees@[i]->Err_0 })
                },
    {
        let mut out: Vec<FolderWithSize> = Vec::new();
        let mut i: usize = 0;
        while i < self.folders.len()
            invariant
                0 <= i <= self@.len(),
                trees@.len() == self@.len(),
                forall|k: int|
                    0 <= k < trees@.len() && trees@[k] is Ok ==> entries_total(
                        (#[trigger] trees@[k])->Ok_0.entries@,
                    ) <= u64::MAX,
                forall|j: int| 0 <= j < i ==> (#[trigger] trees@[j]) is Ok,
                out@ == scan_all_spec(self@.take(i as int), ok_trees(trees@).take(i as int)),
            decreases self@.len() - i,
        {
            match &trees[i] {
                Result::Ok(d) => {
                    let mut part = scan_target(&self.folders[i], d);
                    proof {
                        assert(self@.take(i + 1).drop_last() =~= self@.take(i as int));
                        assert(ok_trees(trees@).take(i + 1).drop_last() =~= ok_trees(
                            trees@,
                        ).take(i as int));
                        assert(ok_trees(trees@).take(i + 1).last() == *d);
                    }
                    out.append(&mut part);
                },
                Result::Err(e) => {
                    return Result::Err(
                        ScanError::Filesystem {
                            fault: FsError { path: e.path.clone(), message: e.message.clone() },
                        },
                    );
                },
            }
            i = i + 1;
        }
        proof {
            assert(self@.take(self@.len() as int) =~= self@);
            assert(ok_trees(trees@).take(self@.len() as int) =~= ok_trees(trees@));
        }
        Result::Ok(out)
    }
}

} // verus!
