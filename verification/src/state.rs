use vstd::prelude::*;
use vstd::rwlock::RwLock;
use vstd::rwlock::RwLockPredicate;

use crate::errors::FsError;
use crate::errors::ScanError;
use crate::folder_scanner::FolderScanner;
use crate::folder_scanner::FolderToScan;
use crate::folder_scanner::FolderWithSize;
use crate::folder_scanner::clone_measurements;
use crate::folder_scanner::ok_trees;
use crate::folder_scanner::scan_all_spec;
use crate::fs_tree::FsDir;
use crate::fs_tree::entries_total;

verus! {

/// Run-time configuration of the exporter core: the target list, fixed for
/// the process lifetime, and — when background polling is chosen — the pause
/// between two scan passes, in seconds.
pub struct Options {
    pub verbose: bool,
    pub folders_to_scan: FolderScanner,
    pub background_poll_seconds: Option<u64>,
}

impl Options {
    /// A configured polling interval is at least one second.
    pub open spec fn wf(&self) -> bool {
        match self.background_poll_seconds {
            Option::Some(secs) => secs >= 1,
            Option::None => true,
        }
    }
}

/// One complete measurement set as held by the store, together with ghost
/// evidence of the single scan pass — target list and tree images — that
/// produced it; the initial, never-published set is empty.
pub struct Snapshot {
    pub measurements: Vec<FolderWithSize>,
    pub origin: Ghost<Option<(Seq<FolderToScan>, Seq<FsDir>)>>,
}

/// The measurement list is, in full, what scanning `targets` reports over a
/// single consistent set of tree images — never a mixture of entries from
/// two different scan passes.
pub open spec fn scan_of_targets(targets: Seq<FolderToScan>, ms: Seq<FolderWithSize>) -> bool {
    exists|trees: Seq<FsDir>| ms == scan_all_spec(targets, trees)
}

/// The invariant of the snapshot lock, fixed when the store is built around
/// a target list: a stored value is either the initial empty set or the
/// unbroken output of one scan pass over exactly that target list.
pub struct SnapshotInv {
    pub targets: Seq<FolderToScan>,
}

impl RwLockPredicate<Snapshot> for SnapshotInv {
    open spec fn inv(self, s: Snapshot) -> bool {
        match s.origin@ {
            Option::None => s.measurements@.len() == 0,
            Option::Some((targets, trees)) => targets == self.targets && s.measurements@
                == scan_all_spec(targets, trees),
        }
    }
}

/// Shared state of the exporter: the configuration, and the snapshot store —
/// the one shared mutable value, written wholesale by the refresher and read
/// by any number of concurrent request handlers.
pub struct State {
    pub options: Options,
    pub store: RwLock<Snapshot, SnapshotInv>,
}

impl State {
    /// The store's invariant speaks of exactly the configured targets.
    pub open spec fn wf(&self) -> bool {
        self.store.pred() == (SnapshotInv { targets: self.options.folders_to_scan@ })
    }

    /// A fresh state around `options`, its snapshot store still empty.
    pub fn new(options: Options) -> (s: State)
        requires
            options.wf(),
        ensures
            s.options == options,
            s.wf(),
    {
        let empty = Snapshot { measurements: Vec::new(), origin: Ghost(Option::None) };
        let inv = Ghost(SnapshotInv { targets: options.folders_to_scan@ });
        State { options, store: RwLock::new(empty, inv) }
    }

    /// Whether background polling was configured: the refresher then owns
    /// all scanning, and request handlers only read the store.
    pub fn is_background(&self) -> (r: bool)
        ensures
            r == (self.options.background_poll_seconds is Some),
    {
        self.options.background_poll_seconds.is_some()
    }

    /// The measurements of the latest published snapshot, copied out whole
    /// under the read side of the lock, so that a concurrent replacement is
    /// seen either entirely or not at all: what comes back is what one scan
    /// pass over the configured targets reported, never a mixture of two
    /// passes. Before any pass has published, the store is empty and
    /// `NotYetAvailable` tells the caller to wait and ask again rather than
    /// serve a vacuous result.
    pub fn read_current(&self) -> (r: Result<Vec<FolderWithSize>, ScanError>)
        requires
            self.wf(),
        ensures
            match r {
                Result::Ok(v) => v@.len() > 0 && scan_of_targets(
                    self.options.folders_to_scan@,
                    v@,
                ),
                Result::Err(e) => e is NotYetAvailable,
            },
    {
        let handle = self.store.acquire_read();
        let snapshot = handle.borrow();
        let r = if snapshot.measurements.len() == 0 {
            Result::Err(ScanError::NotYetAvailable)
        } else {
            proof {
                let (targets, trees) = snapshot.origin@->0;
                assert(snapshot.measurements@ == scan_all_spec(
                    self.options.folders_to_scan@,
                    trees,
                ));
            }
            Result::Ok(clone_measurements(&snapshot.measurements))
        };
        handle.release_read();
        r
    }

    /// One refresh cycle over this pass's read outcomes: scans every target,
    /// and publishes the measurements as the store's new snapshot only when
    /// the whole pass succeeded. A failed pass replaces nothing — readers
    /// keep seeing the previously published snapshot — and reports `false`.
    pub fn refresh(&self, trees: &Vec<Result<FsDir, FsError>>) -> (ok: bool)
        requires
            self.wf(),
            trees@.len() == self.options.folders_to_scan@.len(),
            forall|i: int|
                0 <= i < trees@.len() && trees@[i] is Ok ==> entries_total(
                    (#[trigger] trees@[i])->Ok_0.entries@,
                ) <= u64::MAX,
        ensures
            ok <==> (forall|i: int| 0 <= i < trees@.len() ==> (#[trigger] trees@[i]) is Ok),
    {
        match self.options.folders_to_scan.scan(trees) {
            Result::Ok(measurements) => {
                let snapshot = Snapshot {
                    measurements,
                    origin: Ghost(
                        Option::Some((self.options.folders_to_scan@, ok_trees(trees@))),
                    ),
                };
                let (_prev, write_handle) = self.store.acquire_write();
                write_handle.release_write(snapshot);
                true
            },
            Result::Err(_) => false,
        }
    }
}

} // verus!
