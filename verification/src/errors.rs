use vstd::prelude::*;

verus! {

/// A filesystem fault met while a directory tree was being read: the path
/// at which reading failed and the reporting text of the underlying error.
#[derive(Debug)]
pub struct FsError {
    pub path: String,
    pub message: String,
}

/// The errors the scanning core surfaces to its callers.
#[derive(Debug)]
pub enum ScanError {
    /// A directory could not be read, an entry could not be stat-ed, or an
    /// entry's type could not be inspected; the whole scan of the affected
    /// target is abandoned and no partial result is produced.
    Filesystem { fault: FsError },
    /// Background mode only: no scan pass has published a snapshot yet.
    NotYetAvailable,
}

} // verus!
