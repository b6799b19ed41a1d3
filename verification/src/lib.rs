//! Folder-size measurement library.
//!
//! The core of a disk-usage metrics exporter: a scan engine that aggregates
//! the sizes of files in an in-memory image of a directory tree under three
//! traversal modes, and a snapshot store that lets a background refresher
//! publish complete measurement sets to concurrent readers.

pub mod errors;
pub mod folder_scanner;
pub mod fs_tree;
pub mod laws;
pub mod state;

pub use errors::FsError;
pub use errors::ScanError;
pub use folder_scanner::FolderScanner;
pub use folder_scanner::FolderToScan;
pub use folder_scanner::FolderWithSize;
pub use folder_scanner::ScanMode;
pub use fs_tree::FsDir;
pub use fs_tree::FsEntry;
pub use state::Options;
pub use state::State;
