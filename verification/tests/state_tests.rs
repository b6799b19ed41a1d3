use folder_size_exporter::FolderScanner;
use folder_size_exporter::FolderToScan;
use folder_size_exporter::FsDir;
use folder_size_exporter::FsEntry;
use folder_size_exporter::FsError;
use folder_size_exporter::Options;
use folder_size_exporter::ScanError;
use folder_size_exporter::ScanMode;
use folder_size_exporter::State;

fn sample_tree() -> FsDir {
    FsDir {
        path: "R".to_string(),
        entries: vec![
            FsEntry::File { size: 10 },
            FsEntry::Dir {
                tree: FsDir { path: "R/S".to_string(), entries: vec![FsEntry::File { size: 20 }] },
            },
        ],
    }
}

fn background_state() -> State {
    let scanner = FolderScanner::new(vec![FolderToScan {
        path: "R".to_string(),
        mode: ScanMode::Sum,
        user: None,
    }])
    .unwrap();
    State::new(Options {
        verbose: false,
        folders_to_scan: scanner,
        background_poll_seconds: Some(1),
    })
}

#[test]
fn before_first_pass_requests_are_told_to_wait() {
    let state = background_state();
    match state.read_current() {
        Err(ScanError::NotYetAvailable) => {}
        other => panic!("expected NotYetAvailable before any pass, got {:?}", other),
    }
}

#[test]
fn first_published_pass_serves_its_data() {
    let state = background_state();
    assert!(state.refresh(&vec![Ok(sample_tree())]));
    let v = state.read_current().unwrap();
    assert_eq!(v.len(), 1);
    assert_eq!(v[0].folder.path, "R");
    assert_eq!(v[0].size, 30);
}

#[test]
fn failed_pass_keeps_previous_snapshot() {
    let state = background_state();
    assert!(state.refresh(&vec![Ok(sample_tree())]));
    let fault = FsError { path: "R".to_string(), message: "permission denied".to_string() };
    assert!(!state.refresh(&vec![Err(fault)]));
    // readers keep seeing the last good snapshot, untouched
    let v = state.read_current().unwrap();
    assert_eq!(v.len(), 1);
    assert_eq!(v[0].size, 30);
}

#[test]
fn repeated_reads_see_one_consistent_snapshot() {
    let state = background_state();
    assert!(state.refresh(&vec![Ok(sample_tree())]));
    let v1 = state.read_current().unwrap();
    let v2 = state.read_current().unwrap();
    assert_eq!(v1.len(), v2.len());
    for (m1, m2) in v1.iter().zip(v2.iter()) {
        assert_eq!(m1.folder.path, m2.folder.path);
        assert_eq!(m1.size, m2.size);
    }
}

#[test]
fn replaced_snapshot_is_seen_whole() {
    let state = background_state();
    assert!(state.refresh(&vec![Ok(sample_tree())]));
    let grown = FsDir {
        path: "R".to_string(),
        entries: vec![FsEntry::File { size: 10 }, FsEntry::File { size: 32 }],
    };
    assert!(state.refresh(&vec![Ok(grown)]));
    let v = state.read_current().unwrap();
    assert_eq!(v.len(), 1);
    assert_eq!(v[0].size, 42);
}

#[test]
fn mode_choice_follows_configuration() {
    let state = background_state();
    assert!(state.is_background());
    let scanner = FolderScanner::new(Vec::new()).unwrap();
    let sync_state = State::new(Options {
        verbose: false,
        folders_to_scan: scanner,
        background_poll_seconds: None,
    });
    assert!(!sync_state.is_background());
}

#[test]
fn synchronous_scan_propagates_filesystem_error() {
    let scanner = FolderScanner::new(vec![FolderToScan {
        path: "gone".to_string(),
        mode: ScanMode::Direct,
        user: None,
    }])
    .unwrap();
    let state = State::new(Options {
        verbose: false,
        folders_to_scan: scanner,
        background_poll_seconds: None,
    });
    let fault = FsError { path: "gone".to_string(), message: "path does not exist".to_string() };
    match state.options.folders_to_scan.scan(&vec![Err(fault)]) {
        Err(ScanError::Filesystem { fault }) => assert_eq!(fault.path, "gone"),
        other => panic!("expected a filesystem error, got {:?}", other),
    }
}
