use folder_size_exporter::FolderScanner;
use folder_size_exporter::FolderToScan;
use folder_size_exporter::FsDir;
use folder_size_exporter::FsEntry;
use folder_size_exporter::FsError;
use folder_size_exporter::ScanError;
use folder_size_exporter::ScanMode;
use folder_size_exporter::folder_scanner::scan_target;

fn file(size: u64) -> FsEntry {
    FsEntry::File { size }
}

fn dir(path: &str, entries: Vec<FsEntry>) -> FsEntry {
    FsEntry::Dir { tree: tree(path, entries) }
}

fn tree(path: &str, entries: Vec<FsEntry>) -> FsDir {
    FsDir { path: path.to_string(), entries }
}

fn target(path: &str, mode: ScanMode) -> FolderToScan {
    FolderToScan { path: path.to_string(), mode, user: None }
}

/// Root `R` holds file `a` (10 bytes) and subdirectory `S` holding file `b`
/// (20 bytes).
fn sample_tree() -> FsDir {
    tree("R", vec![file(10), dir("R/S", vec![file(20)])])
}

#[test]
fn scenario_direct_counts_only_direct_children() {
    let r = scan_target(&target("R", ScanMode::Direct), &sample_tree());
    assert_eq!(r.len(), 1);
    assert_eq!(r[0].folder.path, "R");
    assert_eq!(r[0].size, 10);
}

#[test]
fn scenario_sum_counts_whole_subtree() {
    let r = scan_target(&target("R", ScanMode::Sum), &sample_tree());
    assert_eq!(r.len(), 1);
    assert_eq!(r[0].folder.path, "R");
    assert_eq!(r[0].size, 30);
}

#[test]
fn scenario_explode_one_entry_per_directory() {
    let r = scan_target(&target("R", ScanMode::Explode), &sample_tree());
    assert_eq!(r.len(), 2);
    // children stand before their parent
    assert_eq!(r[0].folder.path, "R/S");
    assert_eq!(r[0].size, 20);
    assert_eq!(r[1].folder.path, "R");
    assert_eq!(r[1].size, 10);
    // cross-mode consistency: the exploded sizes sum to the Sum measurement
    let total: u64 = r.iter().map(|m| m.size).sum();
    assert_eq!(total, 30);
}

#[test]
fn direct_ignores_file_added_in_subdirectory() {
    let before = tree("R", vec![file(10), dir("R/S", vec![])]);
    let after = tree("R", vec![file(10), dir("R/S", vec![file(7)])]);
    let r1 = scan_target(&target("R", ScanMode::Direct), &before);
    let r2 = scan_target(&target("R", ScanMode::Direct), &after);
    assert_eq!(r1[0].size, 10);
    assert_eq!(r2[0].size, 10);
}

#[test]
fn sum_unchanged_by_moving_file_between_subdirectories() {
    let before = tree("R", vec![dir("R/S1", vec![file(5)]), dir("R/S2", vec![])]);
    let after = tree("R", vec![dir("R/S1", vec![]), dir("R/S2", vec![file(5)])]);
    let r1 = scan_target(&target("R", ScanMode::Sum), &before);
    let r2 = scan_target(&target("R", ScanMode::Sum), &after);
    assert_eq!(r1[0].size, 5);
    assert_eq!(r2[0].size, 5);
}

#[test]
fn explode_counts_empty_directories_too() {
    let t = tree(
        "R",
        vec![
            file(1),
            dir("R/A", vec![file(2), dir("R/A/B", vec![])]),
            dir("R/C", vec![file(4)]),
        ],
    );
    let r = scan_target(&target("R", ScanMode::Explode), &t);
    // four directory nodes: R, R/A, R/A/B, R/C
    assert_eq!(r.len(), 4);
    let paths: Vec<&str> = r.iter().map(|m| m.folder.path.as_str()).collect();
    assert_eq!(paths, vec!["R/A/B", "R/A", "R/C", "R"]);
    let total: u64 = r.iter().map(|m| m.size).sum();
    let s = scan_target(&target("R", ScanMode::Sum), &t);
    assert_eq!(total, s[0].size);
    assert_eq!(s[0].size, 7);
}

#[test]
fn empty_directory_measures_zero() {
    let t = tree("R", vec![]);
    assert_eq!(scan_target(&target("R", ScanMode::Direct), &t)[0].size, 0);
    assert_eq!(scan_target(&target("R", ScanMode::Sum), &t)[0].size, 0);
    let r = scan_target(&target("R", ScanMode::Explode), &t);
    assert_eq!(r.len(), 1);
    assert_eq!(r[0].size, 0);
}

#[test]
fn scanning_twice_yields_identical_measurements() {
    for mode in [ScanMode::Direct, ScanMode::Sum, ScanMode::Explode] {
        let r1 = scan_target(&target("R", mode), &sample_tree());
        let r2 = scan_target(&target("R", mode), &sample_tree());
        assert_eq!(r1.len(), r2.len());
        for (m1, m2) in r1.iter().zip(r2.iter()) {
            assert_eq!(m1.folder.path, m2.folder.path);
            assert_eq!(m1.size, m2.size);
        }
    }
}

#[test]
fn largest_file_size_is_reported_exactly() {
    let t = tree("R", vec![file(u64::MAX)]);
    let r = scan_target(&target("R", ScanMode::Sum), &t);
    assert_eq!(r[0].size, u64::MAX);
}

#[test]
fn explode_keeps_mode_and_owner_on_derived_targets() {
    let t = FolderToScan {
        path: "R".to_string(),
        mode: ScanMode::Explode,
        user: Some("team-a".to_string()),
    };
    let r = scan_target(&t, &sample_tree());
    for m in &r {
        assert_eq!(m.folder.mode, ScanMode::Explode);
        assert_eq!(m.folder.user.as_deref(), Some("team-a"));
    }
}

#[test]
fn scanner_scans_targets_in_order() {
    let scanner = FolderScanner::new(vec![
        target("R", ScanMode::Direct),
        target("R", ScanMode::Sum),
    ])
    .unwrap();
    let trees = vec![Ok(sample_tree()), Ok(sample_tree())];
    let r = scanner.scan(&trees).unwrap();
    assert_eq!(r.len(), 2);
    assert_eq!(r[0].size, 10);
    assert_eq!(r[1].size, 30);
}

#[test]
fn scanner_with_no_targets_reports_nothing() {
    let scanner = FolderScanner::new(Vec::new()).unwrap();
    let r = scanner.scan(&Vec::new()).unwrap();
    assert!(r.is_empty());
}

#[test]
fn failing_target_aborts_whole_scan() {
    let scanner = FolderScanner::new(vec![
        target("R", ScanMode::Sum),
        target("missing", ScanMode::Sum),
    ])
    .unwrap();
    let trees = vec![
        Ok(sample_tree()),
        Err(FsError { path: "missing".to_string(), message: "no such directory".to_string() }),
    ];
    match scanner.scan(&trees) {
        Err(ScanError::Filesystem { fault }) => {
            assert_eq!(fault.path, "missing");
            assert_eq!(fault.message, "no such directory");
        }
        other => panic!("expected a filesystem error, got {:?}", other),
    }
}

#[test]
fn empty_target_path_is_refused() {
    assert!(FolderScanner::new(vec![target("", ScanMode::Sum)]).is_none());
}

#[test]
fn folders_returns_configured_targets() {
    let scanner = FolderScanner::new(vec![
        target("a", ScanMode::Direct),
        target("b", ScanMode::Explode),
    ])
    .unwrap();
    let folders = scanner.folders();
    assert_eq!(folders.len(), 2);
    assert_eq!(folders[0].path, "a");
    assert_eq!(folders[0].mode, ScanMode::Direct);
    assert_eq!(folders[1].path, "b");
    assert_eq!(folders[1].mode, ScanMode::Explode);
}
