use latex_clean::scan::{collect_artifacts, should_report_progress, FsEntry, MAX_DEPTH};

fn entry(path: &str, name: &str, depth: usize, is_file: bool) -> FsEntry {
    FsEntry {
        path: path.to_string(),
        name: name.to_string(),
        depth,
        is_file,
    }
}

#[test]
fn match_set_keeps_discovery_order() {
    // Root with paper.tex, paper.aux, paper.log and build/paper.out.
    let entries = vec![
        entry(".", ".", 0, false),
        entry("./paper.tex", "paper.tex", 1, true),
        entry("./paper.aux", "paper.aux", 1, true),
        entry("./paper.log", "paper.log", 1, true),
        entry("./build", "build", 1, false),
        entry("./build/paper.out", "paper.out", 2, true),
    ];
    let found = collect_artifacts(&entries);
    assert_eq!(found, vec!["./paper.aux", "./paper.log", "./build/paper.out"]);
}

#[test]
fn directories_never_match() {
    let entries = vec![
        entry("./paper.aux", "paper.aux", 1, false),
        entry("./build.log", "build.log", 1, false),
    ];
    let found = collect_artifacts(&entries);
    assert!(found.is_empty());
}

#[test]
fn entries_past_the_depth_bound_are_refused() {
    let entries = vec![
        entry("./shallow.aux", "shallow.aux", MAX_DEPTH, true),
        entry("./deep/deep.aux", "deep.aux", MAX_DEPTH + 1, true),
    ];
    let found = collect_artifacts(&entries);
    assert_eq!(found, vec!["./shallow.aux"]);
}

#[test]
fn empty_walk_gives_empty_match_set() {
    let entries: Vec<FsEntry> = Vec::new();
    let found = collect_artifacts(&entries);
    assert!(found.is_empty());
}

#[test]
fn progress_updates_only_on_slow_directories() {
    assert!(should_report_progress(1001, true));
    assert!(!should_report_progress(1000, true));
    assert!(!should_report_progress(999, true));
    assert!(!should_report_progress(5000, false));
    assert!(!should_report_progress(0, false));
}
