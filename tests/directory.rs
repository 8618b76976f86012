use boltdown::{ensure_directory, sort_entries, AppError, DirectoryLister, FileEntry};

fn entry(name: &str, is_dir: bool) -> FileEntry {
    FileEntry::from_metadata(
        name.to_string(),
        format!("/d/{}", name),
        is_dir,
        10,
        Some(1_700_000_000),
    )
}

fn names(entries: &[FileEntry]) -> Vec<&str> {
    entries.iter().map(|e| e.name.as_str()).collect()
}

#[test]
fn listing_orders_directories_first_then_name() {
    let sorted = sort_entries(vec![
        entry("b.txt", false),
        entry("A", true),
        entry("a.txt", false),
        entry("B", true),
    ]);
    assert_eq!(names(&sorted), vec!["A", "B", "a.txt", "b.txt"]);
}

#[test]
fn listing_order_ignores_case() {
    let sorted = sort_entries(vec![
        entry("Zeta.md", false),
        entry("alpha.md", false),
        entry("Beta.md", false),
    ]);
    assert_eq!(names(&sorted), vec!["alpha.md", "Beta.md", "Zeta.md"]);
}

#[test]
fn listing_order_keeps_ties_in_place() {
    let sorted = sort_entries(vec![entry("README", false), entry("readme", false)]);
    assert_eq!(names(&sorted), vec!["README", "readme"]);
}

#[test]
fn empty_listing_stays_empty() {
    assert!(sort_entries(Vec::new()).is_empty());
    assert!(DirectoryLister::new().finish(Vec::new()).is_empty());
}

#[test]
fn hidden_and_skipped_names_are_not_listed() {
    let lister = DirectoryLister::new();
    for name in [".git", ".env", "node_modules", "target", "dist", "build", "__pycache__"] {
        assert!(!lister.is_listed(name), "{}", name);
    }
    for name in ["src", "notes.md", "targets", "Build"] {
        assert!(lister.is_listed(name), "{}", name);
    }
}

#[test]
fn finish_filters_and_orders() {
    let lister = DirectoryLister::new();
    let listing = lister.finish(vec![
        entry("notes.md", false),
        entry(".hidden", false),
        entry("node_modules", true),
        entry("src", true),
        entry("build", true),
        entry("Assets", true),
    ]);
    assert_eq!(names(&listing), vec!["Assets", "src", "notes.md"]);
}

#[test]
fn custom_skip_set_replaces_default() {
    let lister = DirectoryLister::with_skip_set(vec!["drafts".to_string()]);
    assert!(!lister.is_listed("drafts"));
    assert!(lister.is_listed("node_modules"));
    assert!(!lister.is_listed(".git"));
}

#[test]
fn directory_entry_has_no_size() {
    let e = FileEntry::from_metadata("src".to_string(), "/p/src".to_string(), true, 4096, None);
    assert_eq!(e.size, 0);
    assert_eq!(e.modified, 0);
    assert!(e.is_dir);
    let f = FileEntry::from_metadata("a".to_string(), "/p/a".to_string(), false, 42, Some(7));
    assert_eq!(f.size, 42);
    assert_eq!(f.modified, 7);
    assert_eq!(f.path, "/p/a");
}

#[test]
fn non_directory_is_refused() {
    assert!(ensure_directory("/p".to_string(), true).is_ok());
    match ensure_directory("/p/a.txt".to_string(), false) {
        Err(AppError::NotADirectory(p)) => assert_eq!(p, "/p/a.txt"),
        _ => panic!("expected NotADirectory"),
    }
}
