use file_organizer::categories::{CategoryMapper, FileCategory};
use file_organizer::scanner::{
    extension_of, DirEntry, DirectoryScanner, Listing, ScanErrorKind,
};

fn entry(name: &str, is_file: bool) -> DirEntry {
    DirEntry { name: name.to_string(), is_file }
}

fn scanner() -> DirectoryScanner {
    DirectoryScanner::new(CategoryMapper::new())
}

#[test]
fn test_scan_empty_directory() {
    let result = scanner().scan("/tmp/empty", Listing::Entries(Vec::new())).unwrap();

    assert_eq!(result.total_count, 0);
    assert!(result.files.is_empty());
}

#[test]
fn test_scan_with_files() {
    let listing = Listing::Entries(vec![
        entry("photo.jpg", true),
        entry("document.pdf", true),
        entry("music.mp3", true),
    ]);
    let result = scanner().scan("/tmp/files", listing).unwrap();

    assert_eq!(result.total_count, 3);
    assert_eq!(result.category_count(&FileCategory::Images), 1);
    assert_eq!(result.category_count(&FileCategory::Documents), 1);
    assert_eq!(result.category_count(&FileCategory::Audio), 1);
}

#[test]
fn scanner_test_skip_hidden_files() {
    let listing = Listing::Entries(vec![entry(".hidden", true), entry("visible.txt", true)]);
    let result = scanner().scan("/tmp/hidden", listing).unwrap();

    assert_eq!(result.total_count, 1);
}

#[test]
fn test_file_without_extension() {
    let listing = Listing::Entries(vec![entry("noextension", true)]);
    let result = scanner().scan("/tmp/plain", listing).unwrap();

    assert_eq!(result.total_count, 1);
    assert_eq!(result.category_count(&FileCategory::Other), 1);
}

#[test]
fn test_nonexistent_source_directory() {
    let err = scanner().scan("/nonexistent/directory/path", Listing::NotADirectory).unwrap_err();

    assert_eq!(err.kind, ScanErrorKind::NotADirectory);
    assert!(err.message.contains("not a directory"));
    assert_eq!(err.message, "/nonexistent/directory/path is not a directory");
}

#[test]
fn test_listing_failure_propagates() {
    let err = scanner()
        .scan("/tmp/denied", Listing::Failed("permission denied".to_string()))
        .unwrap_err();

    assert_eq!(err.kind, ScanErrorKind::Io);
    assert_eq!(err.message, "permission denied");
}

#[test]
fn test_directories_and_special_entries_excluded() {
    let listing = Listing::Entries(vec![
        entry("subdir", false),
        entry("file.txt", true),
        entry("another_dir.jpg", false),
    ]);
    let result = scanner().scan("/tmp/mixed", listing).unwrap();

    assert_eq!(result.total_count, 1);
    assert_eq!(result.files[0].name, "file.txt");
}

#[test]
fn integration_tests_test_skip_hidden_files() {
    let listing = Listing::Entries(vec![entry("photo.jpg", true), entry(".hidden.jpg", true)]);
    let result = scanner().scan("/tmp/hidden2", listing).unwrap();

    assert_eq!(result.total_count, 1);
    assert_eq!(result.files[0].name, "photo.jpg");
}

#[test]
fn test_scanned_file_fields() {
    let listing = Listing::Entries(vec![entry("photo.jpg", true)]);
    let result = scanner().scan("/src", listing).unwrap();

    assert_eq!(result.files[0].path, "/src/photo.jpg");
    assert_eq!(result.files[0].name, "photo.jpg");
    assert_eq!(result.files[0].extension.as_deref(), Some("jpg"));
    assert_eq!(result.files[0].category, FileCategory::Images);
}

#[test]
fn test_listing_order_preserved() {
    let listing = Listing::Entries(vec![
        entry("b.txt", true),
        entry("a.txt", true),
        entry("c.txt", true),
    ]);
    let result = scanner().scan("/tmp/order", listing).unwrap();

    assert_eq!(result.files[0].name, "b.txt");
    assert_eq!(result.files[1].name, "a.txt");
    assert_eq!(result.files[2].name, "c.txt");
}

#[test]
fn test_count_equals_sum_of_group_sizes() {
    let listing = Listing::Entries(vec![
        entry("a.jpg", true),
        entry("b.png", true),
        entry("c.pdf", true),
        entry("plain", true),
    ]);
    let result = scanner().scan("/tmp/sum", listing).unwrap();

    assert_eq!(result.total_count, result.files.len());
    let mapper = CategoryMapper::new();
    let mut sum = 0;
    for category in mapper.all_categories() {
        sum += result.category_count(&category);
    }
    assert_eq!(sum, result.total_count);
}

#[test]
fn test_extension_after_last_dot() {
    assert_eq!(extension_of("archive.tar.gz").as_deref(), Some("gz"));
    assert_eq!(extension_of("photo.jpg").as_deref(), Some("jpg"));
    assert_eq!(extension_of("trailing.").as_deref(), Some(""));
    assert_eq!(extension_of("noextension"), None);
    assert_eq!(extension_of(""), None);
}
