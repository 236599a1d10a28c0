use file_organizer::categories::{CategoryMapper, FileCategory};

#[test]
fn test_image_extensions() {
    let mapper = CategoryMapper::new();
    assert_eq!(mapper.categorize("jpg"), FileCategory::Images);
    assert_eq!(mapper.categorize("PNG"), FileCategory::Images);
    assert_eq!(mapper.categorize("gif"), FileCategory::Images);
}

#[test]
fn test_document_extensions() {
    let mapper = CategoryMapper::new();
    assert_eq!(mapper.categorize("pdf"), FileCategory::Documents);
    assert_eq!(mapper.categorize("DOCX"), FileCategory::Documents);
    assert_eq!(mapper.categorize("txt"), FileCategory::Documents);
}

#[test]
fn test_unknown_extension() {
    let mapper = CategoryMapper::new();
    assert_eq!(mapper.categorize("xyz123"), FileCategory::Other);
}

#[test]
fn test_folder_names() {
    assert_eq!(FileCategory::Images.folder_name(), "Images");
    assert_eq!(FileCategory::Documents.folder_name(), "Documents");
    assert_eq!(FileCategory::Other.folder_name(), "Other");
}

#[test]
fn test_one_extension_per_category() {
    let mapper = CategoryMapper::new();
    assert_eq!(mapper.categorize("jpeg"), FileCategory::Images);
    assert_eq!(mapper.categorize("md"), FileCategory::Documents);
    assert_eq!(mapper.categorize("mkv"), FileCategory::Videos);
    assert_eq!(mapper.categorize("flac"), FileCategory::Audio);
    assert_eq!(mapper.categorize("7z"), FileCategory::Archives);
    assert_eq!(mapper.categorize("rs"), FileCategory::Code);
    assert_eq!(mapper.categorize("csv"), FileCategory::Data);
    assert_eq!(mapper.categorize("apk"), FileCategory::Executables);
    assert_eq!(mapper.categorize("woff2"), FileCategory::Fonts);
    assert_eq!(mapper.categorize(""), FileCategory::Other);
}

#[test]
fn test_case_insensitive_lookup() {
    let mapper = CategoryMapper::new();
    assert_eq!(mapper.categorize("JPG"), mapper.categorize("jpg"));
    assert_eq!(mapper.categorize("JPG"), FileCategory::Images);
    assert_eq!(mapper.categorize("Mp3"), FileCategory::Audio);
    assert_eq!(mapper.categorize("TaR"), FileCategory::Archives);
}

#[test]
fn test_all_categories_listed_in_order() {
    let mapper = CategoryMapper::new();
    let all = mapper.all_categories();
    assert_eq!(all.len(), 10);
    assert_eq!(all[0], FileCategory::Images);
    assert_eq!(all[1], FileCategory::Documents);
    assert_eq!(all[2], FileCategory::Videos);
    assert_eq!(all[3], FileCategory::Audio);
    assert_eq!(all[4], FileCategory::Archives);
    assert_eq!(all[5], FileCategory::Code);
    assert_eq!(all[6], FileCategory::Data);
    assert_eq!(all[7], FileCategory::Executables);
    assert_eq!(all[8], FileCategory::Fonts);
    assert_eq!(all[9], FileCategory::Other);
}

#[test]
fn test_every_folder_name() {
    assert_eq!(FileCategory::Videos.folder_name(), "Videos");
    assert_eq!(FileCategory::Audio.folder_name(), "Audio");
    assert_eq!(FileCategory::Archives.folder_name(), "Archives");
    assert_eq!(FileCategory::Code.folder_name(), "Code");
    assert_eq!(FileCategory::Data.folder_name(), "Data");
    assert_eq!(FileCategory::Executables.folder_name(), "Executables");
    assert_eq!(FileCategory::Fonts.folder_name(), "Fonts");
}
