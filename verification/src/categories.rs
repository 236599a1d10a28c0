//! The category mapper: a fixed, total mapping from a file extension to one
//! of ten categories. Lookup lowercases the extension first, so it is
//! case-insensitive; extensions outside the table map to `Other`.

use vstd::prelude::*;

use crate::text::{lower_seq, str_eq_lower};
use crate::text::lemma_lower_seq_idempotent;

verus! {

/// One of the ten fixed classification tags a file can carry.
#[derive(Debug, Clone, Copy, PartialEq, Eq, Hash, Structural)]
pub enum FileCategory {
    Images,
    Documents,
    Videos,
    Audio,
    Archives,
    Code,
    Data,
    Executables,
    Fonts,
    Other,
}

/// The position of a category in the fixed declaration order.
pub open spec fn category_index_spec(c: FileCategory) -> int {
    match c {
        FileCategory::Images => 0,
        FileCategory::Documents => 1,
        FileCategory::Videos => 2,
        FileCategory::Audio => 3,
        FileCategory::Archives => 4,
        FileCategory::Code => 5,
        FileCategory::Data => 6,
        FileCategory::Executables => 7,
        FileCategory::Fonts => 8,
        FileCategory::Other => 9,
    }
}

/// Executable counterpart of [`category_index_spec`].
pub fn category_index(c: &FileCategory) -> (r: usize)
    ensures
        r == category_index_spec(*c),
        r < 10,
{
    match c {
        FileCategory::Images => 0,
        FileCategory::Documents => 1,
        FileCategory::Videos => 2,
        FileCategory::Audio => 3,
        FileCategory::Archives => 4,
        FileCategory::Code => 5,
        FileCategory::Data => 6,
        FileCategory::Executables => 7,
        FileCategory::Fonts => 8,
        FileCategory::Other => 9,
    }
}

/// All ten categories in declaration order.
pub open spec fn all_categories_spec() -> Seq<FileCategory> {
    seq![
        FileCategory::Images,
        FileCategory::Documents,
        FileCategory::Videos,
        FileCategory::Audio,
        FileCategory::Archives,
        FileCategory::Code,
        FileCategory::Data,
        FileCategory::Executables,
        FileCategory::Fonts,
        FileCategory::Other,
    ]
}

impl FileCategory {
    /// The folder name shown for this category.
    pub open spec fn folder_name_spec(self) -> Seq<char> {
        match self {
            FileCategory::Images => "Images"@,
            FileCategory::Documents => "Documents"@,
            FileCategory::Videos => "Videos"@,
            FileCategory::Audio => "Audio"@,
            FileCategory::Archives => "Archives"@,
            FileCategory::Code => "Code"@,
            FileCategory::Data => "Data"@,
            FileCategory::Executables => "Executables"@,
            FileCategory::Fonts => "Fonts"@,
            FileCategory::Other => "Other"@,
        }
    }

    /// Stable display name of the category, used as the subfolder name.
    pub fn folder_name(&self) -> (r: &'static str)
        ensures
            r@ == self.folder_name_spec(),
    {
        match self {
            FileCategory::Images => "Images",
            FileCategory::Documents => "Documents",
            FileCategory::Videos => "Videos",
            FileCategory::Audio => "Audio",
            FileCategory::Archives => "Archives",
            FileCategory::Code => "Code",
            FileCategory::Data => "Data",
            FileCategory::Executables => "Executables",
            FileCategory::Fonts => "Fonts",
            FileCategory::Other => "Other",
        }
    }
}


/// Extensions that the table maps to `FileCategory::Images`.
pub open spec fn is_images_extension(e: Seq<char>) -> bool {
    e == "jpg"@ || e == "jpeg"@ || e == "png"@ || e == "gif"@ ||
    e == "bmp"@ || e == "svg"@ || e == "webp"@ || e == "ico"@ ||
    e == "tiff"@ || e == "tif"@ || e == "raw"@ || e == "heic"@ ||
    e == "heif"@ || e == "psd"@ || e == "ai"@ || e == "eps"@
}

fn matches_images(e: &str) -> (r: bool)
    ensures
        r == is_images_extension(lower_seq(e@)),
{
    str_eq_lower(e, "jpg") || str_eq_lower(e, "jpeg") || str_eq_lower(e, "png") ||
    str_eq_lower(e, "gif") || str_eq_lower(e, "bmp") || str_eq_lower(e, "svg") ||
    str_eq_lower(e, "webp") || str_eq_lower(e, "ico") || str_eq_lower(e, "tiff") ||
    str_eq_lower(e, "tif") || str_eq_lower(e, "raw") || str_eq_lower(e, "heic") ||
    str_eq_lower(e, "heif") || str_eq_lower(e, "psd") || str_eq_lower(e, "ai") ||
    str_eq_lower(e, "eps")
}

/// Extensions that the table maps to `FileCategory::Documents`.
pub open spec fn is_documents_extension(e: Seq<char>) -> bool {
    e == "pdf"@ || e == "doc"@ || e == "docx"@ || e == "txt"@ ||
    e == "rtf"@ || e == "odt"@ || e == "xls"@ || e == "xlsx"@ ||
    e == "ods"@ || e == "ppt"@ || e == "pptx"@ || e == "odp"@ ||
    e == "md"@ || e == "tex"@ || e == "pages"@ || e == "numbers"@ ||
    e == "keynote"@ || e == "epub"@ || e == "mobi"@
}

fn matches_documents(e: &str) -> (r: bool)
    ensures
        r == is_documents_extension(lower_seq(e@)),
{
    str_eq_lower(e, "pdf") || str_eq_lower(e, "doc") || str_eq_lower(e, "docx") ||
    str_eq_lower(e, "txt") || str_eq_lower(e, "rtf") || str_eq_lower(e, "odt") ||
    str_eq_lower(e, "xls") || str_eq_lower(e, "xlsx") || str_eq_lower(e, "ods") ||
    str_eq_lower(e, "ppt") || str_eq_lower(e, "pptx") || str_eq_lower(e, "odp") ||
    str_eq_lower(e, "md") || str_eq_lower(e, "tex") || str_eq_lower(e, "pages") ||
    str_eq_lower(e, "numbers") || str_eq_lower(e, "keynote") || str_eq_lower(e, "epub") ||
    str_eq_lower(e, "mobi")
}

/// Extensions that the table maps to `FileCategory::Videos`.
pub open spec fn is_videos_extension(e: Seq<char>) -> bool {
    e == "mp4"@ || e == "avi"@ || e == "mkv"@ || e == "mov"@ ||
    e == "wmv"@ || e == "flv"@ || e == "webm"@ || e == "m4v"@ ||
    e == "mpeg"@ || e == "mpg"@ || e == "3gp"@ || e == "ogv"@
}

fn matches_videos(e: &str) -> (r: bool)
    ensures
        r == is_videos_extension(lower_seq(e@)),
{
    str_eq_lower(e, "mp4") || str_eq_lower(e, "avi") || str_eq_lower(e, "mkv") ||
    str_eq_lower(e, "mov") || str_eq_lower(e, "wmv") || str_eq_lower(e, "flv") ||
    str_eq_lower(e, "webm") || str_eq_lower(e, "m4v") || str_eq_lower(e, "mpeg") ||
    str_eq_lower(e, "mpg") || str_eq_lower(e, "3gp") || str_eq_lower(e, "ogv")
}

/// Extensions that the table maps to `FileCategory::Audio`.
pub open spec fn is_audio_extension(e: Seq<char>) -> bool {
    e == "mp3"@ || e == "wav"@ || e == "flac"@ || e == "aac"@ ||
    e == "ogg"@ || e == "wma"@ || e == "m4a"@ || e == "aiff"@ ||
    e == "alac"@ || e == "opus"@ || e == "mid"@ || e == "midi"@
}

fn matches_audio(e: &str) -> (r: bool)
    ensures
        r == is_audio_extension(lower_seq(e@)),
{
    str_eq_lower(e, "mp3") || str_eq_lower(e, "wav") || str_eq_lower(e, "flac") ||
    str_eq_lower(e, "aac") || str_eq_lower(e, "ogg") || str_eq_lower(e, "wma") ||
    str_eq_lower(e, "m4a") || str_eq_lower(e, "aiff") || str_eq_lower(e, "alac") ||
    str_eq_lower(e, "opus") || str_eq_lower(e, "mid") || str_eq_lower(e, "midi")
}

/// Extensions that the table maps to `FileCategory::Archives`.
pub open spec fn is_archives_extension(e: Seq<char>) -> bool {
    e == "zip"@ || e == "rar"@ || e == "7z"@ || e == "tar"@ ||
    e == "gz"@ || e == "bz2"@ || e == "xz"@ || e == "tgz"@ ||
    e == "tbz2"@ || e == "cab"@ || e == "iso"@ || e == "dmg"@
}

fn matches_archives(e: &str) -> (r: bool)
    ensures
        r == is_archives_extension(lower_seq(e@)),
{
    str_eq_lower(e, "zip") || str_eq_lower(e, "rar") || str_eq_lower(e, "7z") ||
    str_eq_lower(e, "tar") || str_eq_lower(e, "gz") || str_eq_lower(e, "bz2") ||
    str_eq_lower(e, "xz") || str_eq_lower(e, "tgz") || str_eq_lower(e, "tbz2") ||
    str_eq_lower(e, "cab") || str_eq_lower(e, "iso") || str_eq_lower(e, "dmg")
}

/// Extensions that the table maps to `FileCategory::Code`.
pub open spec fn is_code_extension(e: Seq<char>) -> bool {
    e == "rs"@ || e == "py"@ || e == "js"@ || e == "ts"@ ||
    e == "jsx"@ || e == "tsx"@ || e == "java"@ || e == "c"@ ||
    e == "cpp"@ || e == "h"@ || e == "hpp"@ || e == "cs"@ ||
    e == "go"@ || e == "rb"@ || e == "php"@ || e == "swift"@ ||
    e == "kt"@ || e == "scala"@ || e == "r"@ || e == "pl"@ ||
    e == "sh"@ || e == "bash"@ || e == "zsh"@ || e == "fish"@ ||
    e == "ps1"@ || e == "bat"@ || e == "cmd"@ || e == "html"@ ||
    e == "htm"@ || e == "css"@ || e == "scss"@ || e == "sass"@ ||
    e == "less"@ || e == "vue"@ || e == "svelte"@ || e == "sql"@ ||
    e == "graphql"@ || e == "yaml"@ || e == "yml"@ || e == "toml"@ ||
    e == "ini"@ || e == "cfg"@ || e == "conf"@
}

fn matches_code(e: &str) -> (r: bool)
    ensures
        r == is_code_extension(lower_seq(e@)),
{
    str_eq_lower(e, "rs") || str_eq_lower(e, "py") || str_eq_lower(e, "js") ||
    str_eq_lower(e, "ts") || str_eq_lower(e, "jsx") || str_eq_lower(e, "tsx") ||
    str_eq_lower(e, "java") || str_eq_lower(e, "c") || str_eq_lower(e, "cpp") ||
    str_eq_lower(e, "h") || str_eq_lower(e, "hpp") || str_eq_lower(e, "cs") ||
    str_eq_lower(e, "go") || str_eq_lower(e, "rb") || str_eq_lower(e, "php") ||
    str_eq_lower(e, "swift") || str_eq_lower(e, "kt") || str_eq_lower(e, "scala") ||
    str_eq_lower(e, "r") || str_eq_lower(e, "pl") || str_eq_lower(e, "sh") ||
    str_eq_lower(e, "bash") || str_eq_lower(e, "zsh") || str_eq_lower(e, "fish") ||
    str_eq_lower(e, "ps1") || str_eq_lower(e, "bat") || str_eq_lower(e, "cmd") ||
    str_eq_lower(e, "html") || str_eq_lower(e, "htm") || str_eq_lower(e, "css") ||
    str_eq_lower(e, "scss") || str_eq_lower(e, "sass") || str_eq_lower(e, "less") ||
    str_eq_lower(e, "vue") || str_eq_lower(e, "svelte") || str_eq_lower(e, "sql") ||
    str_eq_lower(e, "graphql") || str_eq_lower(e, "yaml") || str_eq_lower(e, "yml") ||
    str_eq_lower(e, "toml") || str_eq_lower(e, "ini") || str_eq_lower(e, "cfg") ||
    str_eq_lower(e, "conf")
}

/// Extensions that the table maps to `FileCategory::Data`.
pub open spec fn is_data_extension(e: Seq<char>) -> bool {
    e == "json"@ || e == "xml"@ || e == "csv"@ || e == "tsv"@ ||
    e == "parquet"@ || e == "avro"@ || e == "db"@ || e == "sqlite"@ ||
    e == "sqlite3"@ || e == "mdb"@ || e == "accdb"@ || e == "ndjson"@ ||
    e == "jsonl"@
}

fn matches_data(e: &str) -> (r: bool)
    ensures
        r == is_data_extension(lower_seq(e@)),
{
    str_eq_lower(e, "json") || str_eq_lower(e, "xml") || str_eq_lower(e, "csv") ||
    str_eq_lower(e, "tsv") || str_eq_lower(e, "parquet") || str_eq_lower(e, "avro") ||
    str_eq_lower(e, "db") || str_eq_lower(e, "sqlite") || str_eq_lower(e, "sqlite3") ||
    str_eq_lower(e, "mdb") || str_eq_lower(e, "accdb") || str_eq_lower(e, "ndjson") ||
    str_eq_lower(e, "jsonl")
}

/// Extensions that the table maps to `FileCategory::Executables`.
pub open spec fn is_executables_extension(e: Seq<char>) -> bool {
    e == "exe"@ || e == "msi"@ || e == "app"@ || e == "deb"@ ||
    e == "rpm"@ || e == "apk"@ || e == "jar"@ || e == "dll"@ ||
    e == "so"@ || e == "dylib"@ || e == "bin"@ || e == "run"@
}

fn matches_executables(e: &str) -> (r: bool)
    ensures
        r == is_executables_extension(lower_seq(e@)),
{
    str_eq_lower(e, "exe") || str_eq_lower(e, "msi") || str_eq_lower(e, "app") ||
    str_eq_lower(e, "deb") || str_eq_lower(e, "rpm") || str_eq_lower(e, "apk") ||
    str_eq_lower(e, "jar") || str_eq_lower(e, "dll") || str_eq_lower(e, "so") ||
    str_eq_lower(e, "dylib") || str_eq_lower(e, "bin") || str_eq_lower(e, "run")
}

/// Extensions that the table maps to `FileCategory::Fonts`.
pub open spec fn is_fonts_extension(e: Seq<char>) -> bool {
    e == "ttf"@ || e == "otf"@ || e == "woff"@ || e == "woff2"@ ||
    e == "eot"@ || e == "fon"@ || e == "fnt"@
}

fn matches_fonts(e: &str) -> (r: bool)
    ensures
        r == is_fonts_extension(lower_seq(e@)),
{
    str_eq_lower(e, "ttf") || str_eq_lower(e, "otf") || str_eq_lower(e, "woff") ||
    str_eq_lower(e, "woff2") || str_eq_lower(e, "eot") || str_eq_lower(e, "fon") ||
    str_eq_lower(e, "fnt")
}

/// Category of an already-lowercased extension, by the table alone.
pub open spec fn table_lookup(e: Seq<char>) -> FileCategory {
    if is_images_extension(e) {
        FileCategory::Images
    } else if is_documents_extension(e) {
        FileCategory::Documents
    } else if is_videos_extension(e) {
        FileCategory::Videos
    } else if is_audio_extension(e) {
        FileCategory::Audio
    } else if is_archives_extension(e) {
        FileCategory::Archives
    } else if is_code_extension(e) {
        FileCategory::Code
    } else if is_data_extension(e) {
        FileCategory::Data
    } else if is_executables_extension(e) {
        FileCategory::Executables
    } else if is_fonts_extension(e) {
        FileCategory::Fonts
    } else {
        FileCategory::Other
    }
}

/// What `CategoryMapper::categorize` returns: the extension is lowercased,
/// then looked up in the table.
pub open spec fn categorize_spec(e: Seq<char>) -> FileCategory {
    table_lookup(lower_seq(e))
}

/// The extension table. The mapping itself is a fixed total function, so the
/// mapper carries no state; it exists so that callers construct it once and
/// pass it around, mirroring how the table is meant to be shared.
pub struct CategoryMapper {}

impl CategoryMapper {
    /// Builds the mapper.
    pub fn new() -> (r: Self) {
        CategoryMapper {  }
    }

    /// Maps an extension to its category, case-insensitively; extensions not
    /// in the table yield `Other`.
    pub fn categorize(&self, extension: &str) -> (r: FileCategory)
        ensures
            r == categorize_spec(extension@),
    {
        if matches_images(extension) {
            FileCategory::Images
        } else if matches_documents(extension) {
            FileCategory::Documents
        } else if matches_videos(extension) {
            FileCategory::Videos
        } else if matches_audio(extension) {
            FileCategory::Audio
        } else if matches_archives(extension) {
            FileCategory::Archives
        } else if matches_code(extension) {
            FileCategory::Code
        } else if matches_data(extension) {
            FileCategory::Data
        } else if matches_executables(extension) {
            FileCategory::Executables
        } else if matches_fonts(extension) {
            FileCategory::Fonts
        } else {
            FileCategory::Other
        }
    }

    /// All ten category tags in declaration order.
    pub fn all_categories(&self) -> (r: Vec<FileCategory>)
        ensures
            r@ == all_categories_spec(),
            r@.len() == 10,
            forall|i: int| 0 <= i < 10 ==> category_index_spec(r@[i]) == i,
    {
        let v = vec![
            FileCategory::Images,
            FileCategory::Documents,
            FileCategory::Videos,
            FileCategory::Audio,
            FileCategory::Archives,
            FileCategory::Code,
            FileCategory::Data,
            FileCategory::Executables,
            FileCategory::Fonts,
            FileCategory::Other,
        ];
        proof {
            assert(v@ =~= all_categories_spec());
        }
        v
    }
}

impl Default for CategoryMapper {
    /// Same mapper as `CategoryMapper::new`.
    fn default() -> (r: Self) {
        CategoryMapper {  }
    }
}

/// Lookup is case-insensitive: an extension and its ASCII lowercase always
/// map to the same category.
pub proof fn lemma_categorize_case_insensitive(e: Seq<char>)
    ensures
        categorize_spec(e) == categorize_spec(lower_seq(e)),
{
    lemma_lower_seq_idempotent(e);
}

} // verus!
