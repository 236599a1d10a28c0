//! The directory scanner: turns the raw listing of a directory's immediate
//! entries into a categorized scan result. Only regular files are kept,
//! hidden entries (name starting with `.`) are dropped, and each kept file
//! is annotated with its extension and category.
//!
//! Listing the directory itself is filesystem work and happens outside this
//! crate; the caller hands the outcome in as a [`Listing`] value.

use vstd::prelude::*;

use crate::categories::{
    category_index, category_index_spec, categorize_spec, CategoryMapper, FileCategory,
};
use crate::text::{join_path, path_join};

verus! {

/// One immediate entry of a directory, as the listing reported it:
/// its base name and whether it is a regular file.
pub struct DirEntry {
    pub name: String,
    pub is_file: bool,
}

/// The outcome of listing a directory: the path was not a directory, the
/// listing call itself failed (with the underlying error text), or it
/// yielded entries in listing order.
pub enum Listing {
    NotADirectory,
    Failed(String),
    Entries(Vec<DirEntry>),
}

/// Why a scan failed.
#[derive(Debug, Clone, Copy, PartialEq, Eq, Structural)]
pub enum ScanErrorKind {
    NotADirectory,
    Io,
}

/// A failed scan: the kind of failure and a descriptive message.
#[derive(Debug)]
pub struct ScanError {
    pub kind: ScanErrorKind,
    pub message: String,
}

/// A scanned file: where it is, its base name, its extension (if any), and
/// the category the extension maps to.
#[derive(Debug, Clone)]
pub struct FileInfo {
    pub path: String,
    pub name: String,
    pub extension: Option<String>,
    pub category: FileCategory,
}

/// The mathematical value of a [`FileInfo`].
pub struct FileInfoV {
    pub path: Seq<char>,
    pub name: Seq<char>,
    pub extension: Option<Seq<char>>,
    pub category: FileCategory,
}

impl View for FileInfo {
    type V = FileInfoV;

    open spec fn view(&self) -> FileInfoV {
        FileInfoV {
            path: self.path@,
            name: self.name@,
            extension: match self.extension {
                Some(e) => Some(e@),
                None => None,
            },
            category: self.category,
        }
    }
}

impl FileInfo {
    /// A copy whose value equals this one.
    pub fn duplicate(&self) -> (r: FileInfo)
        ensures
            r == *self,
    {
        FileInfo {
            path: self.path.clone(),
            name: self.name.clone(),
            extension: match &self.extension {
                Some(e) => Some(e.clone()),
                None => None,
            },
            category: self.category,
        }
    }
}

/// A name is hidden when it starts with the hidden-file marker `.`.
pub open spec fn is_hidden(name: Seq<char>) -> bool {
    name.len() > 0 && name[0] == '.'
}

/// The extension of a base name: what follows the last `.`, absent when the
/// name has no `.` at all.
pub open spec fn extension_of_spec(name: Seq<char>) -> Option<Seq<char>>
    decreases name.len(),
{
    if name.len() == 0 {
        None
    } else if name.last() == '.' {
        Some(Seq::empty())
    } else {
        match extension_of_spec(name.drop_last()) {
            None => None,
            Some(e) => Some(e.push(name.last())),
        }
    }
}

proof fn lemma_extension_of_no_dot(s: Seq<char>)
    requires
        forall|k: int| 0 <= k < s.len() ==> s[k] != '.',
    ensures
        extension_of_spec(s) is None,
    decreases s.len(),
{
    if s.len() > 0 {
        lemma_extension_of_no_dot(s.drop_last());
    }
}

proof fn lemma_extension_of_last_dot(s: Seq<char>, j: int)
    requires
        0 <= j < s.len(),
        s[j] == '.',
        forall|k: int| j < k < s.len() ==> s[k] != '.',
    ensures
        extension_of_spec(s) == Some(s.subrange(j + 1, s.len() as int)),
    decreases s.len(),
{
    if j == s.len() - 1 {
        assert(s.subrange(j + 1, s.len() as int) =~= Seq::<char>::empty());
    } else {
        assert(s.drop_last() =~= s.subrange(0, s.len() - 1));
        lemma_extension_of_last_dot(s.drop_last(), j);
        assert(s.drop_last().subrange(j + 1, s.len() - 1).push(s.last()) =~= s.subrange(
            j + 1,
            s.len() as int,
        ));
    }
}

/// Extracts the extension of a base name: the substring after the last `.`,
/// or `None` when the name has no `.`.
pub fn extension_of(name: &str) -> (r: Option<String>)
    ensures
        match r {
            Some(e) => extension_of_spec(name@) == Some(e@),
            None => extension_of_spec(name@) is None,
        },
{
    let len = name.unicode_len();
    let mut i: usize = len;
    while i > 0
        invariant
            i <= len,
            len == name@.len(),
            forall|k: int| i <= k < len ==> name@[k] != '.',
        decreases i,
    {
        if name.get_char(i - 1) == '.' {
            let ext = name.substring_char(i, len).to_owned();
            proof {
                lemma_extension_of_last_dot(name@, i - 1);
            }
            return Some(ext);
        }
        i -= 1;
    }
    proof {
        lemma_extension_of_no_dot(name@);
    }
    None
}

/// The scan keeps an entry when it is a regular file and not hidden.
pub open spec fn entry_included(e: DirEntry) -> bool {
    e.is_file && !is_hidden(e.name@)
}

/// The file record the scan builds for a kept entry: its path is the
/// directory joined with the name, its category comes from the extension,
/// and a file without extension is `Other` by policy, never looked up.
pub open spec fn file_record(dir: Seq<char>, name: Seq<char>) -> FileInfoV {
    FileInfoV {
        path: path_join(dir, name),
        name: name,
        extension: extension_of_spec(name),
        category: match extension_of_spec(name) {
            Some(e) => categorize_spec(e),
            None => FileCategory::Other,
        },
    }
}

/// A file without an extension is always `Other`, whatever the table holds:
/// its name is never looked up.
pub proof fn lemma_no_extension_is_other(dir: Seq<char>, name: Seq<char>)
    requires
        extension_of_spec(name) is None,
    ensures
        file_record(dir, name).category == FileCategory::Other,
{
}

/// The files a scan of `entries` under `dir` yields, in listing order.
pub open spec fn scanned_files(dir: Seq<char>, entries: Seq<DirEntry>) -> Seq<FileInfoV>
    decreases entries.len(),
{
    if entries.len() == 0 {
        Seq::empty()
    } else {
        let prefix = scanned_files(dir, entries.drop_last());
        if entry_included(entries.last()) {
            prefix.push(file_record(dir, entries.last().name@))
        } else {
            prefix
        }
    }
}

/// The values of a sequence of file records.
pub open spec fn files_view(files: Seq<FileInfo>) -> Seq<FileInfoV> {
    files.map_values(|f: FileInfo| f@)
}

/// The members of `files` whose category sits at position `i` of the
/// declaration order, in their original order.
pub open spec fn group_of(files: Seq<FileInfo>, i: int) -> Seq<FileInfo>
    decreases files.len(),
{
    if files.len() == 0 {
        Seq::empty()
    } else {
        let prefix = group_of(files.drop_last(), i);
        if category_index_spec(files.last().category) == i {
            prefix.push(files.last())
        } else {
            prefix
        }
    }
}

/// The sum of all ten group sizes.
pub open spec fn group_sizes_sum(files: Seq<FileInfo>) -> nat {
    group_of(files, 0).len() + group_of(files, 1).len() + group_of(files, 2).len() + group_of(
        files,
        3,
    ).len() + group_of(files, 4).len() + group_of(files, 5).len() + group_of(files, 6).len()
        + group_of(files, 7).len() + group_of(files, 8).len() + group_of(files, 9).len()
}

/// Every file sits in exactly one group, so the group sizes add up to the
/// number of files.
pub proof fn lemma_groups_partition(files: Seq<FileInfo>)
    ensures
        group_sizes_sum(files) == files.len(),
    decreases files.len(),
{
    if files.len() > 0 {
        lemma_groups_partition(files.drop_last());
    }
}

/// No hidden name survives a scan.
pub proof fn lemma_scan_excludes_hidden(dir: Seq<char>, entries: Seq<DirEntry>)
    ensures
        forall|i: int|
            0 <= i < scanned_files(dir, entries).len() ==> !is_hidden(
                #[trigger] scanned_files(dir, entries)[i].name,
            ),
    decreases entries.len(),
{
    if entries.len() > 0 {
        lemma_scan_excludes_hidden(dir, entries.drop_last());
    }
}

/// The outcome of a scan: the files in listing order, the same files grouped
/// by category (one group per category, in declaration order), and the total
/// count.
#[derive(Debug)]
pub struct ScanResult {
    pub files: Vec<FileInfo>,
    pub categorized: Vec<Vec<FileInfo>>,
    pub total_count: usize,
}

impl ScanResult {
    /// Well-formedness: the count equals the number of files, there are ten
    /// groups, and group `i` holds exactly the files of category `i`, in
    /// scan order.
    pub open spec fn wf(self) -> bool {
        &&& self.total_count == self.files@.len()
        &&& self.categorized@.len() == 10
        &&& forall|i: int| 0 <= i < 10 ==> self.categorized@[i]@ == group_of(self.files@, i)
    }

    /// How many scanned files carry the given category; 0 when the category
    /// has no group.
    pub fn category_count(&self, category: &FileCategory) -> (r: usize)
        ensures
            self.wf() ==> r == group_of(self.files@, category_index_spec(*category)).len(),
    {
        let idx = category_index(category);
        if idx < self.categorized.len() {
            self.categorized[idx].len()
        } else {
            0
        }
    }

    /// The sum of the group sizes equals the total count.
    pub proof fn lemma_counts_agree(self)
        requires
            self.wf(),
        ensures
            group_sizes_sum(self.files@) == self.total_count,
    {
        lemma_groups_partition(self.files@);
    }
}

/// The scanner: lists are handed in, files come out categorized via the
/// mapper's table.
pub struct DirectoryScanner {
    pub mapper: CategoryMapper,
}

impl DirectoryScanner {
    /// A scanner that categorizes with the given mapper.
    pub fn new(mapper: CategoryMapper) -> (r: Self) {
        DirectoryScanner { mapper }
    }

    /// Builds the scan result for the listing of `source_dir`.
    ///
    /// A listing that was refused propagates as a scan failure: a path that
    /// is no directory yields a `NotADirectory` error naming it, a failed
    /// listing call yields an `Io` error with the underlying text. No
    /// partial result is built in either case.
    pub fn scan(&self, source_dir: &str, listing: Listing) -> (r: Result<ScanResult, ScanError>)
        ensures
            match listing {
                Listing::NotADirectory => {
                    &&& r is Err
                    &&& r->Err_0.kind == ScanErrorKind::NotADirectory
                    &&& r->Err_0.message@ == source_dir@ + " is not a directory"@
                },
                Listing::Failed(text) => {
                    &&& r is Err
                    &&& r->Err_0.kind == ScanErrorKind::Io
                    &&& r->Err_0.message@ == text@
                },
                Listing::Entries(entries) => {
                    &&& r is Ok
                    &&& r->Ok_0.wf()
                    &&& files_view(r->Ok_0.files@) == scanned_files(source_dir@, entries@)
                    &&& forall|i: int|
                        0 <= i < r->Ok_0.files@.len() ==> !is_hidden(
                            #[trigger] r->Ok_0.files@[i].name@,
                        )
                },
            },
    {
        let entries = match listing {
            Listing::NotADirectory => {
                let message = source_dir.to_owned().concat(" is not a directory");
                return Err(ScanError { kind: ScanErrorKind::NotADirectory, message });
            },
            Listing::Failed(text) => {
                return Err(ScanError { kind: ScanErrorKind::Io, message: text });
            },
            Listing::Entries(entries) => entries,
        };
        let ghost dir_seq = source_dir@;
        let ghost all_entries = entries@;
        let mut files: Vec<FileInfo> = Vec::new();
        let mut i: usize = 0;
        while i < entries.len()
            invariant
                i <= entries.len(),
                entries@ == all_entries,
                files_view(files@) == scanned_files(dir_seq, all_entries.take(i as int)),
                dir_seq == source_dir@,
            decreases entries.len() - i,
        {
            let entry = &entries[i];
            proof {
                assert(all_entries.take(i + 1).drop_last() =~= all_entries.take(i as int));
                assert(all_entries.take(i + 1).last() == all_entries[i as int]);
            }
            if entry.is_file && !is_hidden_name(&entry.name) {
                let info = self.process_entry(source_dir, &entry.name);
                files.push(info);
                proof {
                    assert(files_view(files@) =~= scanned_files(
                        dir_seq,
                        all_entries.take(i + 1),
                    ));
                }
            } else {
                proof {
                    assert(files_view(files@) =~= scanned_files(
                        dir_seq,
                        all_entries.take(i + 1),
                    ));
                }
            }
            i += 1;
        }
        proof {
            assert(all_entries.take(all_entries.len() as int) =~= all_entries);
        }
        let result = build_scan_result(files);
        proof {
            lemma_scan_excludes_hidden(dir_seq, all_entries);
            assert forall|j: int| 0 <= j < result.files@.len() implies !is_hidden(
                #[trigger] result.files@[j].name@,
            ) by {
                assert(files_view(result.files@)[j] == result.files@[j]@);
                assert(!is_hidden(scanned_files(dir_seq, all_entries)[j].name));
                assert(result.files@[j]@.name == result.files@[j].name@);
            }
        }
        Ok(result)
    }

    /// The file record for one kept entry.
    fn process_entry(&self, source_dir: &str, name: &String) -> (r: FileInfo)
        ensures
            r@ == file_record(source_dir@, name@),
    {
        let path = join_path(source_dir, name.as_str());
        let extension = extension_of(name.as_str());
        let category = match &extension {
            Some(ext) => self.mapper.categorize(ext.as_str()),
            None => FileCategory::Other,
        };
        FileInfo { path, name: name.clone(), extension, category }
    }
}

/// Whether a base name is hidden.
pub fn is_hidden_name(name: &String) -> (r: bool)
    ensures
        r == is_hidden(name@),
{
    if name.as_str().unicode_len() == 0 {
        false
    } else {
        name.as_str().get_char(0) == '.'
    }
}

/// Groups scanned files by category and assembles the scan result.
fn build_scan_result(files: Vec<FileInfo>) -> (r: ScanResult)
    ensures
        r.wf(),
        r.files@ == files@,
{
    let mut g0: Vec<FileInfo> = Vec::new();
    let mut g1: Vec<FileInfo> = Vec::new();
    let mut g2: Vec<FileInfo> = Vec::new();
    let mut g3: Vec<FileInfo> = Vec::new();
    let mut g4: Vec<FileInfo> = Vec::new();
    let mut g5: Vec<FileInfo> = Vec::new();
    let mut g6: Vec<FileInfo> = Vec::new();
    let mut g7: Vec<FileInfo> = Vec::new();
    let mut g8: Vec<FileInfo> = Vec::new();
    let mut g9: Vec<FileInfo> = Vec::new();
    let mut i: usize = 0;
    while i < files.len()
        invariant
            i <= files.len(),
            g0@ == group_of(files@.take(i as int), 0),
            g1@ == group_of(files@.take(i as int), 1),
            g2@ == group_of(files@.take(i as int), 2),
            g3@ == group_of(files@.take(i as int), 3),
            g4@ == group_of(files@.take(i as int), 4),
            g5@ == group_of(files@.take(i as int), 5),
            g6@ == group_of(files@.take(i as int), 6),
            g7@ == group_of(files@.take(i as int), 7),
            g8@ == group_of(files@.take(i as int), 8),
            g9@ == group_of(files@.take(i as int), 9),
        decreases files.len() - i,
    {
        proof {
            assert(files@.take(i + 1).drop_last() =~= files@.take(i as int));
            assert(files@.take(i + 1).last() == files@[i as int]);
        }
        let file = files[i].duplicate();
        match file.category {
            FileCategory::Images => g0.push(file),
            FileCategory::Documents => g1.push(file),
            FileCategory::Videos => g2.push(file),
            FileCategory::Audio => g3.push(file),
            FileCategory::Archives => g4.push(file),
            FileCategory::Code => g5.push(file),
            FileCategory::Data => g6.push(file),
            FileCategory::Executables => g7.push(file),
            FileCategory::Fonts => g8.push(file),
            FileCategory::Other => g9.push(file),
        }
        i += 1;
    }
    proof {
        assert(files@.take(files@.len() as int) =~= files@);
    }
    let total_count = files.len();
    let mut categorized: Vec<Vec<FileInfo>> = Vec::new();
    categorized.push(g0);
    categorized.push(g1);
    categorized.push(g2);
    categorized.push(g3);
    categorized.push(g4);
    categorized.push(g5);
    categorized.push(g6);
    categorized.push(g7);
    categorized.push(g8);
    categorized.push(g9);
    ScanResult { files, categorized, total_count }
}

} // verus!
