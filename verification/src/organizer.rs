//! The relocation orchestrator: for an output root it plans the per-category
//! directories, decides per file whether a move is admissible, and classifies
//! how an attempted move ended, accumulating a moved/skipped/failed report.
//!
//! The orchestrator never touches the filesystem. The caller probes and acts
//! (does a destination exist, did a rename succeed) and hands the answers in
//! as plain values; every decision taken on them is verified. A move is
//! attempted as a rename first; a cross-device condition falls back to
//! copy-then-delete, and a copy whose source cannot be removed afterwards is
//! reported explicitly, with the destination copy slated for removal.

use vstd::prelude::*;

use crate::categories::{CategoryMapper, FileCategory};
use crate::scanner::{group_of, FileInfo, ScanResult};
use crate::text::{join_path, path_join, str_eq};

verus! {

/// The error classes that move failures are translated by.
#[derive(Debug, Clone, Copy, PartialEq, Eq, Structural)]
pub enum IoErrorKind {
    PermissionDenied,
    NotFound,
    AlreadyExists,
    Other,
}

/// One proposed relocation: where the file is, where it would go, and its
/// display name.
#[derive(Debug, Clone)]
pub struct MoveOperation {
    pub source: String,
    pub destination: String,
    pub file_name: String,
}

/// The mathematical value of a [`MoveOperation`].
pub struct MoveOperationV {
    pub source: Seq<char>,
    pub destination: Seq<char>,
    pub file_name: Seq<char>,
}

impl View for MoveOperation {
    type V = MoveOperationV;

    open spec fn view(&self) -> MoveOperationV {
        MoveOperationV {
            source: self.source@,
            destination: self.destination@,
            file_name: self.file_name@,
        }
    }
}

/// What opening the source file for read reported.
pub enum OpenProbe {
    Opened,
    OpenFailed(IoErrorKind, String),
}

/// What inspecting the metadata of the destination's parent reported.
pub enum MetadataProbe {
    Accessible { readonly: bool },
    Inaccessible(IoErrorKind, String),
}

/// What resolving the destination's parent directory reported.
pub enum ParentProbe {
    NoParent,
    ParentMissing,
    Parent(MetadataProbe),
}

/// How an attempted rename of source to destination ended.
pub enum RenameOutcome {
    Renamed,
    CrossDevice,
    RenameFailed(IoErrorKind, String),
}

/// How copying the source bytes to the destination ended.
pub enum CopyOutcome {
    Copied,
    CopyFailed(String),
}

/// How deleting the source after a successful copy ended.
pub enum DeleteOutcome {
    Deleted,
    DeleteFailed(String),
}

/// Everything the filesystem answered about one file's move: the probe
/// results and, where the move was executed, how each step ended.
pub struct FileEnv {
    pub dest_exists: bool,
    pub source: OpenProbe,
    pub dest_dir: ParentProbe,
    pub rename: RenameOutcome,
    pub copy: CopyOutcome,
    pub delete: DeleteOutcome,
}

/// The terminal state of one file after the orchestrator processed it.
pub enum OutcomeV {
    Moved,
    Skipped(Seq<char>),
    Failed(Seq<char>),
}

/// The message for an I/O failure in a given context: the kind picks a fixed
/// suffix, any other kind carries the underlying error text.
pub open spec fn io_context_message(context: Seq<char>, kind: IoErrorKind, raw: Seq<char>) -> Seq<
    char,
> {
    match kind {
        IoErrorKind::PermissionDenied => context + ": permission denied"@,
        IoErrorKind::NotFound => context + ": file not found"@,
        _ => context + ": "@ + raw,
    }
}

/// Why reading the source would fail, if it would.
pub open spec fn source_check_reason(probe: OpenProbe) -> Option<Seq<char>> {
    match probe {
        OpenProbe::Opened => None,
        OpenProbe::OpenFailed(kind, text) => Some(
            io_context_message("cannot read source file"@, kind, text@),
        ),
    }
}

/// Why writing into the destination's directory would fail, if it would.
pub open spec fn dest_check_reason(probe: ParentProbe) -> Option<Seq<char>> {
    match probe {
        ParentProbe::NoParent => Some("invalid destination path"@),
        ParentProbe::ParentMissing => Some("destination directory does not exist"@),
        ParentProbe::Parent(meta) => match meta {
            MetadataProbe::Accessible { readonly } => if readonly {
                Some("destination directory is read-only"@)
            } else {
                None
            },
            MetadataProbe::Inaccessible(kind, text) => Some(
                io_context_message("cannot access destination directory"@, kind, text@),
            ),
        },
    }
}

/// The admissibility checks, first failure first: same source and
/// destination, an existing destination, and - in live mode only - an
/// unreadable source or an unusable destination directory.
pub open spec fn skip_reason(dry_run: bool, op: MoveOperationV, env: FileEnv) -> Option<Seq<char>> {
    if op.source == op.destination {
        Some("source and destination are the same"@)
    } else if env.dest_exists {
        Some("destination file already exists"@)
    } else if dry_run {
        None
    } else if source_check_reason(env.source) is Some {
        source_check_reason(env.source)
    } else {
        dest_check_reason(env.dest_dir)
    }
}

/// The translated message for a rename failure that is no cross-device
/// condition.
pub open spec fn enhance_message(kind: IoErrorKind, raw: Seq<char>, op: MoveOperationV) -> Seq<
    char,
> {
    match kind {
        IoErrorKind::PermissionDenied => "permission denied moving '"@ + op.source + "' to '"@
            + op.destination + "'"@,
        IoErrorKind::NotFound => "source file '"@ + op.source + "' not found"@,
        IoErrorKind::AlreadyExists => "destination '"@ + op.destination + "' already exists"@,
        IoErrorKind::Other => "failed to move '"@ + op.file_name + "': "@ + raw,
    }
}

/// The message reported when the copy succeeded but the source could not be
/// removed.
pub open spec fn removal_failure_message(raw: Seq<char>) -> Seq<char> {
    "copied file but failed to remove source: "@ + raw
}

/// How an executed (live, admissible) move ends: a rename completes it, a
/// cross-device condition falls back to copy-then-delete, anything else
/// fails with a translated message.
pub open spec fn live_outcome(op: MoveOperationV, env: FileEnv) -> OutcomeV {
    match env.rename {
        RenameOutcome::Renamed => OutcomeV::Moved,
        RenameOutcome::RenameFailed(kind, text) => OutcomeV::Failed(
            enhance_message(kind, text@, op),
        ),
        RenameOutcome::CrossDevice => match env.copy {
            CopyOutcome::CopyFailed(text) => OutcomeV::Failed(text@),
            CopyOutcome::Copied => match env.delete {
                DeleteOutcome::Deleted => OutcomeV::Moved,
                DeleteOutcome::DeleteFailed(text) => OutcomeV::Failed(
                    removal_failure_message(text@),
                ),
            },
        },
    }
}

/// The terminal state of one file: skipped when inadmissible, moved without
/// execution in simulate mode, otherwise however the execution ended.
pub open spec fn file_outcome(dry_run: bool, op: MoveOperationV, env: FileEnv) -> OutcomeV {
    match skip_reason(dry_run, op, env) {
        Some(reason) => OutcomeV::Skipped(reason),
        None => if dry_run {
            OutcomeV::Moved
        } else {
            live_outcome(op, env)
        },
    }
}

/// The destination a file of the given category and name maps to.
pub open spec fn target_path_spec(
    output_dir: Seq<char>,
    category: FileCategory,
    file_name: Seq<char>,
) -> Seq<char> {
    path_join(path_join(output_dir, category.folder_name_spec()), file_name)
}

/// The move operation planned for a scanned file.
pub open spec fn planned_op(output_dir: Seq<char>, file: FileInfo) -> MoveOperationV {
    MoveOperationV {
        source: file.path@,
        destination: target_path_spec(output_dir, file.category, file.name@),
        file_name: file.name@,
    }
}

/// What to do after the rename attempt.
pub enum RenameStep {
    Completed,
    NeedsCopyFallback,
    Abandoned(String),
}

/// The mathematical value of a [`RenameStep`].
pub enum RenameStepV {
    Completed,
    NeedsCopyFallback,
    Abandoned(Seq<char>),
}

impl View for RenameStep {
    type V = RenameStepV;

    open spec fn view(&self) -> RenameStepV {
        match self {
            RenameStep::Completed => RenameStepV::Completed,
            RenameStep::NeedsCopyFallback => RenameStepV::NeedsCopyFallback,
            RenameStep::Abandoned(m) => RenameStepV::Abandoned(m@),
        }
    }
}

/// What [`Organizer::after_rename`] decides for each outcome.
pub open spec fn rename_step_spec(op: MoveOperationV, outcome: RenameOutcome) -> RenameStepV {
    match outcome {
        RenameOutcome::Renamed => RenameStepV::Completed,
        RenameOutcome::CrossDevice => RenameStepV::NeedsCopyFallback,
        RenameOutcome::RenameFailed(kind, text) => RenameStepV::Abandoned(
            enhance_message(kind, text@, op),
        ),
    }
}

/// What to do after the copy step of the fallback.
pub enum CopyStep {
    SourceRemovalPending,
    Abandoned(String),
}

/// The mathematical value of a [`CopyStep`].
pub enum CopyStepV {
    SourceRemovalPending,
    Abandoned(Seq<char>),
}

impl View for CopyStep {
    type V = CopyStepV;

    open spec fn view(&self) -> CopyStepV {
        match self {
            CopyStep::SourceRemovalPending => CopyStepV::SourceRemovalPending,
            CopyStep::Abandoned(m) => CopyStepV::Abandoned(m@),
        }
    }
}

/// What [`Organizer::after_copy`] decides for each outcome.
pub open spec fn copy_step_spec(outcome: CopyOutcome) -> CopyStepV {
    match outcome {
        CopyOutcome::Copied => CopyStepV::SourceRemovalPending,
        CopyOutcome::CopyFailed(text) => CopyStepV::Abandoned(text@),
    }
}

/// What to do after the delete step of the fallback. A failed delete leaves
/// a duplicate behind, so the just-created destination copy is to be removed
/// (best effort) and the move reported as failed.
pub enum DeleteStep {
    Completed,
    AbandonedRemoveDestination(String),
}

/// The mathematical value of a [`DeleteStep`].
pub enum DeleteStepV {
    Completed,
    AbandonedRemoveDestination(Seq<char>),
}

impl View for DeleteStep {
    type V = DeleteStepV;

    open spec fn view(&self) -> DeleteStepV {
        match self {
            DeleteStep::Completed => DeleteStepV::Completed,
            DeleteStep::AbandonedRemoveDestination(m) => DeleteStepV::AbandonedRemoveDestination(
                m@,
            ),
        }
    }
}

/// What [`Organizer::after_delete`] decides for each outcome.
pub open spec fn delete_step_spec(outcome: DeleteOutcome) -> DeleteStepV {
    match outcome {
        DeleteOutcome::Deleted => DeleteStepV::Completed,
        DeleteOutcome::DeleteFailed(text) => DeleteStepV::AbandonedRemoveDestination(
            removal_failure_message(text@),
        ),
    }
}

/// The aggregate report of a relocation run: completed, skipped and failed
/// operations, the latter two each with a human-readable reason.
#[derive(Debug)]
pub struct MoveResult {
    pub moved: Vec<MoveOperation>,
    pub skipped: Vec<(MoveOperation, String)>,
    pub failed: Vec<(MoveOperation, String)>,
}

impl Default for MoveResult {
    /// An empty report.
    fn default() -> (r: Self)
        ensures
            r.moved@.len() == 0,
            r.skipped@.len() == 0,
            r.failed@.len() == 0,
    {
        MoveResult { moved: Vec::new(), skipped: Vec::new(), failed: Vec::new() }
    }
}

/// The orchestrator's configuration: the output root, whether this is a
/// simulate-only run, and whether collaborators want verbose reporting
/// (threaded through, it changes no decision).
pub struct Organizer {
    pub output_dir: String,
    pub dry_run: bool,
    pub verbose: bool,
}

impl Organizer {
    /// An orchestrator for the given output root and flags.
    pub fn new(output_dir: String, dry_run: bool, verbose: bool) -> (r: Self)
        ensures
            r.output_dir@ == output_dir@,
            r.dry_run == dry_run,
            r.verbose == verbose,
    {
        Organizer { output_dir, dry_run, verbose }
    }

    /// The output root this orchestrator relocates into.
    pub fn output_dir(&self) -> (r: &str)
        ensures
            r@ == self.output_dir@,
    {
        self.output_dir.as_str()
    }

    /// The destination path for a file of the given category and name.
    pub fn get_target_path(&self, category: &FileCategory, file_name: &str) -> (r: String)
        ensures
            r@ == target_path_spec(self.output_dir@, *category, file_name@),
    {
        let folder = category.folder_name();
        let base = join_path(self.output_dir.as_str(), folder);
        join_path(base.as_str(), file_name)
    }

    /// The move operation planned for a scanned file.
    pub fn create_move_operation(&self, file: &FileInfo) -> (r: MoveOperation)
        ensures
            r@ == planned_op(self.output_dir@, *file),
    {
        let destination = self.get_target_path(&file.category, file.name.as_str());
        MoveOperation { source: file.path.clone(), destination, file_name: file.name.clone() }
    }

    /// The message for an I/O failure in the given context.
    pub fn format_io_error(&self, context: &str, kind: IoErrorKind, raw: &String) -> (r: String)
        ensures
            r@ == io_context_message(context@, kind, raw@),
    {
        match kind {
            IoErrorKind::PermissionDenied => context.to_owned().concat(": permission denied"),
            IoErrorKind::NotFound => context.to_owned().concat(": file not found"),
            _ => {
                let mut s = context.to_owned();
                s.append(": ");
                s.append(raw.as_str());
                proof {
                    assert(s@ =~= context@ + ": "@ + raw@);
                }
                s
            },
        }
    }

    /// Whether the source file could be opened for read; the reason when not.
    pub fn check_source_readable(&self, probe: &OpenProbe) -> (r: Result<(), String>)
        ensures
            match r {
                Ok(_) => source_check_reason(*probe) is None,
                Err(reason) => source_check_reason(*probe) == Some(reason@),
            },
    {
        match probe {
            OpenProbe::Opened => Ok(()),
            OpenProbe::OpenFailed(kind, text) => Err(
                self.format_io_error("cannot read source file", *kind, text),
            ),
        }
    }

    /// Whether the destination's parent directory can take the file; the
    /// reason when not.
    pub fn check_destination_writable(&self, probe: &ParentProbe) -> (r: Result<(), String>)
        ensures
            match r {
                Ok(_) => dest_check_reason(*probe) is None,
                Err(reason) => dest_check_reason(*probe) == Some(reason@),
            },
    {
        match probe {
            ParentProbe::NoParent => Err("invalid destination path".to_owned()),
            ParentProbe::ParentMissing => Err("destination directory does not exist".to_owned()),
            ParentProbe::Parent(meta) => match meta {
                MetadataProbe::Accessible { readonly } => {
                    if *readonly {
                        Err("destination directory is read-only".to_owned())
                    } else {
                        Ok(())
                    }
                },
                MetadataProbe::Inaccessible(kind, text) => Err(
                    self.format_io_error("cannot access destination directory", *kind, text),
                ),
            },
        }
    }

    /// The admissibility checks for one operation, first failure first.
    /// `Ok` means the move may proceed (or count as done in simulate mode);
    /// `Err` carries the reason to record the file as skipped.
    pub fn should_move(&self, operation: &MoveOperation, env: &FileEnv) -> (r: Result<(), String>)
        ensures
            match r {
                Ok(_) => skip_reason(self.dry_run, operation@, *env) is None,
                Err(reason) => skip_reason(self.dry_run, operation@, *env) == Some(reason@),
            },
    {
        if str_eq(operation.source.as_str(), operation.destination.as_str()) {
            return Err("source and destination are the same".to_owned());
        }
        if env.dest_exists {
            return Err("destination file already exists".to_owned());
        }
        if self.dry_run {
            return Ok(());
        }
        if let Err(reason) = self.check_source_readable(&env.source) {
            return Err(reason);
        }
        if let Err(reason) = self.check_destination_writable(&env.dest_dir) {
            return Err(reason);
        }
        Ok(())
    }

    /// The translated message for a rename failure that is no cross-device
    /// condition.
    pub fn enhance_io_error(&self, kind: IoErrorKind, raw: &String, operation: &MoveOperation) -> (r:
        String)
        ensures
            r@ == enhance_message(kind, raw@, operation@),
    {
        match kind {
            IoErrorKind::PermissionDenied => {
                let mut s = "permission denied moving '".to_owned();
                s.append(operation.source.as_str());
                s.append("' to '");
                s.append(operation.destination.as_str());
                s.append("'");
                proof {
                    assert(s@ =~= enhance_message(kind, raw@, operation@));
                }
                s
            },
            IoErrorKind::NotFound => {
                let mut s = "source file '".to_owned();
                s.append(operation.source.as_str());
                s.append("' not found");
                proof {
                    assert(s@ =~= enhance_message(kind, raw@, operation@));
                }
                s
            },
            IoErrorKind::AlreadyExists => {
                let mut s = "destination '".to_owned();
                s.append(operation.destination.as_str());
                s.append("' already exists");
                proof {
                    assert(s@ =~= enhance_message(kind, raw@, operation@));
                }
                s
            },
            IoErrorKind::Other => {
                let mut s = "failed to move '".to_owned();
                s.append(operation.file_name.as_str());
                s.append("': ");
                s.append(raw.as_str());
                proof {
                    assert(s@ =~= enhance_message(kind, raw@, operation@));
                }
                s
            },
        }
    }

    /// Classifies how the rename attempt ended: done, fall back to
    /// copy-then-delete on a cross-device condition, or abandon with a
    /// translated message.
    pub fn after_rename(&self, operation: &MoveOperation, outcome: &RenameOutcome) -> (r:
        RenameStep)
        ensures
            r@ == rename_step_spec(operation@, *outcome),
    {
        match outcome {
            RenameOutcome::Renamed => RenameStep::Completed,
            RenameOutcome::CrossDevice => RenameStep::NeedsCopyFallback,
            RenameOutcome::RenameFailed(kind, text) => RenameStep::Abandoned(
                self.enhance_io_error(*kind, text, operation),
            ),
        }
    }

    /// Classifies how the copy step ended: the source removal is pending, or
    /// the fallback is abandoned with the underlying error text.
    pub fn after_copy(&self, outcome: &CopyOutcome) -> (r: CopyStep)
        ensures
            r@ == copy_step_spec(*outcome),
    {
        match outcome {
            CopyOutcome::Copied => CopyStep::SourceRemovalPending,
            CopyOutcome::CopyFailed(text) => CopyStep::Abandoned(text.clone()),
        }
    }

    /// Classifies how the delete step ended: the move completed, or it is
    /// abandoned - the caller removes the destination copy (best effort) and
    /// records the explicit copied-but-not-removed message.
    pub fn after_delete(&self, outcome: &DeleteOutcome) -> (r: DeleteStep)
        ensures
            r@ == delete_step_spec(*outcome),
    {
        match outcome {
            DeleteOutcome::Deleted => DeleteStep::Completed,
            DeleteOutcome::DeleteFailed(text) => {
                let mut s = "copied file but failed to remove source: ".to_owned();
                s.append(text.as_str());
                DeleteStep::AbandonedRemoveDestination(s)
            },
        }
    }

    /// Processes the scanned files strictly in scan order against the given
    /// per-file filesystem answers, partitioning every file into exactly one
    /// of moved, skipped or failed.
    pub fn move_files(&self, scan_result: &ScanResult, envs: &Vec<FileEnv>) -> (r: MoveResult)
        requires
            envs@.len() == scan_result.files@.len(),
        ensures
            r.moved@.map_values(|op: MoveOperation| op@) == report_moved(
                self.output_dir@,
                self.dry_run,
                scan_result.files@,
                envs@,
            ),
            r.skipped@.map_values(|p: (MoveOperation, String)| (p.0@, p.1@)) == report_skipped(
                self.output_dir@,
                self.dry_run,
                scan_result.files@,
                envs@,
            ),
            r.failed@.map_values(|p: (MoveOperation, String)| (p.0@, p.1@)) == report_failed(
                self.output_dir@,
                self.dry_run,
                scan_result.files@,
                envs@,
            ),
            r.moved@.len() + r.skipped@.len() + r.failed@.len() == scan_result.files@.len(),
    {
        let ghost output = self.output_dir@;
        let ghost all_files = scan_result.files@;
        let ghost all_envs = envs@;
        let mut moved: Vec<MoveOperation> = Vec::new();
        let mut skipped: Vec<(MoveOperation, String)> = Vec::new();
        let mut failed: Vec<(MoveOperation, String)> = Vec::new();
        let mut i: usize = 0;
        while i < scan_result.files.len()
            invariant
                i <= all_files.len(),
                scan_result.files@ == all_files,
                envs@ == all_envs,
                all_envs.len() == all_files.len(),
                output == self.output_dir@,
                moved@.map_values(|op: MoveOperation| op@) == report_moved(
                    output,
                    self.dry_run,
                    all_files.take(i as int),
                    all_envs.take(i as int),
                ),
                skipped@.map_values(|p: (MoveOperation, String)| (p.0@, p.1@)) == report_skipped(
                    output,
                    self.dry_run,
                    all_files.take(i as int),
                    all_envs.take(i as int),
                ),
                failed@.map_values(|p: (MoveOperation, String)| (p.0@, p.1@)) == report_failed(
                    output,
                    self.dry_run,
                    all_files.take(i as int),
                    all_envs.take(i as int),
                ),
            decreases all_files.len() - i,
        {
            proof {
                assert(all_files.take(i + 1).drop_last() =~= all_files.take(i as int));
                assert(all_envs.take(i + 1).drop_last() =~= all_envs.take(i as int));
                assert(all_files.take(i + 1).last() == all_files[i as int]);
                assert(all_envs.take(i + 1).last() == all_envs[i as int]);
            }
            let file = &scan_result.files[i];
            let env = &envs[i];
            let operation = self.create_move_operation(file);
            match self.should_move(&operation, env) {
                Err(reason) => {
                    skipped.push((operation, reason));
                    proof {
                        assert(skipped@.map_values(|p: (MoveOperation, String)| (p.0@, p.1@))
                            =~= report_skipped(
                            output,
                            self.dry_run,
                            all_files.take(i + 1),
                            all_envs.take(i + 1),
                        ));
                    }
                },
                Ok(_) => {
                    if self.dry_run {
                        moved.push(operation);
                        proof {
                            assert(moved@.map_values(|op: MoveOperation| op@) =~= report_moved(
                                output,
                                self.dry_run,
                                all_files.take(i + 1),
                                all_envs.take(i + 1),
                            ));
                        }
                    } else {
                        match self.after_rename(&operation, &env.rename) {
                            RenameStep::Completed => {
                                moved.push(operation);
                                proof {
                                    assert(moved@.map_values(|op: MoveOperation| op@)
                                        =~= report_moved(
                                        output,
                                        self.dry_run,
                                        all_files.take(i + 1),
                                        all_envs.take(i + 1),
                                    ));
                                }
                            },
                            RenameStep::Abandoned(message) => {
                                failed.push((operation, message));
                                proof {
                                    assert(failed@.map_values(
                                        |p: (MoveOperation, String)| (p.0@, p.1@),
                                    ) =~= report_failed(
                                        output,
                                        self.dry_run,
                                        all_files.take(i + 1),
                                        all_envs.take(i + 1),
                                    ));
                                }
                            },
                            RenameStep::NeedsCopyFallback => {
                                match self.after_copy(&env.copy) {
                                    CopyStep::Abandoned(message) => {
                                        failed.push((operation, message));
                                        proof {
                                            assert(failed@.map_values(
                                                |p: (MoveOperation, String)| (p.0@, p.1@),
                                            ) =~= report_failed(
                                                output,
                                                self.dry_run,
                                                all_files.take(i + 1),
                                                all_envs.take(i + 1),
                                            ));
                                        }
                                    },
                                    CopyStep::SourceRemovalPending => {
                                        match self.after_delete(&env.delete) {
                                            DeleteStep::Completed => {
                                                moved.push(operation);
                                                proof {
                                                    assert(moved@.map_values(
                                                        |op: MoveOperation| op@,
                                                    ) =~= report_moved(
                                                        output,
                                                        self.dry_run,
                                                        all_files.take(i + 1),
                                                        all_envs.take(i + 1),
                                                    ));
                                                }
                                            },
                                            DeleteStep::AbandonedRemoveDestination(message) => {
                                                failed.push((operation, message));
                                                proof {
                                                    assert(failed@.map_values(
                                                        |p: (MoveOperation, String)| (p.0@, p.1@),
                                                    ) =~= report_failed(
                                                        output,
                                                        self.dry_run,
                                                        all_files.take(i + 1),
                                                        all_envs.take(i + 1),
                                                    ));
                                                }
                                            },
                                        }
                                    },
                                }
                            },
                        }
                    }
                },
            }
            i += 1;
        }
        proof {
            assert(all_files.take(all_files.len() as int) =~= all_files);
            assert(all_envs.take(all_envs.len() as int) =~= all_envs);
            lemma_report_partition(output, self.dry_run, all_files, all_envs);
        }
        MoveResult { moved, skipped, failed }
    }

    /// The category directories a run would create under the output root:
    /// one per category present in the scan, in declaration order, leaving
    /// out those that already exist. `existing` answers, per category index,
    /// whether the directory is already there.
    ///
    /// In live mode the caller creates exactly the returned paths (and stops
    /// at the first failure); in simulate mode they are only reported.
    pub fn create_category_directories(&self, scan_result: &ScanResult, existing: &Vec<bool>) -> (r:
        Vec<String>)
        requires
            scan_result.wf(),
            existing@.len() == 10,
        ensures
            r@.map_values(|s: String| s@) == planned_dirs(
                self.output_dir@,
                scan_result.files@,
                existing@,
            ),
    {
        let ghost output = self.output_dir@;
        let ghost all_files = scan_result.files@;
        let categories = CategoryMapper::new().all_categories();
        let mut created: Vec<String> = Vec::new();
        let mut i: usize = 0;
        while i < 10
            invariant
                i <= 10,
                categories@ == crate::categories::all_categories_spec(),
                scan_result.wf(),
                scan_result.files@ == all_files,
                existing@.len() == 10,
                output == self.output_dir@,
                created@.map_values(|s: String| s@) == planned_dirs_upto(
                    output,
                    all_files,
                    existing@,
                    i as int,
                ),
            decreases 10 - i,
        {
            let present = scan_result.categorized[i].len() > 0;
            if present && !existing[i] {
                let path = join_path(self.output_dir.as_str(), categories[i].folder_name());
                created.push(path);
                proof {
                    assert(created@.map_values(|s: String| s@) =~= planned_dirs_upto(
                        output,
                        all_files,
                        existing@,
                        i + 1,
                    ));
                }
            } else {
                proof {
                    assert(created@.map_values(|s: String| s@) =~= planned_dirs_upto(
                        output,
                        all_files,
                        existing@,
                        i + 1,
                    ));
                }
            }
            i += 1;
        }
        created
    }
}

/// The operations that end up moved, in scan order, given the per-file
/// filesystem answers.
pub open spec fn report_moved(
    output: Seq<char>,
    dry_run: bool,
    files: Seq<FileInfo>,
    envs: Seq<FileEnv>,
) -> Seq<MoveOperationV>
    decreases files.len(),
{
    if files.len() == 0 {
        Seq::empty()
    } else {
        let prefix = report_moved(output, dry_run, files.drop_last(), envs.drop_last());
        let op = planned_op(output, files.last());
        if file_outcome(dry_run, op, envs.last()) is Moved {
            prefix.push(op)
        } else {
            prefix
        }
    }
}

/// The operations that end up skipped, each with its reason, in scan order.
pub open spec fn report_skipped(
    output: Seq<char>,
    dry_run: bool,
    files: Seq<FileInfo>,
    envs: Seq<FileEnv>,
) -> Seq<(MoveOperationV, Seq<char>)>
    decreases files.len(),
{
    if files.len() == 0 {
        Seq::empty()
    } else {
        let prefix = report_skipped(output, dry_run, files.drop_last(), envs.drop_last());
        let op = planned_op(output, files.last());
        match file_outcome(dry_run, op, envs.last()) {
            OutcomeV::Skipped(reason) => prefix.push((op, reason)),
            _ => prefix,
        }
    }
}

/// The operations that end up failed, each with its reason, in scan order.
pub open spec fn report_failed(
    output: Seq<char>,
    dry_run: bool,
    files: Seq<FileInfo>,
    envs: Seq<FileEnv>,
) -> Seq<(MoveOperationV, Seq<char>)>
    decreases files.len(),
{
    if files.len() == 0 {
        Seq::empty()
    } else {
        let prefix = report_failed(output, dry_run, files.drop_last(), envs.drop_last());
        let op = planned_op(output, files.last());
        match file_outcome(dry_run, op, envs.last()) {
            OutcomeV::Failed(reason) => prefix.push((op, reason)),
            _ => prefix,
        }
    }
}

/// Every scanned file lands in exactly one of the three report sequences.
pub proof fn lemma_report_partition(
    output: Seq<char>,
    dry_run: bool,
    files: Seq<FileInfo>,
    envs: Seq<FileEnv>,
)
    requires
        envs.len() == files.len(),
    ensures
        report_moved(output, dry_run, files, envs).len() + report_skipped(
            output,
            dry_run,
            files,
            envs,
        ).len() + report_failed(output, dry_run, files, envs).len() == files.len(),
    decreases files.len(),
{
    if files.len() > 0 {
        lemma_report_partition(output, dry_run, files.drop_last(), envs.drop_last());
    }
}

/// The category directories needed among the first `i` categories of the
/// declaration order: present in the scan and not already existing.
pub open spec fn planned_dirs_upto(
    output: Seq<char>,
    files: Seq<FileInfo>,
    existing: Seq<bool>,
    i: int,
) -> Seq<Seq<char>>
    decreases i,
{
    if i <= 0 {
        Seq::empty()
    } else {
        let prefix = planned_dirs_upto(output, files, existing, i - 1);
        if group_of(files, i - 1).len() > 0 && !existing[i - 1] {
            prefix.push(
                path_join(
                    output,
                    crate::categories::all_categories_spec()[i - 1].folder_name_spec(),
                ),
            )
        } else {
            prefix
        }
    }
}

/// The category directories a run creates (or would create): one per
/// category present in the scan that does not already exist, in declaration
/// order.
pub open spec fn planned_dirs(output: Seq<char>, files: Seq<FileInfo>, existing: Seq<bool>) -> Seq<
    Seq<char>,
> {
    planned_dirs_upto(output, files, existing, 10)
}

proof fn lemma_planned_dirs_upto_empty(
    output: Seq<char>,
    files: Seq<FileInfo>,
    existing: Seq<bool>,
    i: int,
)
    requires
        0 <= i <= 10,
        forall|j: int| 0 <= j < 10 ==> (group_of(files, j).len() > 0 ==> existing[j]),
    ensures
        planned_dirs_upto(output, files, existing, i) =~= Seq::<Seq<char>>::empty(),
    decreases i,
{
    if i > 0 {
        lemma_planned_dirs_upto_empty(output, files, existing, i - 1);
    }
}

/// Creating the category directories is idempotent: once every directory a
/// scan needs exists, a second run plans nothing and returns an empty
/// created-list.
pub proof fn lemma_create_directories_idempotent(
    output: Seq<char>,
    files: Seq<FileInfo>,
    existing: Seq<bool>,
)
    requires
        existing.len() == 10,
        forall|j: int| 0 <= j < 10 ==> (group_of(files, j).len() > 0 ==> existing[j]),
    ensures
        planned_dirs(output, files, existing) =~= Seq::<Seq<char>>::empty(),
{
    lemma_planned_dirs_upto_empty(output, files, existing, 10);
}

/// Simulate mode keeps its hands off the filesystem: the outcome of a file
/// depends on nothing but the planned paths and whether the destination
/// already exists - no rename, copy or delete result can influence it - and
/// a simulate run never reports a failure.
pub proof fn lemma_simulate_reads_only(op: MoveOperationV, env1: FileEnv, env2: FileEnv)
    requires
        env1.dest_exists == env2.dest_exists,
    ensures
        file_outcome(true, op, env1) == file_outcome(true, op, env2),
        !(file_outcome(true, op, env1) is Failed),
{
}

/// Collision safety: a file whose destination already exists is always
/// skipped - never moved, never failed, so no execution step ever touches
/// the existing destination - and, unless the source and destination are the
/// same path, the reason names the existing destination.
pub proof fn lemma_existing_destination_never_replaced(
    dry_run: bool,
    op: MoveOperationV,
    env: FileEnv,
)
    requires
        env.dest_exists,
    ensures
        file_outcome(dry_run, op, env) is Skipped,
        op.source != op.destination ==> file_outcome(dry_run, op, env) == OutcomeV::Skipped(
            "destination file already exists"@,
        ),
{
}

} // verus!
