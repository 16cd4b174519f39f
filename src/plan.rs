use vstd::prelude::*;

use crate::change::{ChangeRecord, ChangeView};

verus! {

/// One primitive step of a forward operation, for the caller to perform.
/// Destinations are relative to the install root; sources are the caller's
/// own paths.
#[derive(Debug, Clone)]
pub enum Step {
    /// Create the directories that lead to the path, if missing.
    EnsureParentDir(String),
    /// Create an empty file at the path.
    CreateFile(String),
    /// Write the content into the file just created at the path. If this
    /// fails, delete that file: the change is not recorded.
    WriteFile { dest: String, content: String },
    /// Copy the file at the source to the path.
    CopyFile { src: String, dest: String },
    /// Copy the directory tree at the source to the path.
    CopyDir { src: String, dest: String },
    /// Rename the file at the source onto the path.
    RenameFile { src: String, dest: String },
    /// Rename the directory tree at the source onto the path.
    RenameDir { src: String, dest: String },
    /// Take a fresh backup file and rename the file at the path onto it.
    StashFile(String),
    /// Take a fresh backup directory and rename the tree at the path under it.
    StashDir(String),
    /// Take a fresh backup file and copy the file at the path into it.
    BackupFile(String),
}

/// The mathematical value of a [`Step`].
pub enum StepView {
    EnsureParentDir(Seq<char>),
    CreateFile(Seq<char>),
    WriteFile { dest: Seq<char>, content: Seq<char> },
    CopyFile { src: Seq<char>, dest: Seq<char> },
    CopyDir { src: Seq<char>, dest: Seq<char> },
    RenameFile { src: Seq<char>, dest: Seq<char> },
    RenameDir { src: Seq<char>, dest: Seq<char> },
    StashFile(Seq<char>),
    StashDir(Seq<char>),
    BackupFile(Seq<char>),
}

impl View for Step {
    type V = StepView;

    open spec fn view(&self) -> StepView {
        match self {
            Step::EnsureParentDir(p) => StepView::EnsureParentDir(p@),
            Step::CreateFile(p) => StepView::CreateFile(p@),
            Step::WriteFile { dest, content } => StepView::WriteFile {
                dest: dest@,
                content: content@,
            },
            Step::CopyFile { src, dest } => StepView::CopyFile { src: src@, dest: dest@ },
            Step::CopyDir { src, dest } => StepView::CopyDir { src: src@, dest: dest@ },
            Step::RenameFile { src, dest } => StepView::RenameFile { src: src@, dest: dest@ },
            Step::RenameDir { src, dest } => StepView::RenameDir { src: src@, dest: dest@ },
            Step::StashFile(p) => StepView::StashFile(p@),
            Step::StashDir(p) => StepView::StashDir(p@),
            Step::BackupFile(p) => StepView::BackupFile(p@),
        }
    }
}

/// Which change a plan records once its steps have been performed.
#[derive(Debug, Clone, Copy, PartialEq, Eq, Structural)]
pub enum ChangeKind {
    AddedFile,
    AddedDir,
    RemovedFile,
    RemovedDir,
    /// A file existed and was backed up before the caller rewrites it.
    ModifiedExisting,
    /// No file existed; whatever the caller creates is to be deleted on rollback.
    ModifiedNew,
}

impl ChangeKind {
    /// Whether the plan's steps take a backup, which the record then owns.
    pub open spec fn spec_needs_backup(self) -> bool {
        match self {
            ChangeKind::RemovedFile | ChangeKind::RemovedDir | ChangeKind::ModifiedExisting => true,
            _ => false,
        }
    }

    /// Whether the plan's steps take a backup, which the record then owns.
    #[verifier::when_used_as_spec(spec_needs_backup)]
    pub fn needs_backup(self) -> (r: bool)
        ensures
            r == self.spec_needs_backup(),
    {
        match self {
            ChangeKind::RemovedFile | ChangeKind::RemovedDir | ChangeKind::ModifiedExisting => true,
            _ => false,
        }
    }

    /// The record of this kind of change at the path, owning the backup.
    pub open spec fn record(self, path: Seq<char>, backup: Option<Seq<char>>) -> ChangeView {
        match self {
            ChangeKind::AddedFile => ChangeView::AddedFile(path),
            ChangeKind::AddedDir => ChangeView::AddedDir(path),
            ChangeKind::RemovedFile => ChangeView::RemovedFile(path, backup.unwrap()),
            ChangeKind::RemovedDir => ChangeView::RemovedDir(path, backup.unwrap()),
            ChangeKind::ModifiedExisting => ChangeView::ModifiedFile(path, backup),
            ChangeKind::ModifiedNew => ChangeView::ModifiedFile(path, None),
        }
    }
}

/// What a forward operation asks of the caller: perform `steps` in order,
/// and record the change as soon as the first `record_after` of them have
/// succeeded.
#[derive(Debug, Clone)]
pub struct Plan {
    pub steps: Vec<Step>,
    pub record_after: usize,
    pub kind: ChangeKind,
    pub path: String,
}

/// The mathematical value of a [`Plan`].
pub struct PlanView {
    pub steps: Seq<StepView>,
    pub record_after: nat,
    pub kind: ChangeKind,
    pub path: Seq<char>,
}

impl View for Plan {
    type V = PlanView;

    open spec fn view(&self) -> PlanView {
        PlanView {
            steps: self.steps@.map_values(|s: Step| s@),
            record_after: self.record_after as nat,
            kind: self.kind,
            path: self.path@,
        }
    }
}

impl Plan {
    /// The record that the plan's change leaves in the log, given the backup
    /// that its steps took.
    pub fn into_record(self, backup: Option<String>) -> (r: ChangeRecord)
        requires
            backup is Some <==> self.kind.spec_needs_backup(),
        ensures
            r@ == self.kind.record(
                self.path@,
                match backup {
                    Some(b) => Some(b@),
                    None => None,
                },
            ),
    {
        match self.kind {
            ChangeKind::AddedFile => ChangeRecord::AddedFile(self.path),
            ChangeKind::AddedDir => ChangeRecord::AddedDir(self.path),
            ChangeKind::RemovedFile => ChangeRecord::RemovedFile(self.path, backup.unwrap()),
            ChangeKind::RemovedDir => ChangeRecord::RemovedDir(self.path, backup.unwrap()),
            ChangeKind::ModifiedExisting => ChangeRecord::ModifiedFile(self.path, backup),
            ChangeKind::ModifiedNew => ChangeRecord::ModifiedFile(self.path, None),
        }
    }
}

} // verus!
