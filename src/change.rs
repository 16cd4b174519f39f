use vstd::prelude::*;

verus! {

/// One completed change to the file system, with what is needed to undo it.
/// Paths are relative to the install root; backups are locations handed out
/// by the temporary storage.
#[derive(Debug, Clone)]
pub enum ChangeRecord {
    /// A file was created, copied or moved into place where nothing was.
    AddedFile(String),
    /// A directory tree was copied or moved into place where nothing was.
    AddedDir(String),
    /// The file at the path was moved into the backup file.
    RemovedFile(String, String),
    /// The tree at the path was moved under the backup directory.
    RemovedDir(String, String),
    /// The file at the path may have been rewritten since; the backup holds
    /// its earlier bytes, or is absent when there was no file before.
    ModifiedFile(String, Option<String>),
}

/// The mathematical value of a [`ChangeRecord`].
pub enum ChangeView {
    AddedFile(Seq<char>),
    AddedDir(Seq<char>),
    RemovedFile(Seq<char>, Seq<char>),
    RemovedDir(Seq<char>, Seq<char>),
    ModifiedFile(Seq<char>, Option<Seq<char>>),
}

impl View for ChangeRecord {
    type V = ChangeView;

    open spec fn view(&self) -> ChangeView {
        match self {
            ChangeRecord::AddedFile(p) => ChangeView::AddedFile(p@),
            ChangeRecord::AddedDir(p) => ChangeView::AddedDir(p@),
            ChangeRecord::RemovedFile(p, b) => ChangeView::RemovedFile(p@, b@),
            ChangeRecord::RemovedDir(p, b) => ChangeView::RemovedDir(p@, b@),
            ChangeRecord::ModifiedFile(p, b) => ChangeView::ModifiedFile(
                p@,
                match b {
                    Some(b) => Some(b@),
                    None => None,
                },
            ),
        }
    }
}

/// One primitive step of a rollback. Paths are relative to the install
/// root; backups are locations of the temporary storage.
#[derive(Debug, Clone)]
pub enum UndoStep {
    /// Delete the file at the path.
    RemoveFile(String),
    /// Delete the directory tree at the path.
    RemoveDir(String),
    /// Rename the backup file back onto the path.
    RestoreFile { backup: String, dest: String },
    /// Rename the tree kept under the backup directory back onto the path.
    RestoreDir { backup: String, dest: String },
    /// Delete the file at the path if there is a file there.
    RemoveFileIfPresent(String),
}

/// The mathematical value of an [`UndoStep`].
pub enum UndoView {
    RemoveFile(Seq<char>),
    RemoveDir(Seq<char>),
    RestoreFile { backup: Seq<char>, dest: Seq<char> },
    RestoreDir { backup: Seq<char>, dest: Seq<char> },
    RemoveFileIfPresent(Seq<char>),
}

impl View for UndoStep {
    type V = UndoView;

    open spec fn view(&self) -> UndoView {
        match self {
            UndoStep::RemoveFile(p) => UndoView::RemoveFile(p@),
            UndoStep::RemoveDir(p) => UndoView::RemoveDir(p@),
            UndoStep::RestoreFile { backup, dest } => UndoView::RestoreFile {
                backup: backup@,
                dest: dest@,
            },
            UndoStep::RestoreDir { backup, dest } => UndoView::RestoreDir {
                backup: backup@,
                dest: dest@,
            },
            UndoStep::RemoveFileIfPresent(p) => UndoView::RemoveFileIfPresent(p@),
        }
    }
}

impl ChangeView {
    /// The relative path that the change concerns.
    pub open spec fn path(self) -> Seq<char> {
        match self {
            ChangeView::AddedFile(p) => p,
            ChangeView::AddedDir(p) => p,
            ChangeView::RemovedFile(p, _) => p,
            ChangeView::RemovedDir(p, _) => p,
            ChangeView::ModifiedFile(p, _) => p,
        }
    }

    /// The backup that the change owns, if any.
    pub open spec fn backup(self) -> Option<Seq<char>> {
        match self {
            ChangeView::RemovedFile(_, b) => Some(b),
            ChangeView::RemovedDir(_, b) => Some(b),
            ChangeView::ModifiedFile(_, b) => b,
            _ => None,
        }
    }

    /// The step that inverts the change.
    pub open spec fn undo(self) -> UndoView {
        match self {
            ChangeView::AddedFile(p) => UndoView::RemoveFile(p),
            ChangeView::AddedDir(p) => UndoView::RemoveDir(p),
            ChangeView::RemovedFile(p, b) => UndoView::RestoreFile { backup: b, dest: p },
            ChangeView::RemovedDir(p, b) => UndoView::RestoreDir { backup: b, dest: p },
            ChangeView::ModifiedFile(p, Some(b)) => UndoView::RestoreFile { backup: b, dest: p },
            ChangeView::ModifiedFile(p, None) => UndoView::RemoveFileIfPresent(p),
        }
    }
}

impl ChangeRecord {
    /// The relative path that the change concerns.
    pub fn path(&self) -> (r: &String)
        ensures
            r@ == self@.path(),
    {
        match self {
            ChangeRecord::AddedFile(p) => p,
            ChangeRecord::AddedDir(p) => p,
            ChangeRecord::RemovedFile(p, _) => p,
            ChangeRecord::RemovedDir(p, _) => p,
            ChangeRecord::ModifiedFile(p, _) => p,
        }
    }

    /// The backup that the change owns, if any.
    pub fn backup(&self) -> (r: Option<&String>)
        ensures
            match r {
                Some(b) => self@.backup() == Some(b@),
                None => self@.backup() is None,
            },
    {
        match self {
            ChangeRecord::RemovedFile(_, b) => Some(b),
            ChangeRecord::RemovedDir(_, b) => Some(b),
            ChangeRecord::ModifiedFile(_, Some(b)) => Some(b),
            _ => None,
        }
    }

    /// The step that undoes this change.
    pub fn roll_back(&self) -> (r: UndoStep)
        ensures
            r@ == self@.undo(),
    {
        match self {
            ChangeRecord::AddedFile(p) => UndoStep::RemoveFile(p.clone()),
            ChangeRecord::AddedDir(p) => UndoStep::RemoveDir(p.clone()),
            ChangeRecord::RemovedFile(p, b) => UndoStep::RestoreFile {
                backup: b.clone(),
                dest: p.clone(),
            },
            ChangeRecord::RemovedDir(p, b) => UndoStep::RestoreDir {
                backup: b.clone(),
                dest: p.clone(),
            },
            ChangeRecord::ModifiedFile(p, Some(b)) => UndoStep::RestoreFile {
                backup: b.clone(),
                dest: p.clone(),
            },
            ChangeRecord::ModifiedFile(p, None) => UndoStep::RemoveFileIfPresent(p.clone()),
        }
    }
}

} // verus!
