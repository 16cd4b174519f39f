use vstd::prelude::*;

use crate::change::{ChangeRecord, ChangeView, UndoStep, UndoView};
use crate::error::{ErrorView, TransactionError};
use crate::plan::{ChangeKind, Plan, PlanView, Step, StepView};

verus! {

/// A path that operations accept: not empty and not absolute.
pub open spec fn valid_relpath(p: Seq<char>) -> bool {
    p.len() > 0 && p[0] != '/'
}

/// The error for a destination that is already occupied.
pub open spec fn conflict(component: Seq<char>, relpath: Seq<char>) -> ErrorView {
    ErrorView::ComponentConflict { name: component, path: relpath }
}

/// The plan that puts something new at the path: make its parent
/// directories, then `place`; recorded once both are done.
pub open spec fn placing(kind: ChangeKind, relpath: Seq<char>, place: StepView) -> PlanView {
    PlanView {
        steps: seq![StepView::EnsureParentDir(relpath), place],
        record_after: 2,
        kind,
        path: relpath,
    }
}

/// The plan of a single step, recorded once it is done.
pub open spec fn single(kind: ChangeKind, relpath: Seq<char>, step: StepView) -> PlanView {
    PlanView { steps: seq![step], record_after: 1, kind, path: relpath }
}

/// The plan of `write_file`: make the parents, create the file, write it.
pub open spec fn write_plan(relpath: Seq<char>, content: Seq<char>) -> PlanView {
    PlanView {
        steps: seq![
            StepView::EnsureParentDir(relpath),
            StepView::CreateFile(relpath),
            StepView::WriteFile { dest: relpath, content },
        ],
        record_after: 3,
        kind: ChangeKind::AddedFile,
        path: relpath,
    }
}

/// The steps that undo a log: the undo of each record, newest first.
pub open spec fn undo_plan(log: Seq<ChangeView>) -> Seq<UndoView> {
    Seq::new(log.len(), |i: int| log[log.len() - 1 - i].undo())
}

/// The steps that discarding a transaction performs: none once it is
/// committed, else the undo of its log.
pub open spec fn rollback_steps(v: TransactionView) -> Seq<UndoView> {
    if v.committed {
        Seq::empty()
    } else {
        undo_plan(v.log)
    }
}

/// Some record of the log owns the backup.
pub open spec fn backup_owned(log: Seq<ChangeView>, backup: Seq<char>) -> bool {
    exists|i: int| 0 <= i < log.len() && (#[trigger] log[i]).backup() == Some(backup)
}

/// No two records of the log own the same backup.
pub open spec fn backups_distinct(log: Seq<ChangeView>) -> bool {
    forall|i: int, j: int|
        0 <= i < j < log.len() && (#[trigger] log[i]).backup() is Some ==> log[i].backup()
            != (#[trigger] log[j]).backup()
}

/// A log of changes made under one install root, and whether it was
/// committed. Records are kept in the order in which the changes were made.
pub struct Transaction {
    prefix: String,
    temp: String,
    changes: Vec<ChangeRecord>,
    committed: bool,
}

/// The mathematical value of a [`Transaction`].
pub struct TransactionView {
    pub prefix: Seq<char>,
    pub temp: Seq<char>,
    pub log: Seq<ChangeView>,
    pub committed: bool,
}

impl Transaction {
    #[verifier::type_invariant]
    spec fn backups_unshared(self) -> bool {
        backups_distinct(self.changes@.map_values(|c: ChangeRecord| c@))
    }
}

impl View for Transaction {
    type V = TransactionView;

    closed spec fn view(&self) -> TransactionView {
        TransactionView {
            prefix: self.prefix@,
            temp: self.temp@,
            log: self.changes@.map_values(|c: ChangeRecord| c@),
            committed: self.committed,
        }
    }
}

fn placing_plan(kind: ChangeKind, relpath: String, place: Step) -> (r: Plan)
    ensures
        r@ == placing(kind, relpath@, place@),
{
    let mut steps: Vec<Step> = Vec::new();
    steps.push(Step::EnsureParentDir(relpath.clone()));
    steps.push(place);
    let r = Plan { steps, record_after: 2, kind, path: relpath };
    assert(r@.steps =~= placing(kind, relpath@, place@).steps);
    r
}

fn single_plan(kind: ChangeKind, relpath: String, step: Step) -> (r: Plan)
    ensures
        r@ == single(kind, relpath@, step@),
{
    let mut steps: Vec<Step> = Vec::new();
    steps.push(step);
    let r = Plan { steps, record_after: 1, kind, path: relpath };
    assert(r@.steps =~= single(kind, relpath@, step@).steps);
    r
}

/// Refuses a destination that is already occupied.
fn dest_check(component: &str, relpath: &String, dest_exists: bool) -> (r: Result<
    (),
    TransactionError,
>)
    ensures
        dest_exists <==> r is Err,
        r matches Err(e) ==> e@ == conflict(component@, relpath@),
{
    if dest_exists {
        Err(TransactionError::ComponentConflict { name: component.to_owned(), path: relpath.clone() })
    } else {
        Ok(())
    }
}

impl Transaction {
    /// An empty, open transaction over the install root `prefix`, taking its
    /// backups from the temporary storage `temp`.
    pub fn new(prefix: String, temp: String) -> (r: Transaction)
        ensures
            r@ == (TransactionView {
                prefix: prefix@,
                temp: temp@,
                log: Seq::empty(),
                committed: false,
            }),
    {
        let r = Transaction { prefix, temp, changes: Vec::new(), committed: false };
        assert(r@.log =~= Seq::<ChangeView>::empty());
        r
    }

    /// Marks every recorded change as final: nothing is rolled back after this.
    pub fn commit(&mut self)
        ensures
            final(self)@ == (TransactionView { committed: true, ..old(self)@ }),
    {
        proof {
            use_type_invariant(&*self);
        }
        self.committed = true;
    }

    /// Appends the record of a plan whose steps have been performed, with the
    /// backup that those steps took. A committed transaction records nothing
    /// more, and a backup belongs to one record only.
    pub fn complete(&mut self, plan: Plan, backup: Option<String>)
        requires
            !old(self)@.committed,
            backup is Some <==> plan.kind.spec_needs_backup(),
            backup matches Some(b) ==> !backup_owned(old(self)@.log, b@),
        ensures
            final(self)@ == (TransactionView {
                log: old(self)@.log.push(
                    plan.kind.record(
                        plan.path@,
                        match backup {
                            Some(b) => Some(b@),
                            None => None,
                        },
                    ),
                ),
                ..old(self)@
            }),
    {
        proof {
            use_type_invariant(&*self);
        }
        let record = plan.into_record(backup);
        let ghost log = self@.log;
        let mut changes: Vec<ChangeRecord> = Vec::new();
        std::mem::swap(&mut changes, &mut self.changes);
        assert(changes@.map_values(|c: ChangeRecord| c@) == log);
        changes.push(record);
        let ghost grown = changes@.map_values(|c: ChangeRecord| c@);
        assert(grown =~= log.push(record@));
        assert(backups_distinct(grown)) by {
            assert forall|i: int, j: int|
                0 <= i < j < grown.len() && (#[trigger] grown[i]).backup()
                    is Some implies grown[i].backup() != (#[trigger] grown[j]).backup() by {
                if j == log.len() {
                    assert(grown[i] == log[i]);
                    if grown[i].backup() == grown[j].backup() {
                        assert(backup_owned(log, grown[j].backup().unwrap()));
                    }
                } else {
                    assert(grown[i] == log[i] && grown[j] == log[j]);
                }
            }
        }
        self.changes = changes;
        assert(self@.log == grown);
    }

    /// Plans a new, empty file at the path, for the caller to write into.
    pub fn add_file(&self, component: &str, relpath: String, dest_exists: bool) -> (r: Result<
        Plan,
        TransactionError,
    >)
        requires
            valid_relpath(relpath@),
        ensures
            dest_exists <==> r is Err,
            r matches Err(e) ==> e@ == conflict(component@, relpath@),
            r matches Ok(p) ==> p@ == placing(
                ChangeKind::AddedFile,
                relpath@,
                StepView::CreateFile(relpath@),
            ),
    {
        dest_check(component, &relpath, dest_exists)?;
        let create = Step::CreateFile(relpath.clone());
        Ok(placing_plan(ChangeKind::AddedFile, relpath, create))
    }

    /// Plans a copy of the file at `src` to the path.
    pub fn copy_file(
        &self,
        component: &str,
        relpath: String,
        src: &str,
        dest_exists: bool,
    ) -> (r: Result<Plan, TransactionError>)
        requires
            valid_relpath(relpath@),
        ensures
            dest_exists <==> r is Err,
            r matches Err(e) ==> e@ == conflict(component@, relpath@),
            r matches Ok(p) ==> p@ == placing(
                ChangeKind::AddedFile,
                relpath@,
                StepView::CopyFile { src: src@, dest: relpath@ },
            ),
    {
        dest_check(component, &relpath, dest_exists)?;
        let copy = Step::CopyFile { src: src.to_owned(), dest: relpath.clone() };
        Ok(placing_plan(ChangeKind::AddedFile, relpath, copy))
    }

    /// Plans a recursive copy of the directory at `src` to the path.
    pub fn copy_dir(
        &self,
        component: &str,
        relpath: String,
        src: &str,
        dest_exists: bool,
    ) -> (r: Result<Plan, TransactionError>)
        requires
            valid_relpath(relpath@),
        ensures
            dest_exists <==> r is Err,
            r matches Err(e) ==> e@ == conflict(component@, relpath@),
            r matches Ok(p) ==> p@ == placing(
                ChangeKind::AddedDir,
                relpath@,
                StepView::CopyDir { src: src@, dest: relpath@ },
            ),
    {
        dest_check(component, &relpath, dest_exists)?;
        let copy = Step::CopyDir { src: src.to_owned(), dest: relpath.clone() };
        Ok(placing_plan(ChangeKind::AddedDir, relpath, copy))
    }

    /// Plans moving the file at the path aside into a fresh backup file.
    pub fn remove_file(&self, component: &str, relpath: String, target_exists: bool) -> (r:
        Result<Plan, TransactionError>)
        requires
            valid_relpath(relpath@),
        ensures
            !target_exists <==> r is Err,
            r matches Err(e) ==> e@ == (ErrorView::ComponentMissingFile {
                name: component@,
                path: relpath@,
            }),
            r matches Ok(p) ==> p@ == single(
                ChangeKind::RemovedFile,
                relpath@,
                StepView::StashFile(relpath@),
            ),
    {
        if !target_exists {
            return Err(
                TransactionError::ComponentMissingFile { name: component.to_owned(), path: relpath },
            );
        }
        let stash = Step::StashFile(relpath.clone());
        Ok(single_plan(ChangeKind::RemovedFile, relpath, stash))
    }

    /// Plans moving the directory tree at the path aside under a fresh backup
    /// directory.
    pub fn remove_dir(&self, component: &str, relpath: String, target_exists: bool) -> (r:
        Result<Plan, TransactionError>)
        requires
            valid_relpath(relpath@),
        ensures
            !target_exists <==> r is Err,
            r matches Err(e) ==> e@ == (ErrorView::ComponentMissingDir {
                name: component@,
                path: relpath@,
            }),
            r matches Ok(p) ==> p@ == single(
                ChangeKind::RemovedDir,
                relpath@,
                StepView::StashDir(relpath@),
            ),
    {
        if !target_exists {
            return Err(
                TransactionError::ComponentMissingDir { name: component.to_owned(), path: relpath },
            );
        }
        let stash = Step::StashDir(relpath.clone());
        Ok(single_plan(ChangeKind::RemovedDir, relpath, stash))
    }

    /// Plans a new file at the path holding `content`. The file is recorded
    /// only once the content is written: if creating or writing fails, the
    /// caller deletes any file it created there, and the log stays as it was.
    pub fn write_file(
        &self,
        component: &str,
        relpath: String,
        content: String,
        dest_exists: bool,
    ) -> (r: Result<Plan, TransactionError>)
        requires
            valid_relpath(relpath@),
        ensures
            dest_exists <==> r is Err,
            r matches Err(e) ==> e@ == conflict(component@, relpath@),
            r matches Ok(p) ==> p@ == write_plan(relpath@, content@),
            r matches Ok(p) ==> p@.record_after == p@.steps.len(),
    {
        dest_check(component, &relpath, dest_exists)?;
        let mut steps: Vec<Step> = Vec::new();
        steps.push(Step::EnsureParentDir(relpath.clone()));
        steps.push(Step::CreateFile(relpath.clone()));
        steps.push(Step::WriteFile { dest: relpath.clone(), content });
        let r = Plan { steps, record_after: 3, kind: ChangeKind::AddedFile, path: relpath };
        assert(r@.steps =~= write_plan(relpath@, content@).steps);
        Ok(r)
    }

    /// Prepares the path for the caller to rewrite at will. An existing file
    /// is copied into a fresh backup and left in place; otherwise the parent
    /// directories are made, and whatever file the caller creates is deleted
    /// on rollback.
    pub fn modify_file(&self, relpath: String, is_file: bool) -> (r: Plan)
        requires
            valid_relpath(relpath@),
        ensures
            is_file ==> r@ == single(
                ChangeKind::ModifiedExisting,
                relpath@,
                StepView::BackupFile(relpath@),
            ),
            !is_file ==> r@ == single(
                ChangeKind::ModifiedNew,
                relpath@,
                StepView::EnsureParentDir(relpath@),
            ),
    {
        if is_file {
            let backup = Step::BackupFile(relpath.clone());
            single_plan(ChangeKind::ModifiedExisting, relpath, backup)
        } else {
            let parent = Step::EnsureParentDir(relpath.clone());
            single_plan(ChangeKind::ModifiedNew, relpath, parent)
        }
    }

    /// Plans renaming the file at `src` onto the path.
    pub fn move_file(
        &self,
        component: &str,
        relpath: String,
        src: &str,
        dest_exists: bool,
    ) -> (r: Result<Plan, TransactionError>)
        requires
            valid_relpath(relpath@),
        ensures
            dest_exists <==> r is Err,
            r matches Err(e) ==> e@ == conflict(component@, relpath@),
            r matches Ok(p) ==> p@ == placing(
                ChangeKind::AddedFile,
                relpath@,
                StepView::RenameFile { src: src@, dest: relpath@ },
            ),
    {
        dest_check(component, &relpath, dest_exists)?;
        let rename = Step::RenameFile { src: src.to_owned(), dest: relpath.clone() };
        Ok(placing_plan(ChangeKind::AddedFile, relpath, rename))
    }

    /// Plans renaming the directory tree at `src` onto the path.
    pub fn move_dir(
        &self,
        component: &str,
        relpath: String,
        src: &str,
        dest_exists: bool,
    ) -> (r: Result<Plan, TransactionError>)
        requires
            valid_relpath(relpath@),
        ensures
            dest_exists <==> r is Err,
            r matches Err(e) ==> e@ == conflict(component@, relpath@),
            r matches Ok(p) ==> p@ == placing(
                ChangeKind::AddedDir,
                relpath@,
                StepView::RenameDir { src: src@, dest: relpath@ },
            ),
    {
        dest_check(component, &relpath, dest_exists)?;
        let rename = Step::RenameDir { src: src.to_owned(), dest: relpath.clone() };
        Ok(placing_plan(ChangeKind::AddedDir, relpath, rename))
    }

    /// Whether discarding the transaction now rolls it back.
    pub fn needs_rollback(&self) -> (r: bool)
        ensures
            r == !self@.committed,
    {
        !self.committed
    }

    /// The steps that discarding the transaction performs: nothing once it is
    /// committed, else the undo of every record, newest first.
    pub fn rollback_plan(&self) -> (r: Vec<UndoStep>)
        ensures
            r@.map_values(|u: UndoStep| u@) == rollback_steps(self@),
    {
        let mut r: Vec<UndoStep> = Vec::new();
        if self.committed {
            assert(r@.map_values(|u: UndoStep| u@) =~= Seq::<UndoView>::empty());
            return r;
        }
        let ghost log = self@.log;
        let n = self.changes.len();
        let mut i: usize = n;
        while i > 0
            invariant
                i <= n,
                n == self.changes@.len(),
                log == self.changes@.map_values(|c: ChangeRecord| c@),
                r@.map_values(|u: UndoStep| u@) =~= Seq::new(
                    (n - i) as nat,
                    |j: int| log[n - 1 - j].undo(),
                ),
            decreases i,
        {
            let step = self.changes[i - 1].roll_back();
            assert(log[i - 1] == self.changes@[i - 1]@);
            let ghost before = r@.map_values(|u: UndoStep| u@);
            r.push(step);
            assert(r@.map_values(|u: UndoStep| u@) =~= before.push(step@));
            i = i - 1;
            assert(r@.map_values(|u: UndoStep| u@) =~= Seq::new(
                (n - i) as nat,
                |j: int| log[n - 1 - j].undo(),
            ));
        }
        assert(r@.map_values(|u: UndoStep| u@) =~= undo_plan(log));
        r
    }

    /// Whether some record already owns the backup.
    pub fn owns_backup(&self, backup: &String) -> (r: bool)
        ensures
            r == backup_owned(self@.log, backup@),
    {
        let ghost log = self@.log;
        let mut i: usize = 0;
        while i < self.changes.len()
            invariant
                i <= self.changes@.len(),
                log == self.changes@.map_values(|c: ChangeRecord| c@),
                forall|j: int| 0 <= j < i ==> (#[trigger] log[j]).backup() != Some(backup@),
            decreases self.changes@.len() - i,
        {
            assert(log[i as int] == self.changes@[i as int]@);
            if let Some(b) = self.changes[i].backup() {
                if b.eq(backup) {
                    return true;
                }
            }
            i = i + 1;
        }
        false
    }

    /// The records, oldest first. No two of them own the same backup.
    pub fn changes(&self) -> (r: &Vec<ChangeRecord>)
        ensures
            r@.map_values(|c: ChangeRecord| c@) == self@.log,
            backups_distinct(self@.log),
    {
        proof {
            use_type_invariant(self);
        }
        &self.changes
    }

    /// The install root against which every relative path is resolved.
    pub fn prefix(&self) -> (r: &String)
        ensures
            r@ == self@.prefix,
    {
        &self.prefix
    }

    /// The temporary storage from which backups are taken.
    pub fn temp(&self) -> (r: &String)
        ensures
            r@ == self@.temp,
    {
        &self.temp
    }
}

} // verus!
