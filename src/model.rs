//! A model of the file system as a map from paths to what lies there, and
//! what rolling back does to it.
use vstd::prelude::*;

use crate::change::{ChangeView, UndoView};
use crate::plan::{ChangeKind, PlanView, StepView};
use crate::transaction::{placing, rollback_steps, single, undo_plan, write_plan, TransactionView};
use vstd::utf8::encode_utf8;

verus! {

/// What lies at a path: a file's bytes, or a directory tree as the bytes of
/// each file in it by relative path.
pub enum Node {
    File(Seq<u8>),
    Dir(Map<Seq<char>, Seq<u8>>),
}

/// The two states hold the same at every path of the region.
pub open spec fn agree_on(
    a: Map<Seq<char>, Node>,
    b: Map<Seq<char>, Node>,
    region: Set<Seq<char>>,
) -> bool {
    forall|k: Seq<char>|
        #[trigger] region.contains(k) ==> (a.contains_key(k) == b.contains_key(k) && (
        a.contains_key(k) ==> a[k] == b[k]))
}

/// What an undo step does to the file system. A step whose source is
/// missing fails and changes nothing.
pub open spec fn apply_undo(u: UndoView, fs: Map<Seq<char>, Node>) -> Map<Seq<char>, Node> {
    match u {
        UndoView::RemoveFile(p) => fs.remove(p),
        UndoView::RemoveDir(p) => fs.remove(p),
        UndoView::RestoreFile { backup, dest } => if fs.contains_key(backup) {
            fs.remove(backup).insert(dest, fs[backup])
        } else {
            fs
        },
        UndoView::RestoreDir { backup, dest } => if fs.contains_key(backup) {
            fs.remove(backup).insert(dest, fs[backup])
        } else {
            fs
        },
        UndoView::RemoveFileIfPresent(p) => if fs.contains_key(p) && fs[p] is File {
            fs.remove(p)
        } else {
            fs
        },
    }
}

/// The undo steps performed in order.
pub open spec fn run_undo(steps: Seq<UndoView>, fs: Map<Seq<char>, Node>) -> Map<
    Seq<char>,
    Node,
>
    decreases steps.len(),
{
    if steps.len() == 0 {
        fs
    } else {
        run_undo(steps.drop_first(), apply_undo(steps[0], fs))
    }
}

/// The paths that an undo step reads or writes.
pub open spec fn undo_within(u: UndoView, region: Set<Seq<char>>) -> bool {
    match u {
        UndoView::RemoveFile(p) => region.contains(p),
        UndoView::RemoveDir(p) => region.contains(p),
        UndoView::RestoreFile { backup, dest } => region.contains(backup) && region.contains(dest),
        UndoView::RestoreDir { backup, dest } => region.contains(backup) && region.contains(dest),
        UndoView::RemoveFileIfPresent(p) => region.contains(p),
    }
}

/// The change was made in going from `before` to `after`, as seen on the
/// region: its path and backup lie in the region, and nothing else there
/// changed. What the caller writes afterwards into a file that it added or
/// modified is part of the change.
pub open spec fn performed(
    c: ChangeView,
    before: Map<Seq<char>, Node>,
    after: Map<Seq<char>, Node>,
    region: Set<Seq<char>>,
) -> bool {
    &&& region.contains(c.path())
    &&& (c.backup() matches Some(b) ==> region.contains(b) && b != c.path() && !before.contains_key(
        b,
    ))
    &&& forall|k: Seq<char>|
        #[trigger] region.contains(k) && k != c.path() && c.backup() != Some(k) ==> (
        before.contains_key(k) == after.contains_key(k) && (before.contains_key(k) ==> before[k]
            == after[k]))
    &&& match c {
        ChangeView::AddedFile(p) => !before.contains_key(p),
        ChangeView::AddedDir(p) => !before.contains_key(p),
        ChangeView::RemovedFile(p, b) => before.contains_key(p) && !after.contains_key(p)
            && after.contains_key(b) && after[b] == before[p],
        ChangeView::RemovedDir(p, b) => before.contains_key(p) && !after.contains_key(p)
            && after.contains_key(b) && after[b] == before[p],
        ChangeView::ModifiedFile(p, Some(b)) => before.contains_key(p) && before[p] is File
            && after.contains_key(b) && after[b] == before[p],
        ChangeView::ModifiedFile(p, None) => if before.contains_key(p) {
            !(before[p] is File) && after.contains_key(p) && after[p] == before[p]
        } else {
            after.contains_key(p) ==> after[p] is File
        },
    }
}

proof fn lemma_undo_one(
    c: ChangeView,
    before: Map<Seq<char>, Node>,
    after: Map<Seq<char>, Node>,
    region: Set<Seq<char>>,
)
    requires
        performed(c, before, after, region),
    ensures
        agree_on(apply_undo(c.undo(), after), before, region),
        undo_within(c.undo(), region),
{
}

proof fn lemma_undo_congruent(
    u: UndoView,
    a: Map<Seq<char>, Node>,
    b: Map<Seq<char>, Node>,
    region: Set<Seq<char>>,
)
    requires
        agree_on(a, b, region),
        undo_within(u, region),
    ensures
        agree_on(apply_undo(u, a), apply_undo(u, b), region),
{
}

proof fn lemma_run_congruent(
    steps: Seq<UndoView>,
    a: Map<Seq<char>, Node>,
    b: Map<Seq<char>, Node>,
    region: Set<Seq<char>>,
)
    requires
        agree_on(a, b, region),
        forall|i: int| 0 <= i < steps.len() ==> undo_within(#[trigger] steps[i], region),
    ensures
        agree_on(run_undo(steps, a), run_undo(steps, b), region),
    decreases steps.len(),
{
    if steps.len() > 0 {
        lemma_undo_congruent(steps[0], a, b, region);
        assert forall|i: int| 0 <= i < steps.drop_first().len() implies undo_within(
            #[trigger] steps.drop_first()[i],
            region,
        ) by {
            assert(steps.drop_first()[i] == steps[i + 1]);
        }
        lemma_run_congruent(steps.drop_first(), apply_undo(steps[0], a), apply_undo(steps[0], b), region);
    }
}

/// Rollback visits the records newest first: the undo of the record at
/// position `i` of the log stands at position `len - 1 - i` of the plan, so
/// a later record is always undone before an earlier one.
pub proof fn lemma_rollback_newest_first(log: Seq<ChangeView>)
    ensures
        undo_plan(log).len() == log.len(),
        forall|i: int| 0 <= i < log.len() ==> undo_plan(log)[log.len() - 1 - i] == (
        #[trigger] log[i]).undo(),
{
}

/// Rolling back an open transaction restores every path of the region to
/// what it held before the first recorded change, whatever the changes
/// were, provided each record was performed as described on the region
/// and each backup was fresh when taken.
pub proof fn lemma_rollback_restores(
    tx: TransactionView,
    states: Seq<Map<Seq<char>, Node>>,
    region: Set<Seq<char>>,
)
    requires
        !tx.committed,
        states.len() == tx.log.len() + 1,
        forall|i: int|
            0 <= i < tx.log.len() ==> performed(#[trigger] tx.log[i], states[i], states[i + 1], region),
    ensures
        agree_on(run_undo(rollback_steps(tx), states[tx.log.len() as int]), states[0], region),
    decreases tx.log.len(),
{
    let log = tx.log;
    let n = log.len() as int;
    if n > 0 {
        let shorter = TransactionView { log: log.drop_last(), ..tx };
        let plan = undo_plan(log);
        let rest = undo_plan(log.drop_last());
        assert(plan.drop_first() =~= rest);
        assert(plan[0] == log[n - 1].undo());
        lemma_undo_one(log[n - 1], states[n - 1], states[n], region);
        let mid = apply_undo(plan[0], states[n]);
        assert forall|i: int| 0 <= i < rest.len() implies undo_within(#[trigger] rest[i], region) by {
            assert(rest[i] == log[n - 2 - i].undo());
            lemma_undo_one(log[n - 2 - i], states[n - 2 - i], states[n - 1 - i], region);
        }
        lemma_run_congruent(rest, mid, states[n - 1], region);
        assert forall|i: int|
            0 <= i < shorter.log.len() implies performed(
            #[trigger] shorter.log[i],
            states.drop_last()[i],
            states.drop_last()[i + 1],
            region,
        ) by {
            assert(shorter.log[i] == log[i]);
        }
        lemma_rollback_restores(shorter, states.drop_last(), region);
        assert(states.drop_last()[n - 1] == states[n - 1]);
        assert(states.drop_last()[0] == states[0]);
    } else {
        assert(rollback_steps(tx) =~= Seq::<UndoView>::empty());
    }
}

/// A file that existed when it was prepared for modification gets its
/// original bytes back on rollback, whatever the caller did to it since:
/// `overwritten` is what lies at the path then, or `None` if it was deleted.
pub proof fn lemma_modify_existing_restores(
    path: Seq<char>,
    backup: Seq<char>,
    before: Map<Seq<char>, Node>,
    overwritten: Option<Node>,
)
    requires
        before.contains_key(path),
        before[path] is File,
        !before.contains_key(backup),
        path != backup,
    ensures
        ({
            let backed_up = before.insert(backup, before[path]);
            let after = match overwritten {
                Some(n) => backed_up.insert(path, n),
                None => backed_up.remove(path),
            };
            apply_undo(ChangeKind::ModifiedExisting.record(path, Some(backup)).undo(), after)
                == before
        }),
{
    let backed_up = before.insert(backup, before[path]);
    let after = match overwritten {
        Some(n) => backed_up.insert(path, n),
        None => backed_up.remove(path),
    };
    assert(apply_undo(ChangeKind::ModifiedExisting.record(path, Some(backup)).undo(), after)
        =~= before);
}

/// A path that held no file when it was prepared for modification holds
/// none again after rollback, whatever file the caller created there:
/// `created` is its bytes, or `None` if the caller created nothing.
pub proof fn lemma_modify_new_restores(
    path: Seq<char>,
    before: Map<Seq<char>, Node>,
    created: Option<Seq<u8>>,
)
    requires
        !before.contains_key(path),
    ensures
        ({
            let after = match created {
                Some(bytes) => before.insert(path, Node::File(bytes)),
                None => before,
            };
            apply_undo(ChangeKind::ModifiedNew.record(path, None).undo(), after) == before
        }),
{
    let after = match created {
        Some(bytes) => before.insert(path, Node::File(bytes)),
        None => before,
    };
    assert(apply_undo(ChangeKind::ModifiedNew.record(path, None).undo(), after) =~= before);
}

/// What a forward step does to the file system when it succeeds. `backup`
/// is the fresh location that a step taking a backup was handed.
pub open spec fn apply_step(s: StepView, fs: Map<Seq<char>, Node>, backup: Seq<char>) -> Map<
    Seq<char>,
    Node,
> {
    match s {
        StepView::EnsureParentDir(_) => fs,
        StepView::CreateFile(p) => fs.insert(p, Node::File(Seq::empty())),
        StepView::WriteFile { dest, content } => fs.insert(dest, Node::File(encode_utf8(content))),
        StepView::CopyFile { src, dest } => fs.insert(dest, fs[src]),
        StepView::CopyDir { src, dest } => fs.insert(dest, fs[src]),
        StepView::RenameFile { src, dest } => fs.remove(src).insert(dest, fs[src]),
        StepView::RenameDir { src, dest } => fs.remove(src).insert(dest, fs[src]),
        StepView::StashFile(p) => fs.remove(p).insert(backup, fs[p]),
        StepView::StashDir(p) => fs.remove(p).insert(backup, fs[p]),
        StepView::BackupFile(p) => fs.insert(backup, fs[p]),
    }
}

/// The forward steps performed in order.
pub open spec fn run_steps(
    steps: Seq<StepView>,
    fs: Map<Seq<char>, Node>,
    backup: Seq<char>,
) -> Map<Seq<char>, Node>
    decreases steps.len(),
{
    if steps.len() == 0 {
        fs
    } else {
        run_steps(steps.drop_first(), apply_step(steps[0], fs, backup), backup)
    }
}

/// The plan is one that an operation of a transaction returns, with `src`
/// as its source and `content` as what it writes where it has them.
pub open spec fn operation_plan(plan: PlanView, src: Seq<char>, content: Seq<char>) -> bool {
    let p = plan.path;
    ||| plan == placing(ChangeKind::AddedFile, p, StepView::CreateFile(p))
    ||| plan == write_plan(p, content)
    ||| plan == placing(ChangeKind::AddedFile, p, StepView::CopyFile { src, dest: p })
    ||| plan == placing(ChangeKind::AddedDir, p, StepView::CopyDir { src, dest: p })
    ||| plan == placing(ChangeKind::AddedFile, p, StepView::RenameFile { src, dest: p })
    ||| plan == placing(ChangeKind::AddedDir, p, StepView::RenameDir { src, dest: p })
    ||| plan == single(ChangeKind::RemovedFile, p, StepView::StashFile(p))
    ||| plan == single(ChangeKind::RemovedDir, p, StepView::StashDir(p))
    ||| plan == single(ChangeKind::ModifiedExisting, p, StepView::BackupFile(p))
    ||| plan == single(ChangeKind::ModifiedNew, p, StepView::EnsureParentDir(p))
}

/// The plan copies or moves `src` into place.
pub open spec fn takes_source(plan: PlanView, src: Seq<char>) -> bool {
    let p = plan.path;
    ||| plan == placing(ChangeKind::AddedFile, p, StepView::CopyFile { src, dest: p })
    ||| plan == placing(ChangeKind::AddedDir, p, StepView::CopyDir { src, dest: p })
    ||| plan == placing(ChangeKind::AddedFile, p, StepView::RenameFile { src, dest: p })
    ||| plan == placing(ChangeKind::AddedDir, p, StepView::RenameDir { src, dest: p })
}

/// What the operation observed matches the state the plan runs on: an
/// add, copy or move found its destination free, a removal found its
/// target, a modification found a file exactly when it planned a backup.
/// The source of a copy or move exists, and lies outside the region; a
/// backup is fresh.
pub open spec fn plan_fits(
    plan: PlanView,
    src: Seq<char>,
    content: Seq<char>,
    before: Map<Seq<char>, Node>,
    backup: Seq<char>,
    region: Set<Seq<char>>,
) -> bool {
    let p = plan.path;
    &&& operation_plan(plan, src, content)
    &&& region.contains(p)
    &&& takes_source(plan, src) ==> before.contains_key(src) && !region.contains(src)
    &&& match plan.kind {
        ChangeKind::AddedFile | ChangeKind::AddedDir => !before.contains_key(p),
        ChangeKind::RemovedFile | ChangeKind::RemovedDir => before.contains_key(p),
        ChangeKind::ModifiedExisting => before.contains_key(p) && before[p] is File,
        ChangeKind::ModifiedNew => !(before.contains_key(p) && before[p] is File),
    }
    &&& plan.kind.spec_needs_backup() ==> region.contains(backup) && backup != p
        && !before.contains_key(backup)
}

/// The backup that the record of a plan owns.
pub open spec fn owned_backup(kind: ChangeKind, backup: Seq<char>) -> Option<Seq<char>> {
    if kind.spec_needs_backup() {
        Some(backup)
    } else {
        None
    }
}

/// What the caller does to the path after the steps: write a file there,
/// where the change lets it (a file it added, a file it prepared for
/// modification), or nothing.
pub open spec fn then_written(
    plan: PlanView,
    fs: Map<Seq<char>, Node>,
    written: Option<Seq<u8>>,
) -> Map<Seq<char>, Node> {
    match written {
        Some(bytes) => if plan.kind == ChangeKind::AddedFile || plan.kind
            == ChangeKind::ModifiedExisting || (plan.kind == ChangeKind::ModifiedNew
            && !fs.contains_key(plan.path)) {
            fs.insert(plan.path, Node::File(bytes))
        } else {
            fs
        },
        None => fs,
    }
}

proof fn lemma_plan_performed(
    plan: PlanView,
    src: Seq<char>,
    content: Seq<char>,
    before: Map<Seq<char>, Node>,
    backup: Seq<char>,
    written: Option<Seq<u8>>,
    region: Set<Seq<char>>,
)
    requires
        plan_fits(plan, src, content, before, backup, region),
    ensures
        performed(
            plan.kind.record(plan.path, owned_backup(plan.kind, backup)),
            before,
            then_written(plan, run_steps(plan.steps, before, backup), written),
            region,
        ),
{
    let steps = plan.steps;
    reveal_with_fuel(run_steps, 4);
    if steps.len() >= 1 {
        assert(steps.drop_first().len() == steps.len() - 1);
    }
    if steps.len() >= 2 {
        assert(steps.drop_first()[0] == steps[1]);
        assert(steps.drop_first().drop_first().len() == steps.len() - 2);
    }
    if steps.len() >= 3 {
        assert(steps.drop_first().drop_first()[0] == steps[2]);
        assert(steps.drop_first().drop_first().drop_first().len() == 0);
    }
    let after = run_steps(steps, before, backup);
    let s1 = apply_step(steps[0], before, backup);
    if steps.len() == 1 {
        assert(after == s1);
    } else if steps.len() == 2 {
        assert(after == apply_step(steps[1], s1, backup));
    } else {
        assert(after == apply_step(steps[2], apply_step(steps[1], s1, backup), backup));
    }
}

/// Whatever sequence of operations a transaction goes through, rolling it
/// back restores every path of the region to what it held at the start:
/// each operation's plan is run on the state its observation was made on,
/// the caller then writes what it likes into a file it added or prepared
/// for modification, and the record appended for it owns the backup that
/// the plan's steps took.
pub proof fn lemma_operations_roll_back(
    tx: TransactionView,
    plans: Seq<PlanView>,
    srcs: Seq<Seq<char>>,
    contents: Seq<Seq<char>>,
    backups: Seq<Seq<char>>,
    writes: Seq<Option<Seq<u8>>>,
    states: Seq<Map<Seq<char>, Node>>,
    region: Set<Seq<char>>,
)
    requires
        !tx.committed,
        tx.log.len() == plans.len(),
        srcs.len() == plans.len(),
        contents.len() == plans.len(),
        backups.len() == plans.len(),
        writes.len() == plans.len(),
        states.len() == plans.len() + 1,
        forall|i: int|
            0 <= i < plans.len() ==> {
                &&& plan_fits(#[trigger] plans[i], srcs[i], contents[i], states[i], backups[i], region)
                &&& states[i + 1] == then_written(
                    plans[i],
                    run_steps(plans[i].steps, states[i], backups[i]),
                    writes[i],
                )
                &&& tx.log[i] == plans[i].kind.record(
                    plans[i].path,
                    owned_backup(plans[i].kind, backups[i]),
                )
            },
    ensures
        agree_on(run_undo(rollback_steps(tx), states[plans.len() as int]), states[0], region),
{
    assert forall|i: int| 0 <= i < tx.log.len() implies performed(
        #[trigger] tx.log[i],
        states[i],
        states[i + 1],
        region,
    ) by {
        assert(plan_fits(plans[i], srcs[i], contents[i], states[i], backups[i], region));
        lemma_plan_performed(plans[i], srcs[i], contents[i], states[i], backups[i], writes[i], region);
    }
    lemma_rollback_restores(tx, states, region);
}

/// Discarding a committed transaction changes nothing on the file system.
pub proof fn lemma_committed_rolls_back_nothing(tx: TransactionView, fs: Map<Seq<char>, Node>)
    requires
        tx.committed,
    ensures
        rollback_steps(tx).len() == 0,
        run_undo(rollback_steps(tx), fs) == fs,
{
}

} // verus!
