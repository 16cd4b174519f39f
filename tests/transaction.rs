use std::collections::HashMap;

use fs_transaction::{
    ChangeKind, ChangeRecord, Plan, Step, Transaction, TransactionError, UndoStep,
};

#[derive(Clone, Debug, PartialEq)]
enum Entry {
    File(String),
    Dir(String),
}

/// A file system in memory that performs plans and undo steps.
struct MemFs {
    map: HashMap<String, Entry>,
    backups_taken: usize,
}

impl MemFs {
    fn new() -> MemFs {
        MemFs { map: HashMap::new(), backups_taken: 0 }
    }

    fn with(entries: &[(&str, Entry)]) -> MemFs {
        let mut fs = MemFs::new();
        for (p, e) in entries {
            fs.map.insert(p.to_string(), e.clone());
        }
        fs
    }

    fn has(&self, p: &str) -> bool {
        self.map.contains_key(p)
    }

    fn is_file(&self, p: &str) -> bool {
        matches!(self.map.get(p), Some(Entry::File(_)))
    }

    fn get(&self, p: &str) -> Option<Entry> {
        self.map.get(p).cloned()
    }

    fn new_backup(&mut self) -> String {
        self.backups_taken += 1;
        format!("tmp/{}", self.backups_taken)
    }

    fn rename(&mut self, src: &str, dest: &str) -> Result<(), String> {
        let e = self.map.remove(src).ok_or(format!("missing {}", src))?;
        self.map.insert(dest.to_string(), e);
        Ok(())
    }

    fn copy(&mut self, src: &str, dest: &str) -> Result<(), String> {
        let e = self.get(src).ok_or(format!("missing {}", src))?;
        self.map.insert(dest.to_string(), e);
        Ok(())
    }

    fn perform(&mut self, tx: &mut Transaction, plan: Plan) -> Result<(), String> {
        let mut backup: Option<String> = None;
        let mut recorded = false;
        for (i, step) in plan.steps.iter().enumerate() {
            if i == plan.record_after {
                tx.complete(plan.clone(), backup.clone());
                recorded = true;
            }
            match step {
                Step::EnsureParentDir(_) => {}
                Step::CreateFile(p) => {
                    self.map.insert(p.clone(), Entry::File(String::new()));
                }
                Step::WriteFile { dest, content } => {
                    self.map.insert(dest.clone(), Entry::File(content.clone()));
                }
                Step::CopyFile { src, dest } | Step::CopyDir { src, dest } => self.copy(src, dest)?,
                Step::RenameFile { src, dest } | Step::RenameDir { src, dest } => {
                    self.rename(src, dest)?
                }
                Step::StashFile(p) | Step::StashDir(p) => {
                    let b = self.new_backup();
                    self.rename(p, &b)?;
                    backup = Some(b);
                }
                Step::BackupFile(p) => {
                    let b = self.new_backup();
                    self.copy(p, &b)?;
                    backup = Some(b);
                }
            }
        }
        if !recorded {
            tx.complete(plan, backup);
        }
        Ok(())
    }

    fn undo(&mut self, step: &UndoStep) -> Result<(), String> {
        match step {
            UndoStep::RemoveFile(p) | UndoStep::RemoveDir(p) => {
                self.map.remove(p).map(|_| ()).ok_or(format!("missing {}", p))
            }
            UndoStep::RestoreFile { backup, dest } | UndoStep::RestoreDir { backup, dest } => {
                self.rename(backup, dest)
            }
            UndoStep::RemoveFileIfPresent(p) => {
                if self.is_file(p) {
                    self.map.remove(p);
                }
                Ok(())
            }
        }
    }

    /// What discarding the transaction does: every undo step, errors skipped.
    fn discard(&mut self, tx: Transaction) -> usize {
        let mut errors = 0;
        for step in tx.rollback_plan().iter() {
            if self.undo(step).is_err() {
                errors += 1;
            }
        }
        errors
    }
}

fn file(s: &str) -> Entry {
    Entry::File(s.to_string())
}

fn tx() -> Transaction {
    Transaction::new("/opt/prefix".to_string(), "/opt/tmp".to_string())
}

fn add(fs: &mut MemFs, tx: &mut Transaction, rel: &str) -> Result<(), TransactionError> {
    let plan = tx.add_file("comp", rel.to_string(), fs.has(rel))?;
    fs.perform(tx, plan).unwrap();
    Ok(())
}

#[test]
fn add_file_then_commit_keeps_file() {
    let mut fs = MemFs::new();
    let mut t = tx();
    add(&mut fs, &mut t, "bin/tool").unwrap();
    t.commit();
    assert!(t.rollback_plan().is_empty());
    assert!(!t.needs_rollback());
    assert_eq!(fs.discard(t), 0);
    assert_eq!(fs.get("bin/tool"), Some(file("")));
    assert_eq!(fs.backups_taken, 0);
}

#[test]
fn remove_file_then_discard_restores_content() {
    let mut fs = MemFs::with(&[("bin/tool", file("v1"))]);
    let mut t = tx();
    let plan = t.remove_file("comp", "bin/tool".to_string(), fs.has("bin/tool")).unwrap();
    fs.perform(&mut t, plan).unwrap();
    assert!(!fs.has("bin/tool"));
    assert_eq!(fs.discard(t), 0);
    assert_eq!(fs.get("bin/tool"), Some(file("v1")));
    assert!(!fs.has("tmp/1"));
}

#[test]
fn add_file_twice_conflicts() {
    let mut fs = MemFs::new();
    let mut t = tx();
    add(&mut fs, &mut t, "a").unwrap();
    let e = add(&mut fs, &mut t, "a").unwrap_err();
    assert!(matches!(e, TransactionError::ComponentConflict { .. }));
    assert_eq!(e.component(), "comp");
    assert_eq!(e.path(), "a");
    assert_eq!(t.changes().len(), 1);
}

#[test]
fn modify_existing_then_discard_restores() {
    let mut fs = MemFs::with(&[("cfg.toml", file("x"))]);
    let mut t = tx();
    let plan = t.modify_file("cfg.toml".to_string(), fs.is_file("cfg.toml"));
    assert_eq!(plan.kind, ChangeKind::ModifiedExisting);
    fs.perform(&mut t, plan).unwrap();
    assert_eq!(fs.get("cfg.toml"), Some(file("x")));
    fs.map.insert("cfg.toml".to_string(), file("y"));
    assert_eq!(fs.discard(t), 0);
    assert_eq!(fs.get("cfg.toml"), Some(file("x")));
}

#[test]
fn remove_missing_dir_fails() {
    let fs = MemFs::new();
    let t = tx();
    let e = t.remove_dir("comp", "data".to_string(), fs.has("data")).unwrap_err();
    assert!(matches!(e, TransactionError::ComponentMissingDir { .. }));
    assert_eq!(e.path(), "data");
    assert_eq!(t.changes().len(), 0);
    assert_eq!(fs.backups_taken, 0);
}

#[test]
fn remove_missing_file_fails() {
    let fs = MemFs::new();
    let t = tx();
    let e = t.remove_file("comp", "bin/tool".to_string(), fs.has("bin/tool")).unwrap_err();
    assert!(matches!(e, TransactionError::ComponentMissingFile { .. }));
    assert_eq!(e.component(), "comp");
    assert_eq!(t.changes().len(), 0);
}

#[test]
fn every_placing_operation_conflicts_on_occupied_path() {
    let fs = MemFs::with(&[("x", file("old")), ("/src/f", file("new"))]);
    let t = tx();
    let occupied = fs.has("x");
    let results = vec![
        t.add_file("c", "x".to_string(), occupied).map(|_| ()),
        t.write_file("c", "x".to_string(), "z".to_string(), occupied).map(|_| ()),
        t.copy_file("c", "x".to_string(), "/src/f", occupied).map(|_| ()),
        t.copy_dir("c", "x".to_string(), "/src/f", occupied).map(|_| ()),
        t.move_file("c", "x".to_string(), "/src/f", occupied).map(|_| ()),
        t.move_dir("c", "x".to_string(), "/src/f", occupied).map(|_| ()),
    ];
    for r in results {
        match r {
            Err(TransactionError::ComponentConflict { name, path }) => {
                assert_eq!(name, "c");
                assert_eq!(path, "x");
            }
            other => panic!("expected a conflict, got {:?}", other),
        }
    }
    assert_eq!(t.changes().len(), 0);
    assert_eq!(fs.get("x"), Some(file("old")));
}

#[test]
fn rollback_undoes_newest_first() {
    let mut fs = MemFs::with(&[("/src/d", Entry::Dir("tree".to_string()))]);
    let mut t = tx();
    let plan = t.move_dir("c", "lib".to_string(), "/src/d", fs.has("lib")).unwrap();
    fs.perform(&mut t, plan).unwrap();
    add(&mut fs, &mut t, "lib/f").unwrap();
    let plan = t.modify_file("lib/g".to_string(), fs.is_file("lib/g"));
    fs.perform(&mut t, plan).unwrap();
    let undo = t.rollback_plan();
    assert_eq!(undo.len(), 3);
    assert!(matches!(&undo[0], UndoStep::RemoveFileIfPresent(p) if p == "lib/g"));
    assert!(matches!(&undo[1], UndoStep::RemoveFile(p) if p == "lib/f"));
    assert!(matches!(&undo[2], UndoStep::RemoveDir(p) if p == "lib"));
}

#[test]
fn mixed_sequence_rolls_back_to_start() {
    let start = MemFs::with(&[
        ("bin/old", file("o")),
        ("share", Entry::Dir("docs".to_string())),
        ("etc/cfg", file("c1")),
    ]);
    let mut fs = MemFs::with(&[
        ("bin/old", file("o")),
        ("share", Entry::Dir("docs".to_string())),
        ("etc/cfg", file("c1")),
        ("/src/new", file("n")),
        ("/src/tree", Entry::Dir("t".to_string())),
    ]);
    let mut t = tx();
    let p = t.remove_file("c", "bin/old".to_string(), fs.has("bin/old")).unwrap();
    fs.perform(&mut t, p).unwrap();
    let p = t.remove_dir("c", "share".to_string(), fs.has("share")).unwrap();
    fs.perform(&mut t, p).unwrap();
    let p = t.copy_file("c", "bin/new".to_string(), "/src/new", fs.has("bin/new")).unwrap();
    fs.perform(&mut t, p).unwrap();
    let p = t.copy_dir("c", "share2".to_string(), "/src/tree", fs.has("share2")).unwrap();
    fs.perform(&mut t, p).unwrap();
    let p = t.write_file("c", "README".to_string(), "hi".to_string(), fs.has("README")).unwrap();
    fs.perform(&mut t, p).unwrap();
    let p = t.modify_file("etc/cfg".to_string(), fs.is_file("etc/cfg"));
    fs.perform(&mut t, p).unwrap();
    fs.map.insert("etc/cfg".to_string(), file("c2"));
    let p = t.modify_file("etc/new".to_string(), fs.is_file("etc/new"));
    fs.perform(&mut t, p).unwrap();
    fs.map.insert("etc/new".to_string(), file("fresh"));
    assert_eq!(t.changes().len(), 7);
    assert_eq!(fs.get("README"), Some(file("hi")));
    assert_eq!(fs.discard(t), 0);
    for p in ["bin/old", "share", "etc/cfg", "bin/new", "share2", "README", "etc/new"] {
        assert_eq!(fs.get(p), start.get(p), "path {}", p);
    }
    for i in 1..=3 {
        assert!(!fs.has(&format!("tmp/{}", i)));
    }
}

#[test]
fn modify_new_then_discard_deletes_created_file() {
    let mut fs = MemFs::new();
    let mut t = tx();
    let plan = t.modify_file("new.toml".to_string(), fs.is_file("new.toml"));
    assert_eq!(plan.kind, ChangeKind::ModifiedNew);
    assert!(matches!(&plan.steps[..], [Step::EnsureParentDir(p)] if p == "new.toml"));
    fs.perform(&mut t, plan).unwrap();
    fs.map.insert("new.toml".to_string(), file("made"));
    assert_eq!(fs.discard(t), 0);
    assert!(!fs.has("new.toml"));
    assert_eq!(fs.backups_taken, 0);
}

#[test]
fn modify_new_untouched_rolls_back_quietly() {
    let mut fs = MemFs::new();
    let mut t = tx();
    let plan = t.modify_file("never".to_string(), false);
    fs.perform(&mut t, plan).unwrap();
    assert_eq!(fs.discard(t), 0);
    assert!(!fs.has("never"));
}

#[test]
fn commit_then_discard_changes_nothing() {
    let mut fs = MemFs::with(&[("bin/tool", file("v1"))]);
    let mut t = tx();
    let p = t.remove_file("comp", "bin/tool".to_string(), true).unwrap();
    fs.perform(&mut t, p).unwrap();
    add(&mut fs, &mut t, "bin/other").unwrap();
    let before = fs.map.clone();
    t.commit();
    assert_eq!(t.changes().len(), 2);
    assert_eq!(fs.discard(t), 0);
    assert_eq!(fs.map, before);
}

#[test]
fn open_transaction_needs_rollback() {
    let t = tx();
    assert!(t.needs_rollback());
    assert!(t.rollback_plan().is_empty());
    assert_eq!(t.prefix(), "/opt/prefix");
    assert_eq!(t.temp(), "/opt/tmp");
}

#[test]
fn write_file_records_once_written() {
    let t = tx();
    let plan = t.write_file("c", "doc/a".to_string(), "body".to_string(), false).unwrap();
    assert_eq!(plan.record_after, 3);
    assert_eq!(plan.record_after, plan.steps.len());
    assert_eq!(plan.kind, ChangeKind::AddedFile);
    assert_eq!(plan.path, "doc/a");
    assert!(matches!(&plan.steps[..], [
        Step::EnsureParentDir(a),
        Step::CreateFile(b),
        Step::WriteFile { dest, content },
    ] if a == "doc/a" && b == "doc/a" && dest == "doc/a" && content == "body"));
}

#[test]
fn placing_plans_name_source_and_destination() {
    let t = tx();
    let p = t.copy_file("c", "bin/x".to_string(), "/s/x", false).unwrap();
    assert_eq!((p.kind, p.record_after), (ChangeKind::AddedFile, 2));
    assert!(matches!(&p.steps[..], [Step::EnsureParentDir(a), Step::CopyFile { src, dest }]
        if a == "bin/x" && src == "/s/x" && dest == "bin/x"));
    let p = t.copy_dir("c", "lib".to_string(), "/s/lib", false).unwrap();
    assert_eq!(p.kind, ChangeKind::AddedDir);
    assert!(matches!(&p.steps[1], Step::CopyDir { src, dest } if src == "/s/lib" && dest == "lib"));
    let p = t.move_file("c", "bin/y".to_string(), "/s/y", false).unwrap();
    assert_eq!(p.kind, ChangeKind::AddedFile);
    assert!(matches!(&p.steps[1], Step::RenameFile { src, dest } if src == "/s/y" && dest == "bin/y"));
    let p = t.move_dir("c", "share".to_string(), "/s/share", false).unwrap();
    assert_eq!(p.kind, ChangeKind::AddedDir);
    assert!(matches!(&p.steps[1], Step::RenameDir { src, dest }
        if src == "/s/share" && dest == "share"));
    let p = t.add_file("c", "bin/z".to_string(), false).unwrap();
    assert!(matches!(&p.steps[..], [Step::EnsureParentDir(_), Step::CreateFile(z)] if z == "bin/z"));
}

#[test]
fn removal_plans_take_a_backup() {
    let t = tx();
    let p = t.remove_file("c", "f".to_string(), true).unwrap();
    assert_eq!((p.kind, p.record_after), (ChangeKind::RemovedFile, 1));
    assert!(p.kind.needs_backup());
    assert!(matches!(&p.steps[..], [Step::StashFile(f)] if f == "f"));
    let p = t.remove_dir("c", "d".to_string(), true).unwrap();
    assert_eq!(p.kind, ChangeKind::RemovedDir);
    assert!(matches!(&p.steps[..], [Step::StashDir(d)] if d == "d"));
    let p = t.modify_file("m".to_string(), true);
    assert!(p.kind.needs_backup());
    assert!(matches!(&p.steps[..], [Step::BackupFile(m)] if m == "m"));
    assert!(!ChangeKind::AddedFile.needs_backup());
    assert!(!ChangeKind::ModifiedNew.needs_backup());
}

#[test]
fn complete_appends_records_in_order() {
    let mut t = tx();
    let p = t.remove_dir("c", "d".to_string(), true).unwrap();
    t.complete(p, Some("/opt/tmp/b1".to_string()));
    let p = t.modify_file("m".to_string(), false);
    t.complete(p, None);
    let changes = t.changes();
    assert_eq!(changes.len(), 2);
    assert!(matches!(&changes[0], ChangeRecord::RemovedDir(p, b) if p == "d" && b == "/opt/tmp/b1"));
    assert!(matches!(&changes[1], ChangeRecord::ModifiedFile(p, None) if p == "m"));
    assert_eq!(changes[0].path(), "d");
}

#[test]
fn each_record_has_its_inverse() {
    let cases = vec![
        (ChangeRecord::AddedFile("a".to_string()), UndoStep::RemoveFile("a".to_string())),
        (ChangeRecord::AddedDir("d".to_string()), UndoStep::RemoveDir("d".to_string())),
        (
            ChangeRecord::RemovedFile("f".to_string(), "b".to_string()),
            UndoStep::RestoreFile { backup: "b".to_string(), dest: "f".to_string() },
        ),
        (
            ChangeRecord::RemovedDir("t".to_string(), "bd".to_string()),
            UndoStep::RestoreDir { backup: "bd".to_string(), dest: "t".to_string() },
        ),
        (
            ChangeRecord::ModifiedFile("m".to_string(), Some("bm".to_string())),
            UndoStep::RestoreFile { backup: "bm".to_string(), dest: "m".to_string() },
        ),
        (
            ChangeRecord::ModifiedFile("n".to_string(), None),
            UndoStep::RemoveFileIfPresent("n".to_string()),
        ),
    ];
    for (record, expected) in cases {
        assert_eq!(format!("{:?}", record.roll_back()), format!("{:?}", expected));
    }
}

#[test]
fn failed_undo_step_does_not_stop_rollback() {
    let mut fs = MemFs::new();
    let mut t = tx();
    add(&mut fs, &mut t, "a").unwrap();
    add(&mut fs, &mut t, "b").unwrap();
    fs.map.remove("b");
    assert_eq!(fs.discard(t), 1);
    assert!(!fs.has("a"));
}

#[test]
fn backups_owned_by_records_are_known() {
    let mut t = tx();
    assert!(!t.owns_backup(&"/opt/tmp/b1".to_string()));
    let p = t.remove_file("c", "f".to_string(), true).unwrap();
    t.complete(p, Some("/opt/tmp/b1".to_string()));
    let p = t.add_file("c", "g".to_string(), false).unwrap();
    t.complete(p, None);
    assert!(t.owns_backup(&"/opt/tmp/b1".to_string()));
    assert!(!t.owns_backup(&"/opt/tmp/b2".to_string()));
    assert_eq!(t.changes()[0].backup(), Some(&"/opt/tmp/b1".to_string()));
    assert_eq!(t.changes()[1].backup(), None);
}
