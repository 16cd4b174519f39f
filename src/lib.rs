//! An all-or-nothing log of file-system changes for an installer.
//!
//! The library decides; the caller performs. Each operation on a
//! [`Transaction`] looks at what the caller observed of the file system and
//! answers with either a classified error or a [`Plan`]: the primitive steps
//! to perform and the change to record once they succeeded. Rolling back is
//! likewise a list of undo steps, newest change first.

mod change;
mod error;
mod model;
mod plan;
mod transaction;

pub use change::{ChangeRecord, ChangeView, UndoStep, UndoView};
pub use error::{ErrorView, TransactionError};
pub use model::{
    agree_on, apply_step, apply_undo, lemma_committed_rolls_back_nothing,
    lemma_modify_existing_restores, lemma_modify_new_restores, lemma_operations_roll_back,
    lemma_rollback_newest_first, lemma_rollback_restores, operation_plan, owned_backup, performed,
    plan_fits, run_steps, takes_source, run_undo, then_written, Node,
};
pub use plan::{ChangeKind, Plan, PlanView, Step, StepView};
pub use transaction::{
    backup_owned, backups_distinct, conflict, placing, rollback_steps, single, undo_plan, valid_relpath, write_plan, Transaction,
    TransactionView,
};
