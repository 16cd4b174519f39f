use vstd::prelude::*;

verus! {

/// Why a forward operation of a transaction was refused. Nothing was
/// performed and nothing was recorded when one of these comes back.
#[derive(Debug, Clone)]
pub enum TransactionError {
    /// The destination of an add, copy or move is already occupied.
    ComponentConflict { name: String, path: String },
    /// There is no file to remove at the path.
    ComponentMissingFile { name: String, path: String },
    /// There is no directory to remove at the path.
    ComponentMissingDir { name: String, path: String },
}

/// The mathematical value of a [`TransactionError`].
pub enum ErrorView {
    ComponentConflict { name: Seq<char>, path: Seq<char> },
    ComponentMissingFile { name: Seq<char>, path: Seq<char> },
    ComponentMissingDir { name: Seq<char>, path: Seq<char> },
}

impl View for TransactionError {
    type V = ErrorView;

    open spec fn view(&self) -> ErrorView {
        match self {
            TransactionError::ComponentConflict { name, path } => ErrorView::ComponentConflict {
                name: name@,
                path: path@,
            },
            TransactionError::ComponentMissingFile { name, path } =>
                ErrorView::ComponentMissingFile { name: name@, path: path@ },
            TransactionError::ComponentMissingDir { name, path } =>
                ErrorView::ComponentMissingDir { name: name@, path: path@ },
        }
    }
}

impl TransactionError {
    /// The name of the component whose operation failed.
    pub fn component(&self) -> (r: &String)
        ensures
            r@ == match self@ {
                ErrorView::ComponentConflict { name, .. } => name,
                ErrorView::ComponentMissingFile { name, .. } => name,
                ErrorView::ComponentMissingDir { name, .. } => name,
            },
    {
        match self {
            TransactionError::ComponentConflict { name, .. } => name,
            TransactionError::ComponentMissingFile { name, .. } => name,
            TransactionError::ComponentMissingDir { name, .. } => name,
        }
    }

    /// The relative path that the failed operation named.
    pub fn path(&self) -> (r: &String)
        ensures
            r@ == match self@ {
                ErrorView::ComponentConflict { path, .. } => path,
                ErrorView::ComponentMissingFile { path, .. } => path,
                ErrorView::ComponentMissingDir { path, .. } => path,
            },
    {
        match self {
            TransactionError::ComponentConflict { path, .. } => path,
            TransactionError::ComponentMissingFile { path, .. } => path,
            TransactionError::ComponentMissingDir { path, .. } => path,
        }
    }
}

} // verus!
