//! The errors of the study-set store.
use vstd::prelude::*;

verus! {

/// Why the store could not do what it was asked. Each kind carries the text
/// that is shown to the user.
#[derive(Debug)]
pub enum StorageError {
    /// The file system refused: a missing path, a permission, a failed copy.
    Io(String),
    /// A file does not hold what it should: malformed or foreign JSON.
    Decode(String),
    /// The request itself makes no sense, such as a source without a file name.
    InvalidInput(String),
}

/// A storage error as plain text.
pub enum StorageErrorModel {
    Io(Seq<char>),
    Decode(Seq<char>),
    InvalidInput(Seq<char>),
}

impl StorageErrorModel {
    /// The text shown for the error.
    pub open spec fn message(self) -> Seq<char> {
        match self {
            StorageErrorModel::Io(text) => text,
            StorageErrorModel::Decode(text) => text,
            StorageErrorModel::InvalidInput(text) => text,
        }
    }
}

impl View for StorageError {
    type V = StorageErrorModel;

    open spec fn view(&self) -> StorageErrorModel {
        match self {
            StorageError::Io(text) => StorageErrorModel::Io(text@),
            StorageError::Decode(text) => StorageErrorModel::Decode(text@),
            StorageError::InvalidInput(text) => StorageErrorModel::InvalidInput(text@),
        }
    }
}

impl Clone for StorageError {
    fn clone(&self) -> (r: Self)
        ensures
            r@ == self@,
    {
        match self {
            StorageError::Io(text) => StorageError::Io(text.clone()),
            StorageError::Decode(text) => StorageError::Decode(text.clone()),
            StorageError::InvalidInput(text) => StorageError::InvalidInput(text.clone()),
        }
    }
}

impl StorageError {
    /// The text shown for the error.
    pub fn message(&self) -> (r: &str)
        ensures
            r@ == self@.message(),
    {
        match self {
            StorageError::Io(text) => text.as_str(),
            StorageError::Decode(text) => text.as_str(),
            StorageError::InvalidInput(text) => text.as_str(),
        }
    }
}

} // verus!
