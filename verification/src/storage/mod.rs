//! What the application keeps on disk, as far as it can be decided on plain
//! values: the configuration record and the rules of the study-set store.
pub mod config;
pub mod error;
pub mod json_store;
pub mod tree;

pub use config::Config;
pub use error::StorageError;
pub use json_store::{
    import_file_name, is_json_extension, list_class_folders, load_sets_from_class_folder, set_file_name,
    set_file_name_with, Folder, FolderEntry,
};
pub use tree::{ClassFolder, StorageTree};
