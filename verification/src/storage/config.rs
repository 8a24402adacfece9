//! The configuration record: where study sets are stored and which class is open.
use crate::text::{blank, is_blank};
use vstd::prelude::*;

verus! {

/// The configured base folder and the name of the selected class. Both are
/// empty until the user chooses them.
#[derive(Debug)]
pub struct Config {
    pub storage_base_path: String,
    pub storage_class_name: String,
}

/// A configuration as plain text.
pub struct ConfigModel {
    pub base_path: Seq<char>,
    pub class_name: Seq<char>,
}

impl View for Config {
    type V = ConfigModel;

    open spec fn view(&self) -> ConfigModel {
        ConfigModel { base_path: self.storage_base_path@, class_name: self.storage_class_name@ }
    }
}

/// A configuration says where to store when neither the base path nor the
/// class name is blank.
pub open spec fn is_configured_spec(c: ConfigModel) -> bool {
    !is_blank(c.base_path) && !is_blank(c.class_name)
}

impl Config {
    /// A configuration with the given base path and class name.
    pub fn new(storage_base_path: String, storage_class_name: String) -> (r: Self)
        ensures
            r@ == (ConfigModel { base_path: storage_base_path@, class_name: storage_class_name@ }),
    {
        Config { storage_base_path, storage_class_name }
    }

    /// Whether the configuration says where to store: study sets are saved
    /// only then.
    pub fn is_configured(&self) -> (r: bool)
        ensures
            r == is_configured_spec(self@),
    {
        !blank(self.storage_base_path.as_str()) && !blank(self.storage_class_name.as_str())
    }
}

impl Default for Config {
    /// The configuration of a fresh installation: both fields empty.
    fn default() -> (r: Self)
        ensures
            r@ == (ConfigModel { base_path: Seq::empty(), class_name: Seq::empty() }),
    {
        Config { storage_base_path: String::new(), storage_class_name: String::new() }
    }
}

impl Clone for Config {
    fn clone(&self) -> (r: Self)
        ensures
            r@ == self@,
    {
        Config {
            storage_base_path: self.storage_base_path.clone(),
            storage_class_name: self.storage_class_name.clone(),
        }
    }
}

} // verus!
