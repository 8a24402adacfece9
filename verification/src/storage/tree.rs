//! A storage tree held in memory: the base folder and its class folders as
//! they were enumerated at one moment. It answers the questions of a
//! reconciliation pass without touching a disk.
use super::error::{StorageError, StorageErrorModel};
use super::json_store::{
    list_class_folders, list_class_folders_spec, load_sets_from_class_folder, load_sets_spec,
    Folder,
};
use crate::models::study_set::{StudySet, StudySetModel};
use crate::models::views;
use crate::reconcile::{load_spec, ClassFolderModel, Listing, Loading, StorageModel};
use crate::text::texts;
use vstd::prelude::*;

verus! {

/// A class folder: its name and what enumerating it yields.
#[derive(Debug)]
pub struct ClassFolder {
    pub name: String,
    pub folder: Folder,
}

/// A base folder and the class folders under it.
#[derive(Debug)]
pub struct StorageTree {
    /// What enumerating the base folder yields.
    pub base: Folder,
    /// The class folders that can be loaded. Where two have one name, the
    /// first counts; a class that is not here has no folder.
    pub class_folders: Vec<ClassFolder>,
}

/// A listing with its error reduced to the text that is shown.
pub open spec fn listing_of(listed: Result<Seq<Seq<char>>, StorageErrorModel>) -> Listing {
    match listed {
        Ok(names) => Ok(names),
        Err(error) => Err(error.message()),
    }
}

/// A load with its error reduced to the text that is shown.
pub open spec fn loading_of(loaded: Result<Seq<StudySetModel>, StorageErrorModel>) -> Loading {
    match loaded {
        Ok(sets) => Ok(sets),
        Err(error) => Err(error.message()),
    }
}

/// The listed classes, or the text of the error, as plain values.
pub open spec fn listing_model(listing: Result<Vec<String>, StorageError>) -> Listing {
    match listing {
        Ok(names) => Ok(texts(names@)),
        Err(error) => Err(error@.message()),
    }
}

/// The loaded study sets, or the text of the error, as plain values.
pub open spec fn loading_model(loading: Result<Vec<StudySet>, StorageError>) -> Loading {
    match loading {
        Ok(sets) => Ok(views(sets@)),
        Err(error) => Err(error@.message()),
    }
}

impl View for ClassFolder {
    type V = ClassFolderModel;

    open spec fn view(&self) -> ClassFolderModel {
        ClassFolderModel { name: self.name@, sets: loading_of(load_sets_spec(self.folder@)) }
    }
}

impl View for StorageTree {
    type V = StorageModel;

    open spec fn view(&self) -> StorageModel {
        StorageModel {
            base_exists: !(self.base@ is Missing),
            classes: listing_of(list_class_folders_spec(self.base@)),
            folders: views(self.class_folders@),
        }
    }
}

impl StorageTree {
    /// Whether the base folder exists.
    pub fn base_exists(&self) -> (exists: bool)
        ensures
            exists == self@.base_exists,
    {
        match &self.base {
            Folder::Missing => false,
            _ => true,
        }
    }

    /// Lists the classes under the base folder.
    pub fn list_classes(&self) -> (listing: Result<Vec<String>, StorageError>)
        ensures
            listing_model(listing) == self@.classes,
    {
        list_class_folders(&self.base)
    }

    /// Loads the study sets of the class `class_name`. A class without a
    /// folder holds none, which is no error.
    pub fn load_sets(&self, class_name: &str) -> (loading: Result<Vec<StudySet>, StorageError>)
        ensures
            loading_model(loading) == load_spec(self@.folders, class_name@),
    {
        let mut i: usize = 0;
        let ghost folders = self@.folders;
        assert(folders.skip(0) =~= folders);
        while i < self.class_folders.len()
            invariant
                i <= self.class_folders.len(),
                folders == views(self.class_folders@),
                load_spec(folders, class_name@) == load_spec(folders.skip(i as int), class_name@),
            decreases self.class_folders.len() - i,
        {
            assert(folders.skip(i as int).first() == self.class_folders[i as int]@);
            assert(folders.skip(i as int).drop_first() =~= folders.skip(i + 1));
            if crate::text::same_text(self.class_folders[i].name.as_str(), class_name) {
                return load_sets_from_class_folder(&self.class_folders[i].folder);
            }
            i += 1;
        }
        let sets: Vec<StudySet> = Vec::new();
        assert(views(sets@) =~= Seq::empty());
        assert(folders.skip(i as int).len() == 0);
        Ok(sets)
    }
}

} // verus!
