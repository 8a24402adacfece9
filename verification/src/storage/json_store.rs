//! The rules of the study-set store: one folder per class under a base
//! folder, one JSON file per study set in it.
//!
//! Reading directories and files is the caller's business. It hands over what
//! it found as a [`Folder`]; the functions here decide what that amounts to.
use super::error::{StorageError, StorageErrorModel};
use crate::models::study_set::{StudySet, StudySetModel};
use crate::models::views;
use crate::text::{concat, eq_ignore_ascii_case, same_ignoring_ascii_case, texts};
use vstd::prelude::*;

verus! {

/// The file-system-safe form of a name. Names what `sanitize_with_options` of
/// the crate `sanitize-filename` returns for the name, with that crate's
/// default options but for the flag `windows`, which is given.
pub uninterp spec fn sanitized(name: Seq<char>, windows: bool) -> Seq<char>;

/// Calls `sanitize_filename::sanitize_with_options` with the crate's default
/// options but for the flag `windows`. Believed: the result is a function of
/// the name and the flag alone, the one that [`sanitized`] names.
#[verifier::external_body]
fn sanitize_with(name: &str, windows: bool) -> (r: String)
    ensures
        r@ == sanitized(name@, windows),
{
    let options = sanitize_filename::Options { windows, ..Default::default() };
    sanitize_filename::sanitize_with_options(name, options)
}

/// Reads the flag `windows` of `sanitize_filename::Options::default()`: whether
/// this build goes by the stricter rules for file names of Windows. Nothing is
/// believed of the answer, which depends on the platform.
#[verifier::external_body]
fn default_windows_rules() -> (windows: bool) {
    sanitize_filename::Options::default().windows
}

/// The name of the file that holds the study set `set_name`: the sanitized
/// name followed by `.json`.
pub open spec fn set_file_name_spec(set_name: Seq<char>, windows: bool) -> Seq<char> {
    sanitized(set_name, windows) + ".json"@
}

/// The name of the file that holds the study set `set_name`, by the rules for
/// file names that `windows` chooses.
pub fn set_file_name_with(set_name: &str, windows: bool) -> (r: String)
    ensures
        r@ == set_file_name_spec(set_name@, windows),
{
    let stem = sanitize_with(set_name, windows);
    concat(stem.as_str(), ".json")
}

/// The name of the file that holds the study set `set_name`, by the rules for
/// file names of the platform this runs on.
pub fn set_file_name(set_name: &str) -> (r: String)
    ensures
        r@ == set_file_name_spec(set_name@, true) || r@ == set_file_name_spec(set_name@, false),
{
    set_file_name_with(set_name, default_windows_rules())
}

/// The complaint about a file to import whose path names no file.
pub open spec fn no_file_name_message() -> Seq<char> {
    "source has no filename"@
}

/// The name under which a file is imported into a class folder: its own.
/// A source whose path has no file name cannot be imported.
pub fn import_file_name(source_file_name: Option<&str>) -> (r: Result<String, StorageError>)
    ensures
        match source_file_name {
            Some(name) => r is Ok && r->Ok_0@ == name@,
            None => r is Err && r->Err_0@ == StorageErrorModel::InvalidInput(no_file_name_message()),
        },
{
    match source_file_name {
        Some(name) => Ok(String::from_str(name)),
        None => Err(StorageError::InvalidInput(String::from_str("source has no filename"))),
    }
}

/// One entry of a directory, as far as the store looks at it.
#[derive(Debug)]
pub struct FolderEntry {
    /// The entry's name, where it is valid Unicode.
    pub file_name: Option<String>,
    /// The extension of the entry's name, where it has one that is valid Unicode.
    pub extension: Option<String>,
    /// Whether the entry is a directory.
    pub is_dir: bool,
    /// The study set that the entry decodes to; `None` for an entry that was
    /// not read, cannot be read, or does not hold a study set.
    pub study_set: Option<StudySet>,
}

/// What enumerating a directory yields.
#[derive(Debug)]
pub enum Folder {
    /// There is no such directory.
    Missing,
    /// The directory cannot be enumerated.
    Unreadable(StorageError),
    /// The entries in the order of enumeration, each of which may have failed.
    Entries(Vec<Result<FolderEntry, StorageError>>),
}

/// A directory entry as plain values.
pub struct FolderEntryModel {
    pub file_name: Option<Seq<char>>,
    pub extension: Option<Seq<char>>,
    pub is_dir: bool,
    pub study_set: Option<StudySetModel>,
}

/// What enumerating a directory yields, as plain values.
pub enum FolderModel {
    Missing,
    Unreadable(StorageErrorModel),
    Entries(Seq<Result<FolderEntryModel, StorageErrorModel>>),
}

impl View for FolderEntry {
    type V = FolderEntryModel;

    open spec fn view(&self) -> FolderEntryModel {
        FolderEntryModel {
            file_name: match self.file_name {
                Some(name) => Some(name@),
                None => None,
            },
            extension: match self.extension {
                Some(extension) => Some(extension@),
                None => None,
            },
            is_dir: self.is_dir,
            study_set: match self.study_set {
                Some(set) => Some(set@),
                None => None,
            },
        }
    }
}

/// The model of one enumerated entry.
pub open spec fn entry_model(entry: Result<FolderEntry, StorageError>) -> Result<
    FolderEntryModel,
    StorageErrorModel,
> {
    match entry {
        Ok(e) => Ok(e@),
        Err(error) => Err(error@),
    }
}

impl View for Folder {
    type V = FolderModel;

    open spec fn view(&self) -> FolderModel {
        match self {
            Folder::Missing => FolderModel::Missing,
            Folder::Unreadable(error) => FolderModel::Unreadable(error@),
            Folder::Entries(entries) => FolderModel::Entries(
                Seq::new(entries@.len(), |i: int| entry_model(entries@[i])),
            ),
        }
    }
}

/// The error of the first entry that failed, if any did.
pub open spec fn first_failure(
    entries: Seq<Result<FolderEntryModel, StorageErrorModel>>,
) -> Option<StorageErrorModel>
    decreases entries.len(),
{
    if entries.len() == 0 {
        None
    } else {
        match entries.first() {
            Err(error) => Some(error),
            Ok(_) => first_failure(entries.drop_first()),
        }
    }
}

/// An entry stands for a class when it is a directory with a Unicode name.
pub open spec fn is_class_entry(entry: Result<FolderEntryModel, StorageErrorModel>) -> bool {
    entry is Ok && entry->Ok_0.is_dir && entry->Ok_0.file_name is Some
}

/// The names of the entries that stand for classes, in the order of enumeration.
pub open spec fn class_names(entries: Seq<Result<FolderEntryModel, StorageErrorModel>>) -> Seq<
    Seq<char>,
>
    decreases entries.len(),
{
    if entries.len() == 0 {
        Seq::empty()
    } else if is_class_entry(entries.last()) {
        class_names(entries.drop_last()).push(entries.last()->Ok_0.file_name->0)
    } else {
        class_names(entries.drop_last())
    }
}

/// The classes under a base folder. A missing base folder holds none, which
/// is no error. A directory that cannot be enumerated, or one entry that
/// fails, fails the listing with that error. Otherwise the classes are the
/// immediate subdirectories, in the order of enumeration.
pub open spec fn list_class_folders_spec(base: FolderModel) -> Result<
    Seq<Seq<char>>,
    StorageErrorModel,
> {
    match base {
        FolderModel::Missing => Ok(Seq::empty()),
        FolderModel::Unreadable(error) => Err(error),
        FolderModel::Entries(entries) => match first_failure(entries) {
            Some(error) => Err(error),
            None => Ok(class_names(entries)),
        },
    }
}

/// An extension marks a study-set file when it is `json` in any mix of cases.
pub open spec fn is_json_extension_spec(extension: Option<Seq<char>>) -> bool {
    extension is Some && eq_ignore_ascii_case(extension->0, "json"@)
}

/// An entry yields a study set when its extension marks a study-set file and
/// its content decodes to one.
pub open spec fn is_set_entry(entry: Result<FolderEntryModel, StorageErrorModel>) -> bool {
    entry is Ok && is_json_extension_spec(entry->Ok_0.extension) && entry->Ok_0.study_set is Some
}

/// The study sets that the entries yield, in the order of enumeration.
pub open spec fn loaded_sets(entries: Seq<Result<FolderEntryModel, StorageErrorModel>>) -> Seq<
    StudySetModel,
>
    decreases entries.len(),
{
    if entries.len() == 0 {
        Seq::empty()
    } else if is_set_entry(entries.last()) {
        loaded_sets(entries.drop_last()).push(entries.last()->Ok_0.study_set->0)
    } else {
        loaded_sets(entries.drop_last())
    }
}

/// The study sets of a class folder. A missing folder holds none, which is no
/// error. A directory that cannot be enumerated, or one entry that fails,
/// fails the load with that error. Otherwise every entry with the extension
/// `json` that decodes to a study set yields it; a file that does not decode
/// is passed over in silence.
pub open spec fn load_sets_spec(class_folder: FolderModel) -> Result<
    Seq<StudySetModel>,
    StorageErrorModel,
> {
    match class_folder {
        FolderModel::Missing => Ok(Seq::empty()),
        FolderModel::Unreadable(error) => Err(error),
        FolderModel::Entries(entries) => match first_failure(entries) {
            Some(error) => Err(error),
            None => Ok(loaded_sets(entries)),
        },
    }
}

/// No entry of a prefix failed, and the next one did: it is the first failure.
proof fn lemma_first_failure_at(
    entries: Seq<Result<FolderEntryModel, StorageErrorModel>>,
    i: int,
)
    requires
        0 <= i <= entries.len(),
        forall|j: int| 0 <= j < i ==> (#[trigger] entries[j]) is Ok,
    ensures
        i < entries.len() && entries[i] is Err ==> first_failure(entries) == Some(
            entries[i]->Err_0,
        ),
        i == entries.len() ==> first_failure(entries) is None,
    decreases i,
{
    if i > 0 {
        let rest = entries.drop_first();
        assert forall|j: int| 0 <= j < i - 1 implies (#[trigger] rest[j]) is Ok by {
            assert(rest[j] == entries[j + 1]);
        }
        lemma_first_failure_at(rest, i - 1);
        assert(entries.first() == entries[0]);
        if i < entries.len() {
            assert(rest[i - 1] == entries[i]);
        }
    }
}

/// Tests whether an extension marks a study-set file.
pub fn is_json_extension(extension: &Option<String>) -> (r: bool)
    ensures
        r == is_json_extension_spec(
            match *extension {
                Some(e) => Some(e@),
                None => None,
            },
        ),
{
    match extension {
        Some(e) => same_ignoring_ascii_case(e.as_str(), "json"),
        None => false,
    }
}

/// Lists the classes under a base folder that was enumerated as `base`.
pub fn list_class_folders(base: &Folder) -> (r: Result<Vec<String>, StorageError>)
    ensures
        match list_class_folders_spec(base@) {
            Ok(names) => r is Ok && texts(r->Ok_0@) == names,
            Err(error) => r is Err && r->Err_0@ == error,
        },
{
    match base {
        Folder::Missing => {
            let classes: Vec<String> = Vec::new();
            assert(texts(classes@) =~= Seq::empty());
            Ok(classes)
        },
        Folder::Unreadable(error) => Err(error.clone()),
        Folder::Entries(entries) => {
            let ghost models = base@->Entries_0;
            let mut classes: Vec<String> = Vec::new();
            let mut i: usize = 0;
            assert(texts(classes@) =~= class_names(models.take(0)));
            while i < entries.len()
                invariant
                    i <= entries.len(),
                    base@ == FolderModel::Entries(models),
                    models.len() == entries.len(),
                    forall|j: int| 0 <= j < entries.len() ==> models[j] == entry_model(entries@[j]),
                    forall|j: int| 0 <= j < i ==> (#[trigger] models[j]) is Ok,
                    texts(classes@) == class_names(models.take(i as int)),
                decreases entries.len() - i,
            {
                assert(models.take(i + 1).drop_last() =~= models.take(i as int));
                assert(models.take(i + 1).last() == models[i as int]);
                match &entries[i] {
                    Err(error) => {
                        proof {
                            assert(models[i as int] == entry_model(entries@[i as int]));
                            lemma_first_failure_at(models, i as int);
                        }
                        return Err(error.clone());
                    },
                    Ok(entry) => {
                        if entry.is_dir {
                            match &entry.file_name {
                                Some(name) => {
                                    classes.push(name.clone());
                                    assert(texts(classes@) =~= class_names(
                                        models.take(i + 1),
                                    ));
                                },
                                None => {},
                            }
                        }
                    },
                }
                i += 1;
            }
            proof {
                lemma_first_failure_at(models, i as int);
                assert(models.take(i as int) =~= models);
            }
            Ok(classes)
        },
    }
}

/// Loads the study sets of a class folder that was enumerated as `class_folder`.
pub fn load_sets_from_class_folder(class_folder: &Folder) -> (r: Result<
    Vec<StudySet>,
    StorageError,
>)
    ensures
        match load_sets_spec(class_folder@) {
            Ok(sets) => r is Ok && views(r->Ok_0@) == sets,
            Err(error) => r is Err && r->Err_0@ == error,
        },
{
    match class_folder {
        Folder::Missing => {
            let sets: Vec<StudySet> = Vec::new();
            assert(views(sets@) =~= Seq::empty());
            Ok(sets)
        },
        Folder::Unreadable(error) => Err(error.clone()),
        Folder::Entries(entries) => {
            let ghost models = class_folder@->Entries_0;
            let mut sets: Vec<StudySet> = Vec::new();
            let mut i: usize = 0;
            assert(views(sets@) =~= loaded_sets(models.take(0)));
            while i < entries.len()
                invariant
                    i <= entries.len(),
                    class_folder@ == FolderModel::Entries(models),
                    models.len() == entries.len(),
                    forall|j: int| 0 <= j < entries.len() ==> models[j] == entry_model(entries@[j]),
                    forall|j: int| 0 <= j < i ==> (#[trigger] models[j]) is Ok,
                    views(sets@) == loaded_sets(models.take(i as int)),
                decreases entries.len() - i,
            {
                assert(models.take(i + 1).drop_last() =~= models.take(i as int));
                assert(models.take(i + 1).last() == models[i as int]);
                match &entries[i] {
                    Err(error) => {
                        proof {
                            assert(models[i as int] == entry_model(entries@[i as int]));
                            lemma_first_failure_at(models, i as int);
                        }
                        return Err(error.clone());
                    },
                    Ok(entry) => {
                        if is_json_extension(&entry.extension) {
                            match &entry.study_set {
                                Some(set) => {
                                    sets.push(set.clone());
                                    assert(views(sets@) =~= loaded_sets(
                                        models.take(i + 1),
                                    ));
                                },
                                None => {},
                            }
                        }
                    },
                }
                i += 1;
            }
            proof {
                lemma_first_failure_at(models, i as int);
                assert(models.take(i as int) =~= models);
            }
            Ok(sets)
        },
    }
}

} // verus!
