//! The reconciliation pass as mathematics.
//!
//! A pass brings the in-memory selection state into agreement with the
//! configuration and with what the storage tree holds, asking the storage as
//! little as it can. It runs in up to four steps; between two steps the caller
//! answers one question about the storage. Each step is a function from the
//! state, the configuration and the answer to the next state, the next
//! configuration and the next question. The functions here say what each step
//! yields; the executable steps are proved against them.
use crate::models::flashcard::FlashcardModel;
use crate::models::quiz::QuizModel;
use crate::models::study_set::StudySetModel;
use crate::storage::config::ConfigModel;
use crate::text::{is_blank, texts};
use vstd::prelude::*;

verus! {

/// The application state as plain values.
pub struct AppModel {
    pub available_classes: Seq<Seq<char>>,
    pub selected_class: Option<usize>,
    pub study_sets: Seq<StudySetModel>,
    pub selected_set: Option<usize>,
    pub last_base_path: Seq<char>,
    pub last_class_name: Seq<char>,
    pub status_message: Seq<char>,
    pub flashcards: Seq<FlashcardModel>,
    pub quizzes: Seq<QuizModel>,
    pub current_card_index: usize,
    pub card_flipped: bool,
    pub show_hint: bool,
    pub selected_quiz: Option<usize>,
}

/// What a step of the pass asks of the storage next.
#[derive(Clone, Copy, Debug, PartialEq, Eq, Structural)]
pub enum StorageRequest {
    /// Nothing: the pass is over.
    Done,
    /// Does the configured base folder exist?
    ProbeBaseFolder,
    /// Which class folders does the base folder hold?
    ListClasses,
    /// Which study sets does the class at this index hold?
    LoadSets { class_index: usize },
}

/// The result of one step: the state and configuration it leaves and the
/// question it asks.
pub struct Outcome {
    pub state: AppModel,
    pub config: ConfigModel,
    pub request: StorageRequest,
}

/// An answer of the storage: the listed class names, or the text of the error.
pub type Listing = Result<Seq<Seq<char>>, Seq<char>>;

/// An answer of the storage: the loaded study sets, or the text of the error.
pub type Loading = Result<Seq<StudySetModel>, Seq<char>>;

/// A selection is in bounds when it is absent or addresses one of `len` items.
pub open spec fn in_bounds(selection: Option<usize>, len: nat) -> bool {
    match selection {
        Some(i) => i < len,
        None => true,
    }
}

impl AppModel {
    /// The state's invariant: each selection is absent or addresses an item
    /// of the list it selects from.
    pub open spec fn wf(self) -> bool {
        &&& in_bounds(self.selected_class, self.available_classes.len())
        &&& in_bounds(self.selected_set, self.study_sets.len())
    }

    /// The state with no study sets and no selected set.
    pub open spec fn without_sets(self) -> AppModel {
        AppModel { study_sets: Seq::empty(), selected_set: None, ..self }
    }

    /// The state with everything derived from the storage dropped: no
    /// classes, no study sets, nothing selected.
    pub open spec fn cleared(self) -> AppModel {
        AppModel { available_classes: Seq::empty(), selected_class: None, ..self.without_sets() }
    }

    /// The state with another status message.
    pub open spec fn with_status(self, message: Seq<char>) -> AppModel {
        AppModel { status_message: message, ..self }
    }
}

/// The status shown when the configured base folder is gone.
pub open spec fn missing_base_message() -> Seq<char> {
    "Configured base folder no longer exists"@
}

/// The status shown when the configured class is not among the classes found.
pub open spec fn class_not_found_message() -> Seq<char> {
    "Configured class not found; switched to first available class"@
}

/// The status shown when the classes cannot be listed.
pub open spec fn listing_error_message(error: Seq<char>) -> Seq<char> {
    "Error listing classes: "@ + error
}

/// The status shown when the study sets cannot be loaded.
pub open spec fn loading_error_message(error: Seq<char>) -> Seq<char> {
    "Error loading sets: "@ + error
}

/// The index of the first element of `names` that equals `name`, or the
/// length of `names` if there is none.
pub open spec fn first_index(names: Seq<Seq<char>>, name: Seq<char>) -> nat
    decreases names.len(),
{
    if names.len() == 0 {
        0
    } else if names.first() == name {
        0
    } else {
        1 + first_index(names.drop_first(), name)
    }
}

/// Where no element before `i` equals `name`, and `i` is the end of `names`
/// or the element at `i` equals `name`, the first index of `name` is `i`.
pub proof fn lemma_first_index(names: Seq<Seq<char>>, name: Seq<char>, i: int)
    requires
        0 <= i <= names.len(),
        forall|j: int| 0 <= j < i ==> #[trigger] names[j] != name,
        i == names.len() || names[i] == name,
    ensures
        first_index(names, name) == i,
    decreases i,
{
    if i > 0 {
        let rest = names.drop_first();
        assert forall|j: int| 0 <= j < i - 1 implies #[trigger] rest[j] != name by {
            assert(rest[j] == names[j + 1]);
        }
        if i < names.len() {
            assert(rest[i - 1] == names[i]);
        }
        lemma_first_index(rest, name, i - 1);
        assert(names.first() == names[0]);
    }
}

/// Finds the first of `names` that equals `name`.
pub fn find_name(names: &Vec<String>, name: &String) -> (r: Option<usize>)
    ensures
        match r {
            Some(p) => p < names.len() && p == first_index(texts(names@), name@),
            None => first_index(texts(names@), name@) == names.len(),
        },
{
    let mut i: usize = 0;
    while i < names.len()
        invariant
            i <= names.len(),
            forall|j: int| 0 <= j < i ==> #[trigger] texts(names@)[j] != name@,
        decreases names.len() - i,
    {
        if names[i] == *name {
            proof {
                lemma_first_index(texts(names@), name@, i as int);
            }
            return Some(i);
        }
        i += 1;
    }
    proof {
        lemma_first_index(texts(names@), name@, i as int);
    }
    None
}

/// A selection repaired for a list of `len` items: absent for an empty list;
/// kept where it addresses an item; the first item otherwise.
pub open spec fn repaired(selection: Option<usize>, len: nat) -> Option<usize> {
    if len == 0 {
        None
    } else {
        match selection {
            Some(i) => if i < len {
                Some(i)
            } else {
                Some(0)
            },
            None => Some(0),
        }
    }
}

/// Repairs a selection for a list of `len` items.
pub fn repair_selection(selection: Option<usize>, len: usize) -> (r: Option<usize>)
    ensures
        r == repaired(selection, len as nat),
        in_bounds(r, len as nat),
{
    if len == 0 {
        None
    } else {
        match selection {
            Some(i) => if i < len {
                Some(i)
            } else {
                Some(0)
            },
            None => Some(0),
        }
    }
}

/// The state before anything is configured, listed or loaded.
pub open spec fn initial_model() -> AppModel {
    AppModel {
        available_classes: Seq::empty(),
        selected_class: None,
        study_sets: Seq::empty(),
        selected_set: None,
        last_base_path: Seq::empty(),
        last_class_name: Seq::empty(),
        status_message: Seq::empty(),
        flashcards: Seq::empty(),
        quizzes: Seq::empty(),
        current_card_index: 0,
        card_flipped: false,
        show_hint: false,
        selected_quiz: None,
    }
}

/// A request can be answered from the state when the class it names, if it
/// names one, is among the classes listed.
pub open spec fn answerable(request: StorageRequest, s: AppModel) -> bool {
    request matches StorageRequest::LoadSets { class_index } ==> class_index
        < s.available_classes.len()
}

/// First step. With a blank base path there is nothing to reconcile:
/// everything derived is dropped and the pass is over. Otherwise the pass
/// asks whether the base folder exists.
pub open spec fn begin_spec(s: AppModel, c: ConfigModel) -> Outcome {
    if is_blank(c.base_path) {
        Outcome { state: s.cleared(), config: c, request: StorageRequest::Done }
    } else {
        Outcome { state: s, config: c, request: StorageRequest::ProbeBaseFolder }
    }
}

/// Second step, on the answer whether the base folder exists. If it does not,
/// everything derived is dropped, the status says so, and the pass is over.
/// If the base path is not the one the classes were last listed for, the pass
/// asks for the classes. Otherwise it goes on with the classes it has.
pub open spec fn base_checked_spec(s: AppModel, c: ConfigModel, exists: bool) -> Outcome {
    if !exists {
        Outcome {
            state: s.cleared().with_status(missing_base_message()),
            config: c,
            request: StorageRequest::Done,
        }
    } else if c.base_path != s.last_base_path {
        Outcome { state: s, config: c, request: StorageRequest::ListClasses }
    } else {
        resolve_spec(s, c)
    }
}

/// Third step, on the listed classes. A failure drops everything derived,
/// reports the error, and ends the pass; the base path is then not remembered,
/// so the next pass lists again. A success replaces the classes, remembers the
/// base path, and goes on.
pub open spec fn classes_listed_spec(s: AppModel, c: ConfigModel, listing: Listing) -> Outcome {
    match listing {
        Ok(names) => resolve_spec(
            AppModel { available_classes: names, last_base_path: c.base_path, ..s },
            c,
        ),
        Err(error) => Outcome {
            state: s.cleared().with_status(listing_error_message(error)),
            config: c,
            request: StorageRequest::Done,
        },
    }
}

/// The state and configuration once a class is selected among a non-empty
/// list of classes. A configured (non-blank) class name selects the first
/// class of that name; if there is none, the first class is selected, the
/// configuration is rewritten to name it, the study sets are dropped, and the
/// status says so. With a blank name the previous selection is kept if it is
/// still in range, and the first class is selected otherwise.
pub open spec fn select_class_spec(s: AppModel, c: ConfigModel) -> (AppModel, ConfigModel)
    recommends
        s.available_classes.len() > 0,
{
    if !is_blank(c.class_name) {
        let p = first_index(s.available_classes, c.class_name);
        if p < s.available_classes.len() {
            (AppModel { selected_class: Some(p as usize), ..s }, c)
        } else {
            (
                AppModel { selected_class: Some(0), ..s.without_sets() }.with_status(
                    class_not_found_message(),
                ),
                ConfigModel { class_name: s.available_classes[0], ..c },
            )
        }
    } else {
        (
            AppModel { selected_class: repaired(s.selected_class, s.available_classes.len()), ..s },
            c,
        )
    }
}

/// Whether the study sets must be read again: the configured class name is
/// not the one they were last loaded for, or none are in memory.
pub open spec fn needs_reload(s: AppModel, c: ConfigModel) -> bool {
    c.class_name != s.last_class_name || s.study_sets.len() == 0
}

/// The rest of the second and third step. Without classes, selection and
/// study sets are dropped and the pass is over. Otherwise a class is
/// selected, and the pass asks for its study sets if they must be read again.
pub open spec fn resolve_spec(s: AppModel, c: ConfigModel) -> Outcome {
    if s.available_classes.len() == 0 {
        Outcome {
            state: AppModel { selected_class: None, ..s.without_sets() },
            config: c,
            request: StorageRequest::Done,
        }
    } else {
        let (s1, c1) = select_class_spec(s, c);
        Outcome {
            state: s1,
            config: c1,
            request: if needs_reload(s1, c1) {
                StorageRequest::LoadSets { class_index: s1.selected_class->0 }
            } else {
                StorageRequest::Done
            },
        }
    }
}

/// Fourth step, on the loaded study sets. A success replaces the study sets,
/// remembers the class name they were loaded for, and repairs the selected
/// set. A failure drops study sets and selection and reports the error.
pub open spec fn sets_loaded_spec(s: AppModel, c: ConfigModel, loading: Loading) -> AppModel {
    match loading {
        Ok(sets) => AppModel {
            study_sets: sets,
            last_class_name: c.class_name,
            selected_set: repaired(s.selected_set, sets.len()),
            ..s
        },
        Err(error) => s.without_sets().with_status(loading_error_message(error)),
    }
}

/// One class folder of a storage tree: its name and what loading it yields.
pub struct ClassFolderModel {
    pub name: Seq<char>,
    pub sets: Loading,
}

/// What a storage tree answers at one moment: whether the base folder
/// exists, what listing its classes yields, and what loading each class yields.
pub struct StorageModel {
    pub base_exists: bool,
    pub classes: Listing,
    pub folders: Seq<ClassFolderModel>,
}

/// What loading the class `name` yields: the answer of the first folder of
/// that name; a class without a folder holds no study sets, which is no error.
pub open spec fn load_spec(folders: Seq<ClassFolderModel>, name: Seq<char>) -> Loading
    decreases folders.len(),
{
    if folders.len() == 0 {
        Ok(Seq::empty())
    } else if folders.first().name == name {
        folders.first().sets
    } else {
        load_spec(folders.drop_first(), name)
    }
}

/// The outcome of the second and third step together, against a storage tree.
pub open spec fn classes_resolved_spec(s: AppModel, c: ConfigModel, storage: StorageModel) -> Outcome {
    let probed = base_checked_spec(s, c, storage.base_exists);
    if probed.request == StorageRequest::ListClasses {
        classes_listed_spec(probed.state, probed.config, storage.classes)
    } else {
        probed
    }
}

/// A whole pass against a storage tree: the state and the configuration it leaves.
pub open spec fn reconcile_spec(s: AppModel, c: ConfigModel, storage: StorageModel) -> (
    AppModel,
    ConfigModel,
) {
    let begun = begin_spec(s, c);
    if begun.request == StorageRequest::Done {
        (begun.state, begun.config)
    } else {
        let resolved = classes_resolved_spec(begun.state, begun.config, storage);
        match resolved.request {
            StorageRequest::LoadSets { class_index } => (
                sets_loaded_spec(
                    resolved.state,
                    resolved.config,
                    load_spec(storage.folders, resolved.state.available_classes[class_index as int]),
                ),
                resolved.config,
            ),
            _ => (resolved.state, resolved.config),
        }
    }
}

/// Whether a pass against a storage tree lists the classes.
pub open spec fn lists_classes(s: AppModel, c: ConfigModel, storage: StorageModel) -> bool {
    &&& begin_spec(s, c).request == StorageRequest::ProbeBaseFolder
    &&& base_checked_spec(s, c, storage.base_exists).request == StorageRequest::ListClasses
}

/// Whether a pass against a storage tree loads study sets.
pub open spec fn loads_sets(s: AppModel, c: ConfigModel, storage: StorageModel) -> bool {
    &&& begin_spec(s, c).request == StorageRequest::ProbeBaseFolder
    &&& classes_resolved_spec(s, c, storage).request is LoadSets
}

} // verus!
