//! The application state and the steps that keep it in agreement with the
//! configuration and the storage.
//!
//! The state never reads a disk. A reconciliation pass is driven from
//! outside: each step returns a [`StorageRequest`], the caller answers it from
//! the file system, and hands the answer to the next step.
//! [`StudyHelperApp::ensure_storage_consistency`] runs a whole pass against a
//! storage tree held in memory.
use crate::models::flashcard::Flashcard;
use crate::models::quiz::Quiz;
use crate::models::study_set::StudySet;
use crate::models::views;
use crate::reconcile::{
    answerable, base_checked_spec, begin_spec, classes_listed_spec, find_name, in_bounds,
    initial_model, reconcile_spec, repair_selection, resolve_spec, sets_loaded_spec, AppModel,
    Outcome, StorageRequest,
};
use crate::storage::config::Config;
use crate::storage::error::StorageError;
use crate::storage::tree::{listing_model, loading_model, StorageTree};
use crate::text::{blank, concat, texts};
use vstd::prelude::*;

pub mod quizzes;
pub mod session;
pub mod startup;

verus! {

/// The state of the application: the classes found under the base folder,
/// the study sets of the selected class, what is selected, and what the user
/// is looking at. The two selections always address an item of their list or
/// are absent.
#[derive(Debug)]
pub struct StudyHelperApp {
    study_sets: Vec<StudySet>,
    selected_set: Option<usize>,
    available_classes: Vec<String>,
    selected_class: Option<usize>,
    last_storage_base_path: String,
    last_storage_class_name: String,
    status_message: String,
    flashcards: Vec<Flashcard>,
    quizzes: Vec<Quiz>,
    current_card_index: usize,
    card_flipped: bool,
    show_hint: bool,
    selected_quiz: Option<usize>,
}

impl View for StudyHelperApp {
    type V = AppModel;

    closed spec fn view(&self) -> AppModel {
        AppModel {
            available_classes: texts(self.available_classes@),
            selected_class: self.selected_class,
            study_sets: views(self.study_sets@),
            selected_set: self.selected_set,
            last_base_path: self.last_storage_base_path@,
            last_class_name: self.last_storage_class_name@,
            status_message: self.status_message@,
            flashcards: views(self.flashcards@),
            quizzes: views(self.quizzes@),
            current_card_index: self.current_card_index,
            card_flipped: self.card_flipped,
            show_hint: self.show_hint,
            selected_quiz: self.selected_quiz,
        }
    }
}

impl StudyHelperApp {
    /// The state's invariant: each selection is absent or addresses an item
    /// of the list it selects from.
    pub open spec fn wf(&self) -> bool {
        self@.wf()
    }

    /// The state before anything is configured, listed or loaded.
    pub fn new() -> (r: Self)
        ensures
            r.wf(),
            r@ == initial_model(),
    {
        let r = StudyHelperApp {
            study_sets: Vec::new(),
            selected_set: None,
            available_classes: Vec::new(),
            selected_class: None,
            last_storage_base_path: String::new(),
            last_storage_class_name: String::new(),
            status_message: String::new(),
            flashcards: Vec::new(),
            quizzes: Vec::new(),
            current_card_index: 0,
            card_flipped: false,
            show_hint: false,
            selected_quiz: None,
        };
        assert(r@.available_classes =~= Seq::empty());
        assert(r@.study_sets =~= Seq::empty());
        assert(r@.flashcards =~= Seq::empty());
        assert(r@.quizzes =~= Seq::empty());
        r
    }

    /// The classes found under the base folder, in the order listed.
    pub fn available_classes(&self) -> (r: &Vec<String>)
        ensures
            texts(r@) == self@.available_classes,
            r@.len() == self@.available_classes.len(),
    {
        &self.available_classes
    }

    /// The index of the selected class, if one is selected.
    pub fn selected_class(&self) -> (r: Option<usize>)
        ensures
            r == self@.selected_class,
    {
        self.selected_class
    }

    /// The name of the selected class, if one is selected that exists.
    pub fn selected_class_name(&self) -> (r: Option<&str>)
        ensures
            match self@.selected_class {
                Some(i) => if i < self@.available_classes.len() {
                    r is Some && r->0@ == self@.available_classes[i as int]
                } else {
                    r is None
                },
                None => r is None,
            },
    {
        match self.selected_class {
            Some(i) => if i < self.available_classes.len() {
                Some(self.available_classes[i].as_str())
            } else {
                None
            },
            None => None,
        }
    }

    /// The study sets of the selected class, in the order loaded.
    pub fn study_sets(&self) -> (r: &Vec<StudySet>)
        ensures
            views(r@) == self@.study_sets,
            r@.len() == self@.study_sets.len(),
    {
        &self.study_sets
    }

    /// The index of the selected study set, if one is selected.
    pub fn selected_set(&self) -> (r: Option<usize>)
        ensures
            r == self@.selected_set,
    {
        self.selected_set
    }

    /// The selected study set, if one is selected that exists.
    pub fn selected_study_set(&self) -> (r: Option<&StudySet>)
        ensures
            match self@.selected_set {
                Some(i) => if i < self@.study_sets.len() {
                    r is Some && r->0@ == self@.study_sets[i as int]
                } else {
                    r is None
                },
                None => r is None,
            },
    {
        match self.selected_set {
            Some(i) => if i < self.study_sets.len() {
                Some(&self.study_sets[i])
            } else {
                None
            },
            None => None,
        }
    }

    /// The study set at `index`, for editing in place, if there is one.
    /// Whatever the caller does to it, the number of study sets stays, and
    /// with it every selection that was in range.
    pub fn study_set_mut(&mut self, index: usize) -> (r: Option<&mut StudySet>)
        ensures
            index < old(self)@.study_sets.len() ==> r is Some && (*r->0)@ == old(
                self,
            )@.study_sets[index as int] && final(self)@ == (AppModel {
                study_sets: old(self)@.study_sets.update(index as int, (*final(r->0))@),
                ..old(self)@
            }),
            index >= old(self)@.study_sets.len() ==> r is None && final(self)@ == old(self)@,
            old(self).wf() ==> final(self).wf(),
    {
        if index < self.study_sets.len() {
            let set = &mut self.study_sets[index];
            proof {
                crate::models::lemma_views_update(old(self).study_sets@, index as int, *final(set));
            }
            Some(set)
        } else {
            None
        }
    }

    /// The base path for which the classes were last listed.
    pub fn last_storage_base_path(&self) -> (r: &str)
        ensures
            r@ == self@.last_base_path,
    {
        self.last_storage_base_path.as_str()
    }

    /// The class name for which the study sets were last loaded.
    pub fn last_storage_class_name(&self) -> (r: &str)
        ensures
            r@ == self@.last_class_name,
    {
        self.last_storage_class_name.as_str()
    }

    /// The message that tells the user what happened last.
    pub fn status_message(&self) -> (r: &str)
        ensures
            r@ == self@.status_message,
    {
        self.status_message.as_str()
    }

    /// Replaces the status message.
    pub fn set_status_message(&mut self, message: String)
        ensures
            final(self)@ == old(self)@.with_status(message@),
            old(self).wf() ==> final(self).wf(),
    {
        self.status_message = message;
    }

    /// The loose cards, which belong to no set.
    pub fn flashcards(&self) -> (r: &Vec<Flashcard>)
        ensures
            views(r@) == self@.flashcards,
            r@.len() == self@.flashcards.len(),
    {
        &self.flashcards
    }

    /// The loose quizzes, which belong to no set.
    pub fn quizzes(&self) -> (r: &Vec<Quiz>)
        ensures
            views(r@) == self@.quizzes,
            r@.len() == self@.quizzes.len(),
    {
        &self.quizzes
    }

    /// The index of the card, or of the question, that the user looks at.
    pub fn current_card_index(&self) -> (r: usize)
        ensures
            r == self@.current_card_index,
    {
        self.current_card_index
    }

    /// Whether the current card lies answer side up.
    pub fn card_flipped(&self) -> (r: bool)
        ensures
            r == self@.card_flipped,
    {
        self.card_flipped
    }

    /// Whether the hints of the current card are shown.
    pub fn show_hint(&self) -> (r: bool)
        ensures
            r == self@.show_hint,
    {
        self.show_hint
    }

    /// The index of the selected quiz, if one is selected.
    pub fn selected_quiz(&self) -> (r: Option<usize>)
        ensures
            r == self@.selected_quiz,
    {
        self.selected_quiz
    }

    /// Drops the study sets and the selected set.
    fn clear_sets(&mut self)
        ensures
            final(self)@ == old(self)@.without_sets(),
    {
        self.study_sets.clear();
        self.selected_set = None;
        assert(self@.study_sets =~= Seq::empty());
    }

    /// Drops everything derived from the storage.
    fn clear_derived(&mut self)
        ensures
            final(self)@ == old(self)@.cleared(),
    {
        self.available_classes.clear();
        self.selected_class = None;
        self.clear_sets();
        assert(self@.available_classes =~= Seq::empty());
    }

    /// First step of a pass. With a blank base path everything derived is
    /// dropped and the pass is over; otherwise the caller is asked whether
    /// the base folder exists.
    pub fn begin_reconcile(&mut self, config: &Config) -> (request: StorageRequest)
        ensures
            (Outcome { state: final(self)@, config: config@, request }) == begin_spec(
                old(self)@,
                config@,
            ),
            old(self).wf() ==> final(self).wf(),
    {
        if blank(config.storage_base_path.as_str()) {
            self.clear_derived();
            StorageRequest::Done
        } else {
            StorageRequest::ProbeBaseFolder
        }
    }

    /// Second step of a pass, on the answer whether the base folder exists.
    pub fn base_folder_checked(&mut self, config: &mut Config, exists: bool) -> (request:
        StorageRequest)
        ensures
            (Outcome { state: final(self)@, config: final(config)@, request }) == base_checked_spec(
                old(self)@,
                old(config)@,
                exists,
            ),
            old(self).wf() ==> final(self).wf(),
            answerable(request, final(self)@),
    {
        if !exists {
            self.clear_derived();
            self.status_message = String::from_str("Configured base folder no longer exists");
            StorageRequest::Done
        } else if config.storage_base_path != self.last_storage_base_path {
            StorageRequest::ListClasses
        } else {
            self.resolve(config)
        }
    }

    /// Third step of a pass, on the listed classes or the error of listing them.
    pub fn classes_listed(
        &mut self,
        config: &mut Config,
        listing: Result<Vec<String>, StorageError>,
    ) -> (request: StorageRequest)
        ensures
            (Outcome { state: final(self)@, config: final(config)@, request })
                == classes_listed_spec(old(self)@, old(config)@, listing_model(listing)),
            old(self).wf() ==> final(self).wf(),
            answerable(request, final(self)@),
    {
        match listing {
            Ok(names) => {
                self.available_classes = names;
                self.last_storage_base_path = config.storage_base_path.clone();
                self.resolve(config)
            },
            Err(error) => {
                self.clear_derived();
                self.status_message = concat("Error listing classes: ", error.message());
                StorageRequest::Done
            },
        }
    }

    /// Selects a class among those listed and decides whether its study sets
    /// must be read.
    fn resolve(&mut self, config: &mut Config) -> (request: StorageRequest)
        ensures
            (Outcome { state: final(self)@, config: final(config)@, request }) == resolve_spec(
                old(self)@,
                old(config)@,
            ),
            in_bounds_after(old(self)@, final(self)@),
            answerable(request, final(self)@),
    {
        if self.available_classes.len() == 0 {
            self.selected_class = None;
            self.clear_sets();
            return StorageRequest::Done;
        }
        let class_index: usize;
        if !blank(config.storage_class_name.as_str()) {
            match find_name(&self.available_classes, &config.storage_class_name) {
                Some(p) => {
                    self.selected_class = Some(p);
                    class_index = p;
                },
                None => {
                    self.selected_class = Some(0);
                    config.storage_class_name = self.available_classes[0].clone();
                    self.clear_sets();
                    self.status_message = String::from_str(
                        "Configured class not found; switched to first available class",
                    );
                    class_index = 0;
                },
            }
        } else {
            let repaired = repair_selection(self.selected_class, self.available_classes.len());
            self.selected_class = repaired;
            class_index = repaired.unwrap();
        }
        if config.storage_class_name != self.last_storage_class_name || self.study_sets.len() == 0 {
            StorageRequest::LoadSets { class_index }
        } else {
            StorageRequest::Done
        }
    }

    /// Fourth step of a pass, on the loaded study sets or the error of
    /// loading them.
    pub fn sets_loaded(&mut self, config: &Config, loading: Result<Vec<StudySet>, StorageError>)
        ensures
            final(self)@ == sets_loaded_spec(old(self)@, config@, loading_model(loading)),
            old(self).wf() ==> final(self).wf(),
    {
        match loading {
            Ok(sets) => {
                self.selected_set = repair_selection(self.selected_set, sets.len());
                self.study_sets = sets;
                self.last_storage_class_name = config.storage_class_name.clone();
            },
            Err(error) => {
                self.clear_sets();
                self.status_message = concat("Error loading sets: ", error.message());
            },
        }
    }

    /// A whole reconciliation pass against a storage tree held in memory:
    /// the steps in their order, each question answered by the tree.
    pub fn ensure_storage_consistency(&mut self, config: &mut Config, storage: &StorageTree)
        ensures
            (final(self)@, final(config)@) == reconcile_spec(old(self)@, old(config)@, storage@),
            old(self).wf() ==> final(self).wf(),
    {
        let begun = self.begin_reconcile(config);
        if begun == StorageRequest::Done {
            return;
        }
        let probed = self.base_folder_checked(config, storage.base_exists());
        let resolved = if probed == StorageRequest::ListClasses {
            self.classes_listed(config, storage.list_classes())
        } else {
            probed
        };
        match resolved {
            StorageRequest::LoadSets { class_index } => {
                let loading = storage.load_sets(self.available_classes[class_index].as_str());
                self.sets_loaded(config, loading);
            },
            _ => {},
        }
    }
}

/// What selecting a class keeps: the class selection ends in bounds, and the
/// set selection stays in bounds if it was.
pub open spec fn in_bounds_after(before: AppModel, after: AppModel) -> bool {
    &&& in_bounds(after.selected_class, after.available_classes.len())
    &&& in_bounds(before.selected_set, before.study_sets.len())
        ==> in_bounds(after.selected_set, after.study_sets.len())
}

} // verus!
