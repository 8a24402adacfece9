//! Rebuilding the state from the configuration when the application starts.
//!
//! Like a reconciliation pass, the start is driven from outside: each step
//! returns a [`StorageRequest`] that the caller answers from the file system.
//! [`StudyHelperApp::startup`] runs the whole start against a storage tree
//! held in memory.
use super::StudyHelperApp;
use crate::models::study_set::StudySet;
use crate::reconcile::{
    answerable, find_name, first_index, initial_model, load_spec, AppModel, Listing, Loading,
    StorageModel, StorageRequest,
};
use crate::storage::config::{Config, ConfigModel};
use crate::storage::error::StorageError;
use crate::storage::tree::{listing_model, loading_model, StorageTree};
use crate::text::{blank, is_blank};
use vstd::prelude::*;

verus! {

/// The state a start begins with: nothing listed or loaded, and the
/// configured base path and class name remembered as the ones last seen.
pub open spec fn start_spec(c: ConfigModel) -> AppModel {
    AppModel { last_base_path: c.base_path, last_class_name: c.class_name, ..initial_model() }
}

/// What a start asks first: the classes, unless the base path is blank.
pub open spec fn start_request(c: ConfigModel) -> StorageRequest {
    if is_blank(c.base_path) {
        StorageRequest::Done
    } else {
        StorageRequest::ListClasses
    }
}

/// Second step of a start, on the listed classes. A failure leaves the state
/// as it is. Among the classes listed, a configured (non-blank) class name
/// selects the first class of that name, whose study sets are then asked
/// for; otherwise the first class is selected and nothing is loaded. Without
/// classes nothing is selected.
pub open spec fn started_listed_spec(s: AppModel, c: ConfigModel, listing: Listing) -> (
    AppModel,
    StorageRequest,
) {
    match listing {
        Err(_) => (s, StorageRequest::Done),
        Ok(names) => {
            let listed = AppModel { available_classes: names, ..s };
            if names.len() == 0 {
                (AppModel { selected_class: None, ..listed }, StorageRequest::Done)
            } else if !is_blank(c.class_name) && first_index(names, c.class_name) < names.len() {
                let p = first_index(names, c.class_name) as usize;
                (
                    AppModel { selected_class: Some(p), ..listed },
                    StorageRequest::LoadSets { class_index: p },
                )
            } else {
                (AppModel { selected_class: Some(0), ..listed }, StorageRequest::Done)
            }
        },
    }
}

/// Third step of a start, on the loaded study sets. A failure leaves the
/// state as it is. A success takes the study sets and selects the first;
/// without study sets nothing is selected.
pub open spec fn started_loaded_spec(s: AppModel, loading: Loading) -> AppModel {
    match loading {
        Err(_) => s,
        Ok(sets) => AppModel {
            study_sets: sets,
            selected_set: if sets.len() > 0 {
                Some(0)
            } else {
                None
            },
            ..s
        },
    }
}

/// A whole start against a storage tree.
pub open spec fn startup_spec(c: ConfigModel, storage: StorageModel) -> AppModel {
    if start_request(c) == StorageRequest::Done {
        start_spec(c)
    } else {
        let (listed, request) = started_listed_spec(start_spec(c), c, storage.classes);
        match request {
            StorageRequest::LoadSets { class_index } => started_loaded_spec(
                listed,
                load_spec(storage.folders, listed.available_classes[class_index as int]),
            ),
            _ => listed,
        }
    }
}

impl StudyHelperApp {
    /// First step of a start: the state to begin with, and what to ask.
    pub fn start(config: &Config) -> (r: (Self, StorageRequest))
        ensures
            r.0@ == start_spec(config@),
            r.1 == start_request(config@),
            r.0.wf(),
    {
        let mut app = StudyHelperApp::new();
        app.last_storage_base_path = config.storage_base_path.clone();
        app.last_storage_class_name = config.storage_class_name.clone();
        let request = if blank(config.storage_base_path.as_str()) {
            StorageRequest::Done
        } else {
            StorageRequest::ListClasses
        };
        (app, request)
    }

    /// Second step of a start, on the listed classes or the error of
    /// listing them.
    pub fn started_classes_listed(
        &mut self,
        config: &Config,
        listing: Result<Vec<String>, StorageError>,
    ) -> (request: StorageRequest)
        ensures
            (final(self)@, request) == started_listed_spec(
                old(self)@,
                config@,
                listing_model(listing),
            ),
            old(self).wf() ==> final(self).wf(),
            answerable(request, final(self)@),
    {
        match listing {
            Err(_) => StorageRequest::Done,
            Ok(names) => {
                self.available_classes = names;
                if self.available_classes.len() == 0 {
                    self.selected_class = None;
                    return StorageRequest::Done;
                }
                if !blank(config.storage_class_name.as_str()) {
                    match find_name(&self.available_classes, &config.storage_class_name) {
                        Some(p) => {
                            self.selected_class = Some(p);
                            return StorageRequest::LoadSets { class_index: p };
                        },
                        None => {},
                    }
                }
                self.selected_class = Some(0);
                StorageRequest::Done
            },
        }
    }

    /// Third step of a start, on the loaded study sets or the error of
    /// loading them.
    pub fn started_sets_loaded(&mut self, loading: Result<Vec<StudySet>, StorageError>)
        ensures
            final(self)@ == started_loaded_spec(old(self)@, loading_model(loading)),
            old(self).wf() ==> final(self).wf(),
    {
        match loading {
            Err(_) => {},
            Ok(sets) => {
                self.selected_set = if sets.len() > 0 {
                    Some(0)
                } else {
                    None
                };
                self.study_sets = sets;
            },
        }
    }

    /// A whole start against a storage tree held in memory.
    pub fn startup(config: &Config, storage: &StorageTree) -> (app: Self)
        ensures
            app@ == startup_spec(config@, storage@),
            app.wf(),
    {
        let (mut app, request) = StudyHelperApp::start(config);
        if request == StorageRequest::Done {
            return app;
        }
        let listed = app.started_classes_listed(config, storage.list_classes());
        match listed {
            StorageRequest::LoadSets { class_index } => {
                let loading = storage.load_sets(app.available_classes[class_index].as_str());
                app.started_sets_loaded(loading);
            },
            _ => {},
        }
        app
    }
}

} // verus!
