use study_helper::app::StudyHelperApp;
use study_helper::models::{Flashcard, StudySet};
use study_helper::reconcile::{find_name, repair_selection, StorageRequest};
use study_helper::storage::{ClassFolder, Config, Folder, FolderEntry, StorageError, StorageTree};

fn dir(name: &str) -> Result<FolderEntry, StorageError> {
    Ok(FolderEntry { file_name: Some(name.to_string()), extension: None, is_dir: true, study_set: None })
}

fn set_file(name: &str, cards: usize) -> Result<FolderEntry, StorageError> {
    let mut set = StudySet::new(name.to_string());
    for i in 0..cards {
        set.add_flashcard(Flashcard::new(format!("q{}", i), format!("a{}", i), Vec::new()));
    }
    Ok(FolderEntry {
        file_name: Some(format!("{}.json", name)),
        extension: Some("json".to_string()),
        is_dir: false,
        study_set: Some(set),
    })
}

fn class(name: &str, sets: &[&str]) -> ClassFolder {
    ClassFolder {
        name: name.to_string(),
        folder: Folder::Entries(sets.iter().map(|s| set_file(s, 1)).collect()),
    }
}

fn school() -> StorageTree {
    StorageTree {
        base: Folder::Entries(vec![dir("Biology"), dir("Math"), dir("Art")]),
        class_folders: vec![class("Biology", &["Cells", "Plants"]), class("Math", &["Algebra"]), class("Art", &[])],
    }
}

fn config(base: &str, class_name: &str) -> Config {
    Config::new(base.to_string(), class_name.to_string())
}

#[derive(Debug, PartialEq)]
struct Seen {
    classes: Vec<String>,
    selected_class: Option<usize>,
    sets: Vec<String>,
    selected_set: Option<usize>,
    last_base: String,
    last_class: String,
    status: String,
    base: String,
    class_name: String,
}

fn seen(app: &StudyHelperApp, config: &Config) -> Seen {
    Seen {
        classes: app.available_classes().clone(),
        selected_class: app.selected_class(),
        sets: app.study_sets().iter().map(|s| s.name().to_string()).collect(),
        selected_set: app.selected_set(),
        last_base: app.last_storage_base_path().to_string(),
        last_class: app.last_storage_class_name().to_string(),
        status: app.status_message().to_string(),
        base: config.storage_base_path.clone(),
        class_name: config.storage_class_name.clone(),
    }
}

fn in_bounds(app: &StudyHelperApp) -> bool {
    app.selected_class().map_or(true, |i| i < app.available_classes().len())
        && app.selected_set().map_or(true, |i| i < app.study_sets().len())
}

/// Runs a pass step by step and returns the requests it made.
fn pass(app: &mut StudyHelperApp, config: &mut Config, tree: &StorageTree) -> Vec<StorageRequest> {
    let mut asked = Vec::new();
    let mut request = app.begin_reconcile(config);
    loop {
        asked.push(request);
        request = match request {
            StorageRequest::Done => return asked,
            StorageRequest::ProbeBaseFolder => app.base_folder_checked(config, tree.base_exists()),
            StorageRequest::ListClasses => app.classes_listed(config, tree.list_classes()),
            StorageRequest::LoadSets { class_index } => {
                let name = app.available_classes()[class_index].clone();
                app.sets_loaded(config, tree.load_sets(&name));
                StorageRequest::Done
            }
        };
    }
}

#[test]
fn a_new_state_is_empty() {
    let app = StudyHelperApp::new();
    assert!(app.available_classes().is_empty());
    assert_eq!(app.selected_class(), None);
    assert!(app.selected_class_name().is_none());
    assert!(app.study_sets().is_empty());
    assert_eq!(app.selected_set(), None);
    assert!(app.selected_study_set().is_none());
    assert_eq!(app.last_storage_base_path(), "");
    assert_eq!(app.last_storage_class_name(), "");
    assert_eq!(app.status_message(), "");
    assert!(app.flashcards().is_empty());
    assert!(app.quizzes().is_empty());
    assert_eq!(app.current_card_index(), 0);
    assert!(!app.card_flipped());
    assert!(!app.show_hint());
    assert_eq!(app.selected_quiz(), None);
}

#[test]
fn find_name_gives_the_first_match() {
    let names = vec!["a".to_string(), "b".to_string(), "a".to_string()];
    assert_eq!(find_name(&names, &"a".to_string()), Some(0));
    assert_eq!(find_name(&names, &"b".to_string()), Some(1));
    assert_eq!(find_name(&names, &"A".to_string()), None);
    assert_eq!(find_name(&Vec::new(), &"a".to_string()), None);
}

#[test]
fn repair_selection_keeps_what_is_in_range() {
    assert_eq!(repair_selection(None, 0), None);
    assert_eq!(repair_selection(Some(0), 0), None);
    assert_eq!(repair_selection(None, 3), Some(0));
    assert_eq!(repair_selection(Some(2), 3), Some(2));
    assert_eq!(repair_selection(Some(3), 3), Some(0));
    assert_eq!(repair_selection(Some(usize::MAX), 1), Some(0));
}

#[test]
fn first_pass_lists_and_loads() {
    let tree = school();
    let mut app = StudyHelperApp::new();
    let mut cfg = config("/data", "Math");
    let asked = pass(&mut app, &mut cfg, &tree);
    assert_eq!(
        asked,
        vec![
            StorageRequest::ProbeBaseFolder,
            StorageRequest::ListClasses,
            StorageRequest::LoadSets { class_index: 1 },
            StorageRequest::Done,
        ]
    );
    assert_eq!(
        seen(&app, &cfg),
        Seen {
            classes: vec!["Biology".to_string(), "Math".to_string(), "Art".to_string()],
            selected_class: Some(1),
            sets: vec!["Algebra".to_string()],
            selected_set: Some(0),
            last_base: "/data".to_string(),
            last_class: "Math".to_string(),
            status: "".to_string(),
            base: "/data".to_string(),
            class_name: "Math".to_string(),
        }
    );
    assert_eq!(app.selected_class_name(), Some("Math"));
    assert_eq!(app.selected_study_set().unwrap().name(), "Algebra");
}

#[test]
fn second_pass_reads_nothing_and_changes_nothing() {
    let tree = school();
    let mut app = StudyHelperApp::new();
    let mut cfg = config("/data", "Biology");
    pass(&mut app, &mut cfg, &tree);
    let first = seen(&app, &cfg);
    let asked = pass(&mut app, &mut cfg, &tree);
    assert_eq!(asked, vec![StorageRequest::ProbeBaseFolder, StorageRequest::Done]);
    assert_eq!(seen(&app, &cfg), first);
    assert_eq!(first.sets, vec!["Cells".to_string(), "Plants".to_string()]);
}

#[test]
fn whole_pass_agrees_with_the_steps() {
    let tree = school();
    for (base, class_name) in [("/data", "Math"), ("/data", "Nope"), ("/data", ""), ("", "Math"), ("  ", "")] {
        let mut stepped = StudyHelperApp::new();
        let mut stepped_cfg = config(base, class_name);
        pass(&mut stepped, &mut stepped_cfg, &tree);
        let mut whole = StudyHelperApp::new();
        let mut whole_cfg = config(base, class_name);
        whole.ensure_storage_consistency(&mut whole_cfg, &tree);
        assert_eq!(seen(&whole, &whole_cfg), seen(&stepped, &stepped_cfg));
        let once = seen(&whole, &whole_cfg);
        whole.ensure_storage_consistency(&mut whole_cfg, &tree);
        assert_eq!(seen(&whole, &whole_cfg), once);
    }
}

#[test]
fn blank_base_path_clears_everything() {
    let tree = school();
    let mut app = StudyHelperApp::new();
    let mut cfg = config("/data", "Math");
    pass(&mut app, &mut cfg, &tree);
    assert!(!app.study_sets().is_empty());
    cfg.storage_base_path = "   ".to_string();
    let asked = pass(&mut app, &mut cfg, &tree);
    assert_eq!(asked, vec![StorageRequest::Done]);
    assert!(app.available_classes().is_empty());
    assert_eq!(app.selected_class(), None);
    assert!(app.study_sets().is_empty());
    assert_eq!(app.selected_set(), None);
    assert_eq!(app.status_message(), "");
    assert_eq!(app.last_storage_base_path(), "/data");
}

#[test]
fn missing_base_folder_clears_everything_and_says_so() {
    let tree = school();
    let gone = StorageTree { base: Folder::Missing, class_folders: Vec::new() };
    let mut app = StudyHelperApp::new();
    let mut cfg = config("/data", "Math");
    pass(&mut app, &mut cfg, &tree);
    let asked = pass(&mut app, &mut cfg, &gone);
    assert_eq!(asked, vec![StorageRequest::ProbeBaseFolder, StorageRequest::Done]);
    assert!(app.available_classes().is_empty());
    assert_eq!(app.selected_class(), None);
    assert!(app.study_sets().is_empty());
    assert_eq!(app.selected_set(), None);
    assert_eq!(app.status_message(), "Configured base folder no longer exists");
    assert_eq!(cfg.storage_class_name, "Math");
}

#[test]
fn listing_failure_clears_everything_and_is_tried_again() {
    let locked = StorageTree {
        base: Folder::Unreadable(StorageError::Io("permission denied".to_string())),
        class_folders: Vec::new(),
    };
    let mut app = StudyHelperApp::new();
    let mut cfg = config("/data", "Math");
    let asked = pass(&mut app, &mut cfg, &locked);
    assert_eq!(asked, vec![StorageRequest::ProbeBaseFolder, StorageRequest::ListClasses, StorageRequest::Done]);
    assert_eq!(app.status_message(), "Error listing classes: permission denied");
    assert!(app.available_classes().is_empty());
    assert_eq!(app.selected_class(), None);
    assert_eq!(app.last_storage_base_path(), "");
    let first = seen(&app, &cfg);
    let again = pass(&mut app, &mut cfg, &locked);
    assert_eq!(again, vec![StorageRequest::ProbeBaseFolder, StorageRequest::ListClasses, StorageRequest::Done]);
    assert_eq!(seen(&app, &cfg), first);
}

#[test]
fn base_folder_without_classes_selects_nothing() {
    let empty = StorageTree { base: Folder::Entries(Vec::new()), class_folders: Vec::new() };
    let mut app = StudyHelperApp::new();
    let mut cfg = config("/data", "Math");
    let asked = pass(&mut app, &mut cfg, &empty);
    assert_eq!(asked, vec![StorageRequest::ProbeBaseFolder, StorageRequest::ListClasses, StorageRequest::Done]);
    assert_eq!(app.selected_class(), None);
    assert!(app.study_sets().is_empty());
    assert_eq!(app.selected_set(), None);
    assert_eq!(app.last_storage_base_path(), "/data");
    assert_eq!(cfg.storage_class_name, "Math");
    assert_eq!(app.status_message(), "");
}

#[test]
fn missing_class_falls_back_to_the_first() {
    let tree = school();
    let mut app = StudyHelperApp::new();
    let mut cfg = config("/data", "Math");
    pass(&mut app, &mut cfg, &tree);
    assert_eq!(app.study_sets()[0].name(), "Algebra");
    cfg.storage_class_name = "Chemistry".to_string();
    let asked = pass(&mut app, &mut cfg, &tree);
    assert_eq!(
        asked,
        vec![StorageRequest::ProbeBaseFolder, StorageRequest::LoadSets { class_index: 0 }, StorageRequest::Done]
    );
    assert_eq!(app.selected_class(), Some(0));
    assert_eq!(cfg.storage_class_name, "Biology");
    assert_eq!(app.status_message(), "Configured class not found; switched to first available class");
    let names: Vec<&str> = app.study_sets().iter().map(|s| s.name()).collect();
    assert_eq!(names, vec!["Cells", "Plants"]);
    assert_eq!(app.selected_set(), Some(0));
    assert_eq!(app.last_storage_class_name(), "Biology");
    let first = seen(&app, &cfg);
    let again = pass(&mut app, &mut cfg, &tree);
    assert_eq!(again, vec![StorageRequest::ProbeBaseFolder, StorageRequest::Done]);
    assert_eq!(seen(&app, &cfg), first);
}

#[test]
fn class_names_match_exactly() {
    let tree = school();
    let mut app = StudyHelperApp::new();
    let mut cfg = config("/data", "math");
    pass(&mut app, &mut cfg, &tree);
    assert_eq!(app.selected_class(), Some(0));
    assert_eq!(cfg.storage_class_name, "Biology");
}

#[test]
fn blank_class_name_selects_the_first_class() {
    let tree = school();
    let mut app = StudyHelperApp::new();
    let mut cfg = config("/data", " ");
    let asked = pass(&mut app, &mut cfg, &tree);
    assert_eq!(
        asked,
        vec![
            StorageRequest::ProbeBaseFolder,
            StorageRequest::ListClasses,
            StorageRequest::LoadSets { class_index: 0 },
            StorageRequest::Done,
        ]
    );
    assert_eq!(app.selected_class(), Some(0));
    assert_eq!(cfg.storage_class_name, " ");
    assert_eq!(app.last_storage_class_name(), " ");
    assert_eq!(app.study_sets().len(), 2);
    assert_eq!(app.status_message(), "");
}

#[test]
fn blank_class_name_keeps_a_selection_in_range() {
    let tree = school();
    let mut app = StudyHelperApp::new();
    let mut cfg = config("/data", "Math");
    pass(&mut app, &mut cfg, &tree);
    cfg.storage_class_name = "".to_string();
    let asked = pass(&mut app, &mut cfg, &tree);
    assert_eq!(
        asked,
        vec![StorageRequest::ProbeBaseFolder, StorageRequest::LoadSets { class_index: 1 }, StorageRequest::Done]
    );
    assert_eq!(app.selected_class(), Some(1));
    assert_eq!(app.study_sets()[0].name(), "Algebra");
    assert_eq!(app.last_storage_class_name(), "");
}

#[test]
fn changed_base_path_lists_again_and_repairs_the_selection() {
    let tree = school();
    let small = StorageTree {
        base: Folder::Entries(vec![dir("History")]),
        class_folders: vec![class("History", &["Rome"])],
    };
    let mut app = StudyHelperApp::new();
    let mut cfg = config("/data", "Art");
    pass(&mut app, &mut cfg, &tree);
    assert_eq!(app.selected_class(), Some(2));
    cfg.storage_base_path = "/other".to_string();
    cfg.storage_class_name = "".to_string();
    let asked = pass(&mut app, &mut cfg, &small);
    assert_eq!(
        asked,
        vec![
            StorageRequest::ProbeBaseFolder,
            StorageRequest::ListClasses,
            StorageRequest::LoadSets { class_index: 0 },
            StorageRequest::Done,
        ]
    );
    assert_eq!(app.available_classes(), &vec!["History".to_string()]);
    assert_eq!(app.selected_class(), Some(0));
    assert_eq!(app.study_sets()[0].name(), "Rome");
    assert_eq!(app.last_storage_base_path(), "/other");
}

#[test]
fn empty_class_is_loaded_again_on_every_pass() {
    let tree = school();
    let mut app = StudyHelperApp::new();
    let mut cfg = config("/data", "Art");
    pass(&mut app, &mut cfg, &tree);
    assert!(app.study_sets().is_empty());
    assert_eq!(app.selected_set(), None);
    assert_eq!(app.last_storage_class_name(), "Art");
    let first = seen(&app, &cfg);
    let asked = pass(&mut app, &mut cfg, &tree);
    assert_eq!(
        asked,
        vec![StorageRequest::ProbeBaseFolder, StorageRequest::LoadSets { class_index: 2 }, StorageRequest::Done]
    );
    assert_eq!(seen(&app, &cfg), first);
}

#[test]
fn load_failure_clears_the_sets_and_says_so() {
    let tree = school();
    let broken = StorageTree {
        base: Folder::Entries(vec![dir("Biology"), dir("Math"), dir("Art")]),
        class_folders: vec![ClassFolder {
            name: "Biology".to_string(),
            folder: Folder::Unreadable(StorageError::Io("disk error".to_string())),
        }],
    };
    let mut app = StudyHelperApp::new();
    let mut cfg = config("/data", "Math");
    pass(&mut app, &mut cfg, &tree);
    app.select_set(0);
    cfg.storage_class_name = "Biology".to_string();
    pass(&mut app, &mut cfg, &broken);
    assert_eq!(app.selected_class(), Some(0));
    assert!(app.study_sets().is_empty());
    assert_eq!(app.selected_set(), None);
    assert_eq!(app.status_message(), "Error loading sets: disk error");
    assert_eq!(app.last_storage_class_name(), "Math");
}

#[test]
fn reload_repairs_the_selected_set() {
    let tree = school();
    let mut app = StudyHelperApp::new();
    let mut cfg = config("/data", "Biology");
    pass(&mut app, &mut cfg, &tree);
    app.select_set(1);
    assert_eq!(app.selected_set(), Some(1));
    cfg.storage_class_name = "Math".to_string();
    pass(&mut app, &mut cfg, &tree);
    assert_eq!(app.study_sets().len(), 1);
    assert_eq!(app.selected_set(), Some(0));
    cfg.storage_class_name = "Biology".to_string();
    pass(&mut app, &mut cfg, &tree);
    assert_eq!(app.selected_set(), Some(0));
    app.select_set(1);
    cfg.storage_class_name = "Art".to_string();
    pass(&mut app, &mut cfg, &tree);
    assert_eq!(app.selected_set(), None);
}

#[test]
fn selections_stay_in_bounds_through_removals_and_passes() {
    let tree = school();
    let gone = StorageTree { base: Folder::Missing, class_folders: Vec::new() };
    let mut app = StudyHelperApp::new();
    let mut cfg = config("/data", "Biology");
    assert!(in_bounds(&app));
    pass(&mut app, &mut cfg, &tree);
    assert!(in_bounds(&app));
    app.select_set(1);
    assert!(app.remove_card(1, 0).is_some());
    assert!(in_bounds(&app));
    assert!(app.remove_card(1, 0).is_none());
    assert!(app.remove_card(7, 0).is_none());
    assert!(in_bounds(&app));
    pass(&mut app, &mut cfg, &tree);
    assert!(in_bounds(&app));
    assert!(app.delete_selected_quiz().is_none());
    app.delete_current_question();
    app.remove_flashcard(0);
    assert!(in_bounds(&app));
    cfg.storage_class_name = "Art".to_string();
    pass(&mut app, &mut cfg, &tree);
    assert!(in_bounds(&app));
    assert_eq!(app.selected_set(), None);
    cfg.storage_class_name = "Zoology".to_string();
    pass(&mut app, &mut cfg, &tree);
    assert!(in_bounds(&app));
    pass(&mut app, &mut cfg, &gone);
    assert!(in_bounds(&app));
    assert_eq!(app.selected_class(), None);
    assert_eq!(app.selected_set(), None);
}

#[test]
fn start_with_a_known_class_loads_it() {
    let tree = school();
    let cfg = config("/data", "Math");
    let (mut app, request) = StudyHelperApp::start(&cfg);
    assert_eq!(request, StorageRequest::ListClasses);
    assert_eq!(app.last_storage_base_path(), "/data");
    assert_eq!(app.last_storage_class_name(), "Math");
    let request = app.started_classes_listed(&cfg, tree.list_classes());
    assert_eq!(request, StorageRequest::LoadSets { class_index: 1 });
    app.started_sets_loaded(tree.load_sets("Math"));
    assert_eq!(app.selected_class(), Some(1));
    assert_eq!(app.study_sets().len(), 1);
    assert_eq!(app.selected_set(), Some(0));
    let whole = StudyHelperApp::startup(&cfg, &tree);
    assert_eq!(seen(&whole, &cfg), seen(&app, &cfg));
}

#[test]
fn start_with_an_unknown_class_selects_the_first_and_loads_nothing() {
    let tree = school();
    let cfg = config("/data", "Chemistry");
    let app = StudyHelperApp::startup(&cfg, &tree);
    assert_eq!(app.available_classes().len(), 3);
    assert_eq!(app.selected_class(), Some(0));
    assert!(app.study_sets().is_empty());
    assert_eq!(app.selected_set(), None);
    assert_eq!(app.last_storage_class_name(), "Chemistry");
    assert_eq!(app.status_message(), "");
}

#[test]
fn start_without_a_class_name_selects_the_first_class() {
    let tree = school();
    let app = StudyHelperApp::startup(&config("/data", ""), &tree);
    assert_eq!(app.selected_class(), Some(0));
    assert!(app.study_sets().is_empty());
}

#[test]
fn start_without_a_base_path_asks_nothing() {
    let cfg = config(" ", "Math");
    let (app, request) = StudyHelperApp::start(&cfg);
    assert_eq!(request, StorageRequest::Done);
    assert!(app.available_classes().is_empty());
    assert_eq!(app.selected_class(), None);
    assert_eq!(app.last_storage_base_path(), " ");
    let whole = StudyHelperApp::startup(&cfg, &school());
    assert!(whole.available_classes().is_empty());
}

#[test]
fn start_survives_failures() {
    let cfg = config("/data", "Biology");
    let locked = StorageTree {
        base: Folder::Unreadable(StorageError::Io("permission denied".to_string())),
        class_folders: Vec::new(),
    };
    let app = StudyHelperApp::startup(&cfg, &locked);
    assert!(app.available_classes().is_empty());
    assert_eq!(app.selected_class(), None);
    assert_eq!(app.status_message(), "");
    let broken = StorageTree {
        base: Folder::Entries(vec![dir("Biology")]),
        class_folders: vec![ClassFolder {
            name: "Biology".to_string(),
            folder: Folder::Unreadable(StorageError::Io("disk error".to_string())),
        }],
    };
    let app = StudyHelperApp::startup(&cfg, &broken);
    assert_eq!(app.selected_class(), Some(0));
    assert!(app.study_sets().is_empty());
    assert_eq!(app.selected_set(), None);
    let empty = StorageTree { base: Folder::Entries(Vec::new()), class_folders: Vec::new() };
    let app = StudyHelperApp::startup(&cfg, &empty);
    assert_eq!(app.selected_class(), None);
}
