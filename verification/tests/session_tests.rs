use study_helper::app::StudyHelperApp;
use study_helper::models::{Flashcard, QuestionType, Quiz, StudySet};
use study_helper::storage::{Config, StorageError};

fn card(question: &str) -> Flashcard {
    Flashcard::new(question.to_string(), format!("answer to {}", question), Vec::new())
}

fn set_with_cards(name: &str, cards: &[&str]) -> StudySet {
    let mut set = StudySet::new(name.to_string());
    for c in cards {
        set.add_flashcard(card(c));
    }
    set
}

fn app_with_sets() -> StudyHelperApp {
    let mut app = StudyHelperApp::new();
    app.create_study_set(set_with_cards("first", &["a", "b", "c"]));
    app.create_study_set(set_with_cards("second", &[]));
    app.create_study_set(set_with_cards("third", &["x"]));
    app
}

fn questions(app: &StudyHelperApp, set: usize) -> Vec<String> {
    app.study_sets()[set].get_all_flashcards().iter().map(|c| c.question().to_string()).collect()
}

#[test]
fn loose_cards_and_quizzes() {
    let mut app = StudyHelperApp::new();
    app.add_flashcard(card("a"));
    app.add_flashcard(card("b"));
    app.add_flashcard(card("c"));
    app.remove_flashcard(1);
    app.remove_flashcard(5);
    let left: Vec<&str> = app.flashcards().iter().map(|c| c.question()).collect();
    assert_eq!(left, vec!["a", "c"]);
    app.create_quiz(Quiz::new("loose".to_string()));
    assert_eq!(app.quizzes().len(), 1);
    assert_eq!(app.quizzes()[0].title(), "loose");
    assert!(app.study_sets().is_empty());
}

#[test]
fn create_study_set_leaves_the_selection() {
    let mut app = StudyHelperApp::new();
    app.create_study_set(StudySet::new("one".to_string()));
    assert_eq!(app.study_sets().len(), 1);
    assert_eq!(app.selected_set(), None);
}

#[test]
fn select_set_picks_the_nearest_and_resets_the_card_view() {
    let mut app = app_with_sets();
    app.select_set(0);
    assert_eq!(app.selected_set(), Some(0));
    app.next_card();
    app.flip_card();
    app.toggle_hint();
    assert_eq!(app.current_card_index(), 1);
    app.select_set(0);
    assert_eq!(app.current_card_index(), 1);
    assert!(app.card_flipped());
    assert!(app.show_hint());
    app.select_set(9);
    assert_eq!(app.selected_set(), Some(2));
    assert_eq!(app.current_card_index(), 0);
    assert!(!app.card_flipped());
    assert!(!app.show_hint());
    let mut empty = StudyHelperApp::new();
    empty.select_set(0);
    assert_eq!(empty.selected_set(), None);
}

#[test]
fn cards_wrap_around_in_both_directions() {
    let mut app = app_with_sets();
    app.select_set(0);
    assert_eq!(app.show_card(), Some(0));
    app.next_card();
    assert_eq!(app.current_card_index(), 1);
    app.next_card();
    assert_eq!(app.current_card_index(), 2);
    app.flip_card();
    app.toggle_hint();
    app.next_card();
    assert_eq!(app.current_card_index(), 0);
    assert!(!app.card_flipped());
    assert!(!app.show_hint());
    app.previous_card();
    assert_eq!(app.current_card_index(), 2);
    app.previous_card();
    assert_eq!(app.current_card_index(), 1);
}

#[test]
fn nothing_moves_without_cards() {
    let mut app = app_with_sets();
    app.next_card();
    app.previous_card();
    app.select_card(2);
    assert_eq!(app.current_card_index(), 0);
    assert_eq!(app.show_card(), None);
    app.select_set(1);
    app.flip_card();
    app.next_card();
    app.previous_card();
    assert_eq!(app.current_card_index(), 0);
    assert!(app.card_flipped());
    assert_eq!(app.show_card(), None);
}

#[test]
fn show_card_goes_back_to_the_first_card_when_out_of_range() {
    let mut app = app_with_sets();
    app.select_set(0);
    app.select_card(2);
    assert_eq!(app.current_card_index(), 2);
    app.select_set(2);
    app.select_set(0);
    app.select_card(2);
    assert!(app.remove_card(0, 0).is_some());
    assert!(app.remove_card(0, 0).is_some());
    assert_eq!(app.current_card_index(), 0);
    assert_eq!(app.show_card(), Some(0));
}

#[test]
fn select_card_picks_the_nearest() {
    let mut app = app_with_sets();
    app.select_set(0);
    app.flip_card();
    app.select_card(0);
    assert!(app.card_flipped());
    app.select_card(7);
    assert_eq!(app.current_card_index(), 2);
    assert!(!app.card_flipped());
    app.select_card(1);
    assert_eq!(app.current_card_index(), 1);
}

#[test]
fn remove_card_keeps_the_current_index_in_range() {
    let mut app = app_with_sets();
    app.select_set(0);
    app.select_card(2);
    let removed = app.remove_card(0, 0).unwrap();
    assert_eq!(removed.question(), "a");
    assert_eq!(questions(&app, 0), vec!["b", "c"]);
    assert_eq!(app.current_card_index(), 1);
    assert_eq!(app.status_message(), "Removed flashcard: 'a'");
    app.remove_card(0, 1).unwrap();
    assert_eq!(app.current_card_index(), 0);
    assert_eq!(app.status_message(), "Removed flashcard: 'c'");
    app.remove_card(0, 0).unwrap();
    assert_eq!(app.current_card_index(), 0);
    assert!(questions(&app, 0).is_empty());
    assert_eq!(app.selected_set(), Some(0));
}

#[test]
fn remove_card_from_another_set_leaves_the_current_index() {
    let mut app = app_with_sets();
    app.select_set(0);
    app.select_card(2);
    assert_eq!(app.remove_card(2, 0).unwrap().question(), "x");
    assert_eq!(app.current_card_index(), 2);
    assert!(questions(&app, 2).is_empty());
    assert_eq!(questions(&app, 0), vec!["a", "b", "c"]);
}

#[test]
fn remove_card_that_does_not_exist_changes_nothing() {
    let mut app = app_with_sets();
    app.select_set(0);
    assert!(app.remove_card(0, 3).is_none());
    assert!(app.remove_card(1, 0).is_none());
    assert!(app.remove_card(3, 0).is_none());
    assert_eq!(questions(&app, 0), vec!["a", "b", "c"]);
    assert_eq!(app.status_message(), "");
}

#[test]
fn add_card_trims_and_shows_the_new_card() {
    let mut app = app_with_sets();
    app.select_set(0);
    app.flip_card();
    assert!(app.add_card("  What is Rust? ", "\tA language\n", vec!["hint".to_string()]));
    assert_eq!(questions(&app, 0), vec!["a", "b", "c", "What is Rust?"]);
    let added = app.study_sets()[0].get_flashcard(3).unwrap();
    assert_eq!(added.answer(), "A language");
    assert_eq!(added.get_hints(), &vec!["hint".to_string()]);
    assert_eq!(app.current_card_index(), 3);
    assert!(!app.card_flipped());
    assert_eq!(app.status_message(), "Added flashcard: 'What is Rust?'");
}

#[test]
fn add_card_needs_a_set_a_question_and_an_answer() {
    let mut app = app_with_sets();
    assert!(!app.add_card("q", "a", Vec::new()));
    app.select_set(1);
    assert!(!app.add_card("  ", "a", Vec::new()));
    assert!(!app.add_card("q", "", Vec::new()));
    assert!(questions(&app, 1).is_empty());
    assert_eq!(app.status_message(), "");
    assert!(app.add_card("q", "a", Vec::new()));
    assert_eq!(app.current_card_index(), 0);
}

#[test]
fn create_set_trims_the_name_and_selects_the_set() {
    let mut app = app_with_sets();
    assert!(!app.create_set("   "));
    assert!(!app.create_set(""));
    assert_eq!(app.study_sets().len(), 3);
    assert!(app.create_set("  Chapter 1: Intro "));
    assert_eq!(app.study_sets().len(), 4);
    assert_eq!(app.study_sets()[3].name(), "Chapter 1: Intro");
    assert!(app.study_sets()[3].get_all_flashcards().is_empty());
    assert_eq!(app.selected_set(), Some(3));
}

#[test]
fn class_loaded_takes_the_sets_and_counts_them() {
    let mut app = app_with_sets();
    app.select_set(2);
    app.flip_card();
    let sets: Vec<StudySet> = (0..12).map(|i| StudySet::new(format!("s{}", i))).collect();
    app.class_loaded(Ok(sets));
    assert_eq!(app.study_sets().len(), 12);
    assert_eq!(app.selected_set(), Some(0));
    assert!(!app.card_flipped());
    assert_eq!(app.status_message(), "Loaded 12 sets");
    app.class_loaded(Ok(Vec::new()));
    assert!(app.study_sets().is_empty());
    assert_eq!(app.selected_set(), None);
    assert_eq!(app.status_message(), "No sets found in class folder");
}

#[test]
fn class_loaded_with_an_error_keeps_the_sets() {
    let mut app = app_with_sets();
    app.select_set(2);
    app.class_loaded(Err(StorageError::Io("no such directory".to_string())));
    assert_eq!(app.study_sets().len(), 3);
    assert_eq!(app.selected_set(), Some(2));
    assert_eq!(app.status_message(), "Load error: no such directory");
}

#[test]
fn choose_class_renames_the_configured_class() {
    let mut app = StudyHelperApp::new();
    let mut config = Config::new("/data".to_string(), "".to_string());
    let listed = app.classes_listed(&mut config, Ok(vec!["Biology".to_string(), "Math".to_string()]));
    assert!(matches!(listed, study_helper::reconcile::StorageRequest::LoadSets { class_index: 0 }));
    assert!(!app.choose_class(&mut config, 0));
    assert!(!app.choose_class(&mut config, 2));
    assert_eq!(config.storage_class_name, "");
    assert!(app.choose_class(&mut config, 1));
    assert_eq!(app.selected_class(), Some(1));
    assert_eq!(config.storage_class_name, "Math");
    let mut blank = Config::new(" ".to_string(), "x".to_string());
    assert!(!app.choose_class(&mut blank, 0));
    assert_eq!(app.selected_class(), Some(0));
    assert_eq!(blank.storage_class_name, "x");
}

#[test]
fn status_message_can_be_replaced() {
    let mut app = StudyHelperApp::new();
    app.set_status_message("Saved: /data/Math/Cells.json".to_string());
    assert_eq!(app.status_message(), "Saved: /data/Math/Cells.json");
}

#[test]
fn study_sets_are_edited_in_place() {
    let mut app = app_with_sets();
    app.study_set_mut(1).unwrap().add_flashcard(card("new"));
    assert!(app.study_set_mut(3).is_none());
    assert_eq!(questions(&app, 1), vec!["new"]);
    assert_eq!(app.study_sets().len(), 3);
}

#[test]
fn quizzes_are_created_with_placeholders_and_selected() {
    let mut app = app_with_sets();
    assert!(!app.create_quiz_in_set("Quiz", 1, 0, 0, 0));
    app.select_set(0);
    assert!(!app.create_quiz_in_set("  ", 1, 0, 0, 0));
    assert!(app.create_quiz_in_set(" Midterm ", 1, 1, 0, 0));
    assert_eq!(app.study_sets()[0].quiz_titles(), vec!["Midterm".to_string()]);
    assert_eq!(app.selected_quiz(), Some(0));
    assert_eq!(app.status_message(), "Created quiz 'Midterm'");
    let quiz = &app.study_sets()[0].get_all_quizzes()[0];
    assert_eq!(quiz.question_count(), 2);
    assert_eq!(quiz.get_question_data(1).unwrap().prompt, "True/False placeholder #1");
    assert!(app.create_quiz_in_set("Final", 0, 0, 0, 0));
    assert_eq!(app.selected_quiz(), Some(1));
    assert!(app.quizzes().is_empty());
}

#[test]
fn select_quiz_falls_back_to_the_first() {
    let mut app = app_with_sets();
    app.select_quiz(0);
    assert_eq!(app.selected_quiz(), None);
    app.select_set(0);
    app.create_quiz_in_set("one", 0, 0, 0, 0);
    app.create_quiz_in_set("two", 0, 0, 0, 0);
    app.create_quiz_in_set("three", 0, 0, 0, 0);
    app.next_card();
    app.select_quiz(2);
    assert_eq!(app.selected_quiz(), Some(2));
    assert_eq!(app.current_card_index(), 1);
    app.select_quiz(1);
    assert_eq!(app.selected_quiz(), Some(1));
    assert_eq!(app.current_card_index(), 0);
    app.select_quiz(3);
    assert_eq!(app.selected_quiz(), Some(0));
}

#[test]
fn delete_quiz_moves_the_selection() {
    let mut app = app_with_sets();
    assert!(app.delete_selected_quiz().is_none());
    app.select_set(0);
    app.create_quiz_in_set("one", 0, 0, 0, 0);
    app.create_quiz_in_set("two", 0, 0, 0, 0);
    app.create_quiz_in_set("three", 0, 0, 0, 0);
    app.select_quiz(1);
    assert_eq!(app.delete_selected_quiz().unwrap().title(), "two");
    assert_eq!(app.status_message(), "Deleted quiz 'two'");
    assert_eq!(app.study_sets()[0].quiz_titles(), vec!["one".to_string(), "three".to_string()]);
    assert_eq!(app.selected_quiz(), Some(1));
    assert_eq!(app.delete_selected_quiz().unwrap().title(), "three");
    assert_eq!(app.selected_quiz(), Some(0));
    assert_eq!(app.delete_selected_quiz().unwrap().title(), "one");
    assert_eq!(app.selected_quiz(), None);
    assert!(app.delete_selected_quiz().is_none());
    assert_eq!(app.selected_set(), Some(0));
}

#[test]
fn questions_are_added_edited_and_deleted() {
    let mut app = app_with_sets();
    app.add_blank_question();
    app.select_set(2);
    app.create_quiz_in_set("quiz", 0, 0, 1, 0);
    app.add_blank_question();
    {
        let quiz = &app.study_sets()[2].get_all_quizzes()[0];
        assert_eq!(quiz.question_count(), 2);
        let added = quiz.get_question_data(1).unwrap();
        assert_eq!(added.prompt, "New question");
        assert!(added.options.is_empty());
        assert_eq!(added.answer, "");
        assert_eq!(added.question_type, QuestionType::FillInTheBlank);
    }
    app.select_card(0);
    assert!(app.apply_question_edit("Pick".to_string(), "b".to_string(), " a, b ,, c,", QuestionType::MultipleChoice));
    {
        let edited = app.study_sets()[2].get_all_quizzes()[0].get_question_data(0).unwrap();
        assert_eq!(edited.prompt, "Pick");
        assert_eq!(edited.answer, "b");
        assert_eq!(edited.options, vec!["a".to_string(), "b".to_string(), "c".to_string()]);
        assert_eq!(edited.question_type, QuestionType::MultipleChoice);
    }
    app.delete_current_question();
    assert_eq!(app.current_card_index(), 0);
    assert_eq!(app.study_sets()[2].get_all_quizzes()[0].question_count(), 1);
    assert_eq!(app.study_sets()[2].get_all_quizzes()[0].get_question_data(0).unwrap().prompt, "New question");
    app.delete_current_question();
    app.delete_current_question();
    assert_eq!(app.study_sets()[2].get_all_quizzes()[0].question_count(), 0);
    assert!(!app.apply_question_edit("p".to_string(), "a".to_string(), "", QuestionType::FillInTheBlank));
}

#[test]
fn deleting_a_later_question_steps_back() {
    let mut app = app_with_sets();
    app.select_set(0);
    app.create_quiz_in_set("quiz", 0, 0, 3, 0);
    app.select_card(2);
    assert_eq!(app.current_card_index(), 2);
    app.delete_current_question();
    assert_eq!(app.current_card_index(), 1);
    let quiz = &app.study_sets()[0].get_all_quizzes()[0];
    assert_eq!(quiz.question_count(), 2);
    assert_eq!(quiz.get_question_data(1).unwrap().prompt, "Short answer placeholder #2");
}

#[test]
fn select_question_needs_a_question() {
    let mut app = app_with_sets();
    app.select_question(1);
    assert_eq!(app.current_card_index(), 0);
    app.select_set(0);
    app.create_quiz_in_set("quiz", 0, 0, 2, 0);
    app.select_question(1);
    assert_eq!(app.current_card_index(), 1);
    app.select_question(2);
    assert_eq!(app.current_card_index(), 1);
    app.select_question(0);
    assert_eq!(app.current_card_index(), 0);
}

#[test]
fn refreshed_classes_select_the_first() {
    let mut app = StudyHelperApp::new();
    app.classes_refreshed(vec!["A".to_string(), "B".to_string()]);
    assert_eq!(app.available_classes(), &vec!["A".to_string(), "B".to_string()]);
    assert_eq!(app.selected_class(), Some(0));
    let mut config = Config::new("/data".to_string(), "".to_string());
    assert!(app.choose_class(&mut config, 1));
    app.classes_refreshed(Vec::new());
    assert_eq!(app.selected_class(), None);
    assert!(app.available_classes().is_empty());
}
