//! What the user does between two passes: choosing a set, turning and
//! leafing through its cards, adding and removing cards and sets. Every
//! operation leaves each selection absent or in range if it was.
use super::StudyHelperApp;
use crate::models::flashcard::{Flashcard, FlashcardModel};
use crate::models::quiz::Quiz;
use crate::models::study_set::{StudySet, StudySetModel};
use crate::models::lemma_views_update;
use crate::reconcile::{AppModel, Loading};
use crate::storage::config::{Config, ConfigModel};
use crate::storage::error::StorageError;
use crate::storage::tree::loading_model;
use crate::text::{blank, decimal, decimal_string, is_blank, texts, trim, trimmed};
use vstd::prelude::*;

verus! {

/// The state with the card view back at the first card, question side up,
/// hints hidden.
pub open spec fn card_view_reset(s: AppModel) -> AppModel {
    AppModel { current_card_index: 0, card_flipped: false, show_hint: false, ..s }
}

/// The flashcards of the selected set; none where no set is selected.
pub open spec fn cards_in_view(s: AppModel) -> Seq<FlashcardModel> {
    match s.selected_set {
        Some(i) => if i < s.study_sets.len() {
            s.study_sets[i as int].flashcards
        } else {
            Seq::empty()
        },
        None => Seq::empty(),
    }
}

/// The index of the card to show among `len` cards: the current one if it
/// is in range, the first one otherwise.
pub open spec fn card_index_in_view(s: AppModel, len: nat) -> usize {
    if s.current_card_index < len {
        s.current_card_index
    } else {
        0
    }
}

/// The state after the user picked the study set at `index`: the nearest
/// set that exists is selected, and the card view starts over if the
/// selection changed. Without study sets nothing is selected.
pub open spec fn select_set_spec(s: AppModel, index: usize) -> AppModel {
    if s.study_sets.len() == 0 {
        AppModel { selected_set: None, ..s }
    } else {
        let chosen = if index < s.study_sets.len() {
            index
        } else {
            (s.study_sets.len() - 1) as usize
        };
        if s.selected_set == Some(chosen) {
            s
        } else {
            AppModel { selected_set: Some(chosen), ..card_view_reset(s) }
        }
    }
}

/// The state once the card to show is settled: a current index that is out
/// of range goes back to the first card.
pub open spec fn show_card_spec(s: AppModel) -> AppModel {
    if cards_in_view(s).len() > 0 {
        AppModel { current_card_index: card_index_in_view(s, cards_in_view(s).len()), ..s }
    } else {
        s
    }
}

/// The state after a step to the next card, the first one following the last.
pub open spec fn next_card_spec(s: AppModel) -> AppModel {
    let len = cards_in_view(s).len();
    if len > 0 {
        AppModel {
            current_card_index: if card_index_in_view(s, len) + 1 == len {
                0
            } else {
                (card_index_in_view(s, len) + 1) as usize
            },
            card_flipped: false,
            show_hint: false,
            ..s
        }
    } else {
        s
    }
}

/// The state after a step to the previous card, the last one preceding the first.
pub open spec fn previous_card_spec(s: AppModel) -> AppModel {
    let len = cards_in_view(s).len();
    if len > 0 {
        let current = card_index_in_view(s, len);
        AppModel {
            current_card_index: if current == 0 {
                (len - 1) as usize
            } else {
                (current - 1) as usize
            },
            card_flipped: false,
            show_hint: false,
            ..s
        }
    } else {
        s
    }
}

/// The state after the user picked the card at `index` of the selected set:
/// the nearest card that exists becomes current, and if that is another card
/// than before, it lies question side up with hints hidden.
pub open spec fn select_card_spec(s: AppModel, index: usize) -> AppModel {
    let len = cards_in_view(s).len();
    if len > 0 {
        let chosen = if index < len {
            index
        } else {
            (len - 1) as usize
        };
        if chosen == s.current_card_index {
            s
        } else {
            AppModel { current_card_index: chosen, card_flipped: false, show_hint: false, ..s }
        }
    } else {
        s
    }
}

/// Whether the card at `card_index` of the set at `set_index` exists.
pub open spec fn card_exists(s: AppModel, set_index: usize, card_index: usize) -> bool {
    set_index < s.study_sets.len() && card_index < s.study_sets[set_index as int].flashcards.len()
}

/// The status after a card with the given question was removed.
pub open spec fn removed_card_message(question: Seq<char>) -> Seq<char> {
    "Removed flashcard: '"@ + question + "'"@
}

/// The state after the card at `card_index` was removed from the set at
/// `set_index`. The cards behind it move up. If the set is the selected one,
/// the current card index stays in range: it moves to the last card if it lay
/// behind it, and to 0 if no card is left.
pub open spec fn remove_card_spec(s: AppModel, set_index: usize, card_index: usize) -> AppModel {
    if card_exists(s, set_index, card_index) {
        let set = s.study_sets[set_index as int];
        let remaining = (set.flashcards.len() - 1) as nat;
        AppModel {
            study_sets: s.study_sets.update(
                set_index as int,
                StudySetModel { flashcards: set.flashcards.remove(card_index as int), ..set },
            ),
            current_card_index: if s.selected_set == Some(set_index) {
                if remaining == 0 {
                    0
                } else if s.current_card_index >= remaining {
                    (remaining - 1) as usize
                } else {
                    s.current_card_index
                }
            } else {
                s.current_card_index
            },
            status_message: removed_card_message(set.flashcards[card_index as int].question),
            ..s
        }
    } else {
        s
    }
}

/// Whether a card with this question and answer can be added: a set is
/// selected, and neither text is blank.
pub open spec fn can_add_card(s: AppModel, question: Seq<char>, answer: Seq<char>) -> bool {
    &&& s.selected_set is Some
    &&& s.selected_set->0 < s.study_sets.len()
    &&& !is_blank(question)
    &&& !is_blank(answer)
}

/// The status after a card with the given question was added.
pub open spec fn added_card_message(question: Seq<char>) -> Seq<char> {
    "Added flashcard: '"@ + question + "'"@
}

/// The state after a card was added to the selected set: question and answer
/// lose their surrounding white space, the card goes behind the others and
/// becomes the current one.
pub open spec fn add_card_spec(
    s: AppModel,
    question: Seq<char>,
    answer: Seq<char>,
    hints: Seq<Seq<char>>,
) -> AppModel {
    if can_add_card(s, question, answer) {
        let i = s.selected_set->0 as int;
        let set = s.study_sets[i];
        let card = FlashcardModel { question: trimmed(question), answer: trimmed(answer), hints };
        AppModel {
            study_sets: s.study_sets.update(
                i,
                StudySetModel { flashcards: set.flashcards.push(card), ..set },
            ),
            current_card_index: set.flashcards.len() as usize,
            card_flipped: false,
            show_hint: false,
            status_message: added_card_message(trimmed(question)),
            ..s
        }
    } else {
        s
    }
}

/// The state after the user created a study set: with a name that is not
/// blank, an empty set of that name, without its surrounding white space,
/// goes behind the others and is selected. A blank name creates nothing.
pub open spec fn create_set_spec(s: AppModel, name: Seq<char>) -> AppModel {
    if is_blank(name) {
        s
    } else {
        AppModel {
            study_sets: s.study_sets.push(
                StudySetModel {
                    name: trimmed(name),
                    flashcards: Seq::empty(),
                    quizzes: Seq::empty(),
                },
            ),
            selected_set: Some(s.study_sets.len() as usize),
            ..s
        }
    }
}

/// The status after a class folder was loaded and held no study sets.
pub open spec fn no_sets_message() -> Seq<char> {
    "No sets found in class folder"@
}

/// The status after `count` study sets were loaded.
pub open spec fn loaded_sets_message(count: nat) -> Seq<char> {
    "Loaded "@ + decimal(count) + " sets"@
}

/// The status after loading a class folder failed.
pub open spec fn load_error_message(error: Seq<char>) -> Seq<char> {
    "Load error: "@ + error
}

/// The state after the user had a class folder loaded. A success replaces
/// the study sets: the first is selected and the card view starts over, or
/// nothing is selected if there are none; the status gives the count. A
/// failure changes nothing but the status.
pub open spec fn class_loaded_spec(s: AppModel, loading: Loading) -> AppModel {
    match loading {
        Ok(sets) => if sets.len() == 0 {
            AppModel {
                study_sets: sets,
                selected_set: None,
                status_message: no_sets_message(),
                ..s
            }
        } else {
            AppModel {
                study_sets: sets,
                selected_set: Some(0),
                status_message: loaded_sets_message(sets.len()),
                ..card_view_reset(s)
            }
        },
        Err(error) => s.with_status(load_error_message(error)),
    }
}

/// Whether picking the class at `index` changes the selection: the class
/// exists and is not the one selected.
pub open spec fn class_choice_changes(s: AppModel, index: usize) -> bool {
    index < s.available_classes.len() && s.selected_class != Some(index)
}

/// The state and the configuration after the user picked the class at
/// `index`. A class that exists and is not yet selected becomes the selected
/// one; with a base path configured, the configuration then names it, so
/// that the next pass loads its study sets.
pub open spec fn choose_class_spec(s: AppModel, c: ConfigModel, index: usize) -> (
    AppModel,
    ConfigModel,
) {
    if class_choice_changes(s, index) {
        (
            AppModel { selected_class: Some(index), ..s },
            if is_blank(c.base_path) {
                c
            } else {
                ConfigModel { class_name: s.available_classes[index as int], ..c }
            },
        )
    } else {
        (s, c)
    }
}

/// The state after the user had the classes listed afresh: the classes are
/// replaced and the first one, if there is one, is selected.
pub open spec fn classes_refreshed_spec(s: AppModel, names: Seq<Seq<char>>) -> AppModel {
    AppModel {
        available_classes: names,
        selected_class: if names.len() > 0 {
            Some(0)
        } else {
            None
        },
        ..s
    }
}

impl StudyHelperApp {
    /// The user had the classes listed afresh: takes them and selects the
    /// first. A pass that follows selects the configured class again.
    pub fn classes_refreshed(&mut self, names: Vec<String>)
        ensures
            final(self)@ == classes_refreshed_spec(old(self)@, texts(names@)),
            old(self).wf() ==> final(self).wf(),
    {
        self.selected_class = if names.len() > 0 {
            Some(0)
        } else {
            None
        };
        self.available_classes = names;
    }

    /// The user had a class folder loaded: takes the study sets, or reports
    /// the error.
    pub fn class_loaded(&mut self, loading: Result<Vec<StudySet>, StorageError>)
        ensures
            final(self)@ == class_loaded_spec(old(self)@, loading_model(loading)),
            old(self).wf() ==> final(self).wf(),
    {
        match loading {
            Ok(sets) => {
                if sets.len() == 0 {
                    self.selected_set = None;
                    self.status_message = String::from_str("No sets found in class folder");
                } else {
                    self.selected_set = Some(0);
                    self.current_card_index = 0;
                    self.card_flipped = false;
                    self.show_hint = false;
                    let mut message = String::from_str("Loaded ");
                    message.append(decimal_string(sets.len()).as_str());
                    message.append(" sets");
                    self.status_message = message;
                }
                self.study_sets = sets;
            },
            Err(error) => {
                self.status_message = crate::text::concat("Load error: ", error.message());
            },
        }
    }

    /// The user picks the class at `index`. Says whether the configuration
    /// changed and has to be saved.
    pub fn choose_class(&mut self, config: &mut Config, index: usize) -> (changed: bool)
        ensures
            (final(self)@, final(config)@) == choose_class_spec(old(self)@, old(config)@, index),
            changed == (class_choice_changes(old(self)@, index) && !is_blank(
                old(config)@.base_path,
            )),
            old(self).wf() ==> final(self).wf(),
    {
        if index < self.available_classes.len() && self.selected_class != Some(index) {
            self.selected_class = Some(index);
            if !blank(config.storage_base_path.as_str()) {
                config.storage_class_name = self.available_classes[index].clone();
                return true;
            }
        }
        false
    }

    /// Adds a card to the loose cards, which belong to no set.
    pub fn add_flashcard(&mut self, flashcard: Flashcard)
        ensures
            final(self)@ == (AppModel {
                flashcards: old(self)@.flashcards.push(flashcard@),
                ..old(self)@
            }),
            old(self).wf() ==> final(self).wf(),
    {
        self.flashcards.push(flashcard);
        assert(self@.flashcards =~= old(self)@.flashcards.push(flashcard@));
    }

    /// Removes the loose card at `index`, if there is one.
    pub fn remove_flashcard(&mut self, index: usize)
        ensures
            index < old(self)@.flashcards.len() ==> final(self)@ == (AppModel {
                flashcards: old(self)@.flashcards.remove(index as int),
                ..old(self)@
            }),
            index >= old(self)@.flashcards.len() ==> final(self)@ == old(self)@,
            old(self).wf() ==> final(self).wf(),
    {
        if index < self.flashcards.len() {
            self.flashcards.remove(index);
            assert(self@.flashcards =~= old(self)@.flashcards.remove(index as int));
        }
    }

    /// Puts a study set behind the others. The selection stays.
    pub fn create_study_set(&mut self, study_set: StudySet)
        ensures
            final(self)@ == (AppModel {
                study_sets: old(self)@.study_sets.push(study_set@),
                ..old(self)@
            }),
            old(self).wf() ==> final(self).wf(),
    {
        self.study_sets.push(study_set);
        assert(self@.study_sets =~= old(self)@.study_sets.push(study_set@));
    }

    /// Adds a quiz to the loose quizzes, which belong to no set.
    pub fn create_quiz(&mut self, quiz: Quiz)
        ensures
            final(self)@ == (AppModel { quizzes: old(self)@.quizzes.push(quiz@), ..old(self)@ }),
            old(self).wf() ==> final(self).wf(),
    {
        self.quizzes.push(quiz);
        assert(self@.quizzes =~= old(self)@.quizzes.push(quiz@));
    }

    /// The user picks the study set at `index`.
    pub fn select_set(&mut self, index: usize)
        ensures
            final(self)@ == select_set_spec(old(self)@, index),
            old(self).wf() ==> final(self).wf(),
    {
        let len = self.study_sets.len();
        if len == 0 {
            self.selected_set = None;
        } else {
            let chosen = if index < len {
                index
            } else {
                len - 1
            };
            if self.selected_set != Some(chosen) {
                self.selected_set = Some(chosen);
                self.current_card_index = 0;
                self.card_flipped = false;
                self.show_hint = false;
            }
        }
    }

    /// The number of cards of the selected set; 0 where no set is selected.
    fn cards_in_view_len(&self) -> (len: usize)
        ensures
            len == cards_in_view(self@).len(),
    {
        match self.selected_set {
            Some(i) => if i < self.study_sets.len() {
                self.study_sets[i].get_all_flashcards().len()
            } else {
                0
            },
            None => 0,
        }
    }

    /// Settles which card of the selected set to show and returns its index:
    /// the current one, or the first one if the current index is out of range.
    /// `None` where no set is selected or the set has no cards.
    pub fn show_card(&mut self) -> (shown: Option<usize>)
        ensures
            final(self)@ == show_card_spec(old(self)@),
            cards_in_view(old(self)@).len() > 0 ==> shown == Some(final(self)@.current_card_index)
                && shown->0 < cards_in_view(old(self)@).len(),
            cards_in_view(old(self)@).len() == 0 ==> shown is None,
            old(self).wf() ==> final(self).wf(),
    {
        let len = self.cards_in_view_len();
        if len > 0 {
            if self.current_card_index >= len {
                self.current_card_index = 0;
            }
            Some(self.current_card_index)
        } else {
            None
        }
    }

    /// Steps to the next card of the selected set.
    pub fn next_card(&mut self)
        ensures
            final(self)@ == next_card_spec(old(self)@),
            old(self).wf() ==> final(self).wf(),
    {
        let len = self.cards_in_view_len();
        if len > 0 {
            let current = if self.current_card_index < len {
                self.current_card_index
            } else {
                0
            };
            self.current_card_index = if current + 1 == len {
                0
            } else {
                current + 1
            };
            self.card_flipped = false;
            self.show_hint = false;
        }
    }

    /// Steps to the previous card of the selected set.
    pub fn previous_card(&mut self)
        ensures
            final(self)@ == previous_card_spec(old(self)@),
            old(self).wf() ==> final(self).wf(),
    {
        let len = self.cards_in_view_len();
        if len > 0 {
            let current = if self.current_card_index < len {
                self.current_card_index
            } else {
                0
            };
            self.current_card_index = if current == 0 {
                len - 1
            } else {
                current - 1
            };
            self.card_flipped = false;
            self.show_hint = false;
        }
    }

    /// The user picks the card at `index` of the selected set.
    pub fn select_card(&mut self, index: usize)
        ensures
            final(self)@ == select_card_spec(old(self)@, index),
            old(self).wf() ==> final(self).wf(),
    {
        let len = self.cards_in_view_len();
        if len > 0 {
            let chosen = if index < len {
                index
            } else {
                len - 1
            };
            if chosen != self.current_card_index {
                self.current_card_index = chosen;
                self.card_flipped = false;
                self.show_hint = false;
            }
        }
    }

    /// Turns the current card over.
    pub fn flip_card(&mut self)
        ensures
            final(self)@ == (AppModel { card_flipped: !old(self)@.card_flipped, ..old(self)@ }),
            old(self).wf() ==> final(self).wf(),
    {
        self.card_flipped = !self.card_flipped;
    }

    /// Shows the hints if they are hidden, and hides them if they are shown.
    pub fn toggle_hint(&mut self)
        ensures
            final(self)@ == (AppModel { show_hint: !old(self)@.show_hint, ..old(self)@ }),
            old(self).wf() ==> final(self).wf(),
    {
        self.show_hint = !self.show_hint;
    }

    /// Removes the card at `card_index` from the set at `set_index`, if both
    /// exist, and returns it.
    pub fn remove_card(&mut self, set_index: usize, card_index: usize) -> (removed: Option<
        Flashcard,
    >)
        ensures
            final(self)@ == remove_card_spec(old(self)@, set_index, card_index),
            card_exists(old(self)@, set_index, card_index) ==> removed is Some && removed->0@
                == old(self)@.study_sets[set_index as int].flashcards[card_index as int],
            !card_exists(old(self)@, set_index, card_index) ==> removed is None,
            old(self).wf() ==> final(self).wf(),
    {
        if set_index >= self.study_sets.len() {
            return None;
        }
        let ghost before = self.study_sets@;
        let set = &mut self.study_sets[set_index];
        proof {
            lemma_views_update(before, set_index as int, *final(set));
        }
        match set.remove_flashcard(card_index) {
            Some(card) => {
                let cards = self.study_sets[set_index].get_all_flashcards();
                let remaining = cards.len();
                if self.selected_set == Some(set_index) {
                    if remaining == 0 {
                        self.current_card_index = 0;
                    } else if self.current_card_index >= remaining {
                        self.current_card_index = remaining - 1;
                    }
                }
                let mut message = String::from_str("Removed flashcard: '");
                message.append(card.question());
                message.append("'");
                self.status_message = message;
                Some(card)
            },
            None => {
                assert(self@.study_sets =~= old(self)@.study_sets);
                None
            },
        }
    }

    /// Adds a card to the selected set, if one is selected and neither
    /// question nor answer is blank, and says whether it did.
    pub fn add_card(&mut self, question: &str, answer: &str, hints: Vec<String>) -> (added: bool)
        ensures
            added == can_add_card(old(self)@, question@, answer@),
            final(self)@ == add_card_spec(old(self)@, question@, answer@, texts(hints@)),
            old(self).wf() ==> final(self).wf(),
    {
        let set_index = match self.selected_set {
            Some(i) => i,
            None => {
                return false;
            },
        };
        if set_index >= self.study_sets.len() || blank(question) || blank(answer) {
            return false;
        }
        let card = Flashcard::new(
            String::from_str(trim(question)),
            String::from_str(trim(answer)),
            hints,
        );
        let ghost before = self.study_sets@;
        let set = &mut self.study_sets[set_index];
        proof {
            lemma_views_update(before, set_index as int, *final(set));
        }
        set.add_flashcard(card);
        let cards = self.study_sets[set_index].get_all_flashcards();
        self.current_card_index = cards.len() - 1;
        self.card_flipped = false;
        self.show_hint = false;
        let mut message = String::from_str("Added flashcard: '");
        message.append(trim(question));
        message.append("'");
        self.status_message = message;
        true
    }

    /// Creates an empty study set of the given name, unless the name is
    /// blank, selects it, and says whether it did.
    pub fn create_set(&mut self, name: &str) -> (created: bool)
        ensures
            created == !is_blank(name@),
            final(self)@ == create_set_spec(old(self)@, name@),
            old(self).wf() ==> final(self).wf(),
    {
        if blank(name) {
            return false;
        }
        let set = StudySet::new(String::from_str(trim(name)));
        self.study_sets.push(set);
        self.selected_set = Some(self.study_sets.len() - 1);
        assert(self@.study_sets =~= old(self)@.study_sets.push(set@));
        true
    }
}

} // verus!
