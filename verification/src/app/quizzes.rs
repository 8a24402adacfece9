//! What the user does with the quizzes of the selected set: choosing,
//! creating and deleting a quiz, and editing its questions.
use super::StudyHelperApp;
use crate::models::quiz::{all_placeholders, QuestionData, QuestionModel, QuestionType, Quiz, QuizModel};
use crate::models::study_set::StudySetModel;
use crate::models::{lemma_views_update, views};
use crate::reconcile::AppModel;
use crate::text::{blank, is_blank, nonempty_trimmed, split, texts, trim, trimmed, trimmed_pieces};
use vstd::prelude::*;

verus! {

/// Whether a study set is selected that exists.
pub open spec fn set_in_view(s: AppModel) -> bool {
    s.selected_set is Some && s.selected_set->0 < s.study_sets.len()
}

/// The quizzes of the selected set; none where no set is selected.
pub open spec fn quizzes_in_view(s: AppModel) -> Seq<QuizModel> {
    if set_in_view(s) {
        s.study_sets[s.selected_set->0 as int].quizzes
    } else {
        Seq::empty()
    }
}

/// Whether a quiz of the selected set is selected that exists.
pub open spec fn quiz_in_view(s: AppModel) -> bool {
    s.selected_quiz is Some && s.selected_quiz->0 < quizzes_in_view(s).len()
}

/// The state with the selected quiz replaced by `quiz`.
pub open spec fn with_quiz_in_view(s: AppModel, quiz: QuizModel) -> AppModel
    recommends
        quiz_in_view(s),
{
    let i = s.selected_set->0 as int;
    let set = s.study_sets[i];
    AppModel {
        study_sets: s.study_sets.update(
            i,
            StudySetModel { quizzes: set.quizzes.update(s.selected_quiz->0 as int, quiz), ..set },
        ),
        ..s
    }
}

/// The state after the user picked the quiz at `index` of the selected set:
/// that quiz, or the first one if there is none at `index`, is selected, and
/// the question view starts over if the selection changed.
pub open spec fn select_quiz_spec(s: AppModel, index: usize) -> AppModel {
    let len = quizzes_in_view(s).len();
    if len > 0 {
        let chosen = if index < len {
            index
        } else {
            0
        };
        if s.selected_quiz == Some(chosen) {
            s
        } else {
            AppModel {
                selected_quiz: Some(chosen),
                current_card_index: 0,
                card_flipped: false,
                show_hint: false,
                ..s
            }
        }
    } else {
        s
    }
}

/// The status after a quiz of the given title was deleted.
pub open spec fn deleted_quiz_message(title: Seq<char>) -> Seq<char> {
    "Deleted quiz '"@ + title + "'"@
}

/// The state after the selected quiz was deleted. The quizzes behind it move
/// up. The selection stays where it addresses a quiz, goes to the first quiz
/// where it does not, and is dropped when no quiz is left.
pub open spec fn delete_quiz_spec(s: AppModel) -> AppModel {
    if quiz_in_view(s) {
        let i = s.selected_set->0 as int;
        let q = s.selected_quiz->0;
        let set = s.study_sets[i];
        let remaining = (set.quizzes.len() - 1) as nat;
        AppModel {
            study_sets: s.study_sets.update(
                i,
                StudySetModel { quizzes: set.quizzes.remove(q as int), ..set },
            ),
            selected_quiz: if remaining == 0 {
                None
            } else if q >= remaining {
                Some(0)
            } else {
                Some(q)
            },
            status_message: deleted_quiz_message(set.quizzes[q as int].title),
            ..s
        }
    } else {
        s
    }
}

/// Whether a quiz of this title can be created: a set is selected and the
/// title is not blank.
pub open spec fn can_create_quiz(s: AppModel, title: Seq<char>) -> bool {
    set_in_view(s) && !is_blank(title)
}

/// The status after a quiz of the given title was created.
pub open spec fn created_quiz_message(title: Seq<char>) -> Seq<char> {
    "Created quiz '"@ + title + "'"@
}

/// The state after a quiz was created in the selected set: the title loses
/// its surrounding white space, the quiz holds the placeholder questions
/// asked for, goes behind the other quizzes, and is selected.
pub open spec fn create_quiz_spec(
    s: AppModel,
    title: Seq<char>,
    mc: nat,
    tf: nat,
    sa: nat,
    mb: nat,
) -> AppModel {
    if can_create_quiz(s, title) {
        let i = s.selected_set->0 as int;
        let set = s.study_sets[i];
        let quiz = QuizModel {
            title: trimmed(title),
            questions: all_placeholders(mc, tf, sa, mb),
        };
        AppModel {
            study_sets: s.study_sets.update(
                i,
                StudySetModel { quizzes: set.quizzes.push(quiz), ..set },
            ),
            selected_quiz: Some(set.quizzes.len() as usize),
            status_message: created_quiz_message(trimmed(title)),
            ..s
        }
    } else {
        s
    }
}

/// The question that the editor starts a new question from.
pub open spec fn blank_question() -> QuestionModel {
    QuestionModel {
        prompt: "New question"@,
        options: Seq::empty(),
        answer: Seq::empty(),
        question_type: QuestionType::FillInTheBlank,
    }
}

/// The state after a new question was added to the selected quiz.
pub open spec fn add_question_spec(s: AppModel) -> AppModel {
    if quiz_in_view(s) {
        let quiz = quizzes_in_view(s)[s.selected_quiz->0 as int];
        with_quiz_in_view(s, QuizModel { questions: quiz.questions.push(blank_question()), ..quiz })
    } else {
        s
    }
}

/// Whether the current index addresses a question of the selected quiz.
pub open spec fn question_in_view(s: AppModel) -> bool {
    quiz_in_view(s) && s.current_card_index < quizzes_in_view(s)[s.selected_quiz->0 as int].questions.len()
}

/// The state after the current question was deleted from the selected quiz:
/// the questions behind it move up, and the current index steps back by one
/// unless it is 0.
pub open spec fn delete_question_spec(s: AppModel) -> AppModel {
    if question_in_view(s) {
        let quiz = quizzes_in_view(s)[s.selected_quiz->0 as int];
        AppModel {
            current_card_index: if s.current_card_index > 0 {
                (s.current_card_index - 1) as usize
            } else {
                0
            },
            ..with_quiz_in_view(
                s,
                QuizModel { questions: quiz.questions.remove(s.current_card_index as int), ..quiz },
            )
        }
    } else {
        s
    }
}

/// The state after the user picked the question at `index` of the selected
/// quiz: it becomes the current one, if there is such a question.
pub open spec fn select_question_spec(s: AppModel, index: usize) -> AppModel {
    if quiz_in_view(s) && index < quizzes_in_view(s)[s.selected_quiz->0 as int].questions.len() {
        AppModel { current_card_index: index, ..s }
    } else {
        s
    }
}

/// The options that an editor's line of text stands for: its pieces between
/// commas, without their surrounding white space, the empty ones left out.
pub open spec fn options_of(text: Seq<char>) -> Seq<Seq<char>> {
    nonempty_trimmed(split(text, ','))
}

/// The state after the editor's fields were applied to the current question.
pub open spec fn apply_edit_spec(
    s: AppModel,
    prompt: Seq<char>,
    answer: Seq<char>,
    options_text: Seq<char>,
    question_type: QuestionType,
) -> AppModel {
    if question_in_view(s) {
        let quiz = quizzes_in_view(s)[s.selected_quiz->0 as int];
        with_quiz_in_view(
            s,
            QuizModel {
                questions: quiz.questions.update(
                    s.current_card_index as int,
                    QuestionModel { prompt, options: options_of(options_text), answer, question_type },
                ),
                ..quiz
            },
        )
    } else {
        s
    }
}

/// Replacing the selected quiz by itself changes nothing.
proof fn lemma_same_quiz_in_view(s: AppModel)
    requires
        quiz_in_view(s),
    ensures
        with_quiz_in_view(s, quizzes_in_view(s)[s.selected_quiz->0 as int]) == s,
{
    let i = s.selected_set->0 as int;
    let q = s.selected_quiz->0 as int;
    let set = s.study_sets[i];
    assert(set.quizzes.update(q, set.quizzes[q]) =~= set.quizzes);
    assert(s.study_sets.update(i, set) =~= s.study_sets);
}

impl StudyHelperApp {
    /// The number of quizzes of the selected set; 0 where no set is selected.
    fn quizzes_in_view_len(&self) -> (len: usize)
        ensures
            len == quizzes_in_view(self@).len(),
    {
        match self.selected_set {
            Some(i) => if i < self.study_sets.len() {
                let quizzes = self.study_sets[i].get_all_quizzes();
                quizzes.len()
            } else {
                0
            },
            None => 0,
        }
    }

    /// The selected quiz of the selected set, for editing in place, with the
    /// indices of set and quiz; `None` where no quiz is selected that exists.
    fn quiz_in_view_mut(&mut self) -> (r: Option<&mut Quiz>)
        ensures
            quiz_in_view(old(self)@) ==> r is Some && (*r->0)@ == quizzes_in_view(old(self)@)[old(
                self,
            )@.selected_quiz->0 as int] && final(self)@ == with_quiz_in_view(
                old(self)@,
                (*final(r->0))@,
            ),
            !quiz_in_view(old(self)@) ==> r is None && final(self)@ == old(self)@,
    {
        let q = match self.selected_quiz {
            Some(q) => q,
            None => {
                return None;
            },
        };
        let i = match self.selected_set {
            Some(i) => i,
            None => {
                return None;
            },
        };
        if i >= self.study_sets.len() {
            return None;
        }
        let ghost before = self.study_sets@;
        let set = &mut self.study_sets[i];
        let ghost after = *final(set);
        proof {
            lemma_views_update(before, i as int, after);
        }
        let r = set.get_quiz_mut(q);
        proof {
            if r is None {
                assert(views(before.update(i as int, after)) =~= views(before));
            }
        }
        r
    }

    /// The user picks the quiz at `index` of the selected set.
    pub fn select_quiz(&mut self, index: usize)
        ensures
            final(self)@ == select_quiz_spec(old(self)@, index),
            old(self).wf() ==> final(self).wf(),
    {
        let len = self.quizzes_in_view_len();
        if len > 0 {
            let chosen = if index < len {
                index
            } else {
                0
            };
            if self.selected_quiz != Some(chosen) {
                self.selected_quiz = Some(chosen);
                self.current_card_index = 0;
                self.card_flipped = false;
                self.show_hint = false;
            }
        }
    }

    /// Deletes the selected quiz of the selected set, if there is one, and
    /// returns it.
    pub fn delete_selected_quiz(&mut self) -> (removed: Option<Quiz>)
        ensures
            final(self)@ == delete_quiz_spec(old(self)@),
            quiz_in_view(old(self)@) ==> removed is Some && removed->0@ == quizzes_in_view(
                old(self)@,
            )[old(self)@.selected_quiz->0 as int],
            !quiz_in_view(old(self)@) ==> removed is None,
            old(self).wf() ==> final(self).wf(),
    {
        let len = self.quizzes_in_view_len();
        let q = match self.selected_quiz {
            Some(q) => q,
            None => {
                return None;
            },
        };
        if q >= len {
            return None;
        }
        let i = self.selected_set.unwrap();
        let ghost before = self.study_sets@;
        let set = &mut self.study_sets[i];
        proof {
            lemma_views_update(before, i as int, *final(set));
        }
        let removed = set.remove_quiz(q);
        let quiz = removed.unwrap();
        let remaining = len - 1;
        if remaining == 0 {
            self.selected_quiz = None;
        } else if q >= remaining {
            self.selected_quiz = Some(0);
        }
        let mut message = String::from_str("Deleted quiz '");
        message.append(quiz.title());
        message.append("'");
        self.status_message = message;
        Some(quiz)
    }

    /// Creates a quiz with placeholder questions in the selected set, if a
    /// set is selected and the title is not blank, selects it, and says
    /// whether it did.
    pub fn create_quiz_in_set(
        &mut self,
        title: &str,
        mc: usize,
        tf: usize,
        sa: usize,
        mb: usize,
    ) -> (created: bool)
        ensures
            created == can_create_quiz(old(self)@, title@),
            final(self)@ == create_quiz_spec(
                old(self)@,
                title@,
                mc as nat,
                tf as nat,
                sa as nat,
                mb as nat,
            ),
            old(self).wf() ==> final(self).wf(),
    {
        let i = match self.selected_set {
            Some(i) => i,
            None => {
                return false;
            },
        };
        if i >= self.study_sets.len() || blank(title) {
            return false;
        }
        let mut quiz = Quiz::new(String::from_str(trim(title)));
        quiz.add_placeholder_questions(mc, tf, sa, mb);
        assert(quiz@.questions =~= all_placeholders(mc as nat, tf as nat, sa as nat, mb as nat));
        let ghost before = self.study_sets@;
        let set = &mut self.study_sets[i];
        proof {
            lemma_views_update(before, i as int, *final(set));
        }
        set.add_quiz(quiz);
        let quizzes = self.study_sets[i].get_all_quizzes();
        self.selected_quiz = Some(quizzes.len() - 1);
        let mut message = String::from_str("Created quiz '");
        message.append(trim(title));
        message.append("'");
        self.status_message = message;
        true
    }

    /// Adds a new question, to be filled in, to the selected quiz.
    pub fn add_blank_question(&mut self)
        ensures
            final(self)@ == add_question_spec(old(self)@),
            old(self).wf() ==> final(self).wf(),
    {
        match self.quiz_in_view_mut() {
            Some(quiz) => {
                let options: Vec<String> = Vec::new();
                assert(texts(options@) =~= Seq::<Seq<char>>::empty());
                proof {
                    reveal_strlit("");
                    assert(""@ =~= Seq::<char>::empty());
                }
                quiz.add_question(
                    String::from_str("New question"),
                    options,
                    String::from_str(""),
                    QuestionType::FillInTheBlank,
                );
            },
            None => {},
        }
    }

    /// The user picks the question at `index` of the selected quiz.
    pub fn select_question(&mut self, index: usize)
        ensures
            final(self)@ == select_question_spec(old(self)@, index),
            old(self).wf() ==> final(self).wf(),
    {
        let count = match self.selected_quiz {
            Some(q) => match self.selected_study_set() {
                Some(set) => if q < set.get_all_quizzes().len() {
                    set.get_all_quizzes()[q].question_count()
                } else {
                    0
                },
                None => 0,
            },
            None => 0,
        };
        if index < count {
            self.current_card_index = index;
        }
    }

    /// Deletes the current question of the selected quiz, if there is one.
    pub fn delete_current_question(&mut self)
        ensures
            final(self)@ == delete_question_spec(old(self)@),
            old(self).wf() ==> final(self).wf(),
    {
        let index = self.current_card_index;
        let deleted = match self.quiz_in_view_mut() {
            Some(quiz) => quiz.remove_question(index).is_some(),
            None => false,
        };
        proof {
            if quiz_in_view(old(self)@) && !deleted {
                lemma_same_quiz_in_view(old(self)@);
            }
        }
        if deleted && self.current_card_index > 0 {
            self.current_card_index = self.current_card_index - 1;
        }
    }

    /// Applies the editor's fields to the current question of the selected
    /// quiz, if there is one, and says whether it did. The options are the
    /// pieces of `options_text` between commas.
    pub fn apply_question_edit(
        &mut self,
        prompt: String,
        answer: String,
        options_text: &str,
        question_type: QuestionType,
    ) -> (applied: bool)
        ensures
            applied == question_in_view(old(self)@),
            final(self)@ == apply_edit_spec(
                old(self)@,
                prompt@,
                answer@,
                options_text@,
                question_type,
            ),
            old(self).wf() ==> final(self).wf(),
    {
        let index = self.current_card_index;
        let applied = match self.quiz_in_view_mut() {
            Some(quiz) => {
                let data = QuestionData {
                    prompt,
                    options: trimmed_pieces(options_text, ','),
                    answer,
                    question_type,
                };
                quiz.update_question(index, data)
            },
            None => false,
        };
        proof {
            if quiz_in_view(old(self)@) && !applied {
                lemma_same_quiz_in_view(old(self)@);
            }
        }
        applied
    }
}

} // verus!
