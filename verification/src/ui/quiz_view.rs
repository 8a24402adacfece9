//! Taking a quiz: one question after the other, each answer kept.
use crate::models::quiz::{Quiz, QuizModel};
use crate::text::texts;
use vstd::prelude::*;

verus! {

/// A quiz being taken: the position in it and the answer given to each
/// question so far. There is one answer slot per question.
#[derive(Debug)]
pub struct QuizView {
    quiz: Quiz,
    current_question_index: usize,
    user_answers: Vec<Option<String>>,
}

/// A question as it is put to the person taking the quiz: the text, the
/// options to pick from, and the answer that counts.
#[derive(Debug)]
pub struct QuizQuestion {
    pub question: String,
    pub options: Vec<String>,
    pub answer: String,
}

/// A question put to the person taking the quiz, as plain text.
pub struct QuizQuestionModel {
    pub question: Seq<char>,
    pub options: Seq<Seq<char>>,
    pub answer: Seq<char>,
}

impl View for QuizQuestion {
    type V = QuizQuestionModel;

    open spec fn view(&self) -> QuizQuestionModel {
        QuizQuestionModel {
            question: self.question@,
            options: texts(self.options@),
            answer: self.answer@,
        }
    }
}

/// What a quiz view holds.
pub struct QuizViewModel {
    pub quiz: QuizModel,
    pub current_question_index: usize,
    pub user_answers: Seq<Option<Seq<char>>>,
}

/// An answer slot as plain text.
pub open spec fn answer_model(answer: Option<String>) -> Option<Seq<char>> {
    match answer {
        Some(text) => Some(text@),
        None => None,
    }
}

impl View for QuizView {
    type V = QuizViewModel;

    closed spec fn view(&self) -> QuizViewModel {
        QuizViewModel {
            quiz: self.quiz@,
            current_question_index: self.current_question_index,
            user_answers: Seq::new(
                self.user_answers@.len(),
                |i: int| answer_model(self.user_answers@[i]),
            ),
        }
    }
}

/// `count` empty answer slots.
pub open spec fn no_answers(count: nat) -> Seq<Option<Seq<char>>> {
    Seq::new(count, |i: int| None)
}

impl QuizViewModel {
    /// The view's invariant: one answer slot per question.
    pub open spec fn wf(self) -> bool {
        self.user_answers.len() == self.quiz.questions.len()
    }

    /// Whether every question has been passed.
    pub open spec fn completed(self) -> bool {
        self.current_question_index >= self.quiz.questions.len()
    }
}

impl QuizView {
    /// The view's invariant: one answer slot per question.
    pub open spec fn wf(&self) -> bool {
        self@.wf()
    }

    /// A view of `quiz` at its first question, with no answer given.
    pub fn new(quiz: Quiz) -> (r: Self)
        ensures
            r@ == (QuizViewModel {
                quiz: quiz@,
                current_question_index: 0,
                user_answers: no_answers(quiz@.questions.len()),
            }),
            r.wf(),
    {
        let count = quiz.question_count();
        let mut user_answers: Vec<Option<String>> = Vec::new();
        let mut i: usize = 0;
        while i < count
            invariant
                i <= count,
                user_answers.len() == i,
                forall|j: int| 0 <= j < i ==> (#[trigger] user_answers[j]) is None,
            decreases count - i,
        {
            user_answers.push(None);
            i += 1;
        }
        let r = QuizView { quiz, current_question_index: 0, user_answers };
        assert(r@.user_answers =~= no_answers(quiz@.questions.len()));
        r
    }

    /// The quiz being taken.
    pub fn quiz(&self) -> (r: &Quiz)
        ensures
            r@ == self@.quiz,
    {
        &self.quiz
    }

    /// The index of the question to show.
    pub fn current_question_index(&self) -> (r: usize)
        ensures
            r == self@.current_question_index,
    {
        self.current_question_index
    }

    /// The question to show, if the quiz is not over.
    pub fn current_question(&self) -> (r: Option<QuizQuestion>)
        ensures
            self@.completed() ==> r is None,
            !self@.completed() ==> r is Some && r->0@ == (QuizQuestionModel {
                question: self@.quiz.questions[self@.current_question_index as int].prompt,
                options: self@.quiz.questions[self@.current_question_index as int].options,
                answer: self@.quiz.questions[self@.current_question_index as int].answer,
            }),
    {
        match self.quiz.get_question_data(self.current_question_index) {
            Some(data) => Some(
                QuizQuestion { question: data.prompt, options: data.options, answer: data.answer },
            ),
            None => None,
        }
    }

    /// Whether every question has been passed: the quiz is then over and
    /// can only be started again.
    pub fn is_completed(&self) -> (r: bool)
        ensures
            r == self@.completed(),
    {
        self.current_question_index >= self.quiz.question_count()
    }

    /// The answer given to the question at `index`, if one was given.
    pub fn answer_at(&self, index: usize) -> (r: Option<&str>)
        ensures
            index < self@.user_answers.len() ==> (match self@.user_answers[index as int] {
                Some(text) => r is Some && r->0@ == text,
                None => r is None,
            }),
            index >= self@.user_answers.len() ==> r is None,
    {
        if index < self.user_answers.len() {
            match &self.user_answers[index] {
                Some(text) => Some(text.as_str()),
                None => None,
            }
        } else {
            None
        }
    }

    /// Keeps `answer` as the answer to the current question, and says
    /// whether there was such a question.
    pub fn answer_current(&mut self, answer: String) -> (kept: bool)
        ensures
            kept == (old(self)@.current_question_index < old(self)@.user_answers.len()),
            kept ==> final(self)@ == (QuizViewModel {
                user_answers: old(self)@.user_answers.update(
                    old(self)@.current_question_index as int,
                    Some(answer@),
                ),
                ..old(self)@
            }),
            !kept ==> final(self)@ == old(self)@,
            old(self).wf() ==> final(self).wf(),
    {
        if self.current_question_index < self.user_answers.len() {
            self.user_answers[self.current_question_index] = Some(answer);
            assert(self@.user_answers =~= old(self)@.user_answers.update(
                old(self)@.current_question_index as int,
                Some(answer@),
            ));
            true
        } else {
            false
        }
    }

    /// Goes on to the next question. Behind the last question there is
    /// nothing to go on to.
    pub fn next_question(&mut self)
        ensures
            final(self)@ == (QuizViewModel {
                current_question_index: if old(self)@.completed() {
                    old(self)@.current_question_index
                } else {
                    (old(self)@.current_question_index + 1) as usize
                },
                ..old(self)@
            }),
    {
        if self.current_question_index < self.quiz.question_count() {
            self.current_question_index = self.current_question_index + 1;
        }
    }

    /// Starts the quiz again: back to the first question, every answer
    /// forgotten.
    pub fn restart_quiz(&mut self)
        ensures
            final(self)@ == (QuizViewModel {
                current_question_index: 0,
                user_answers: no_answers(old(self)@.user_answers.len()),
                ..old(self)@
            }),
            old(self).wf() ==> final(self).wf(),
    {
        self.current_question_index = 0;
        let mut i: usize = 0;
        while i < self.user_answers.len()
            invariant
                i <= self.user_answers.len(),
                self.user_answers.len() == old(self).user_answers.len(),
                self.quiz == old(self).quiz,
                self.current_question_index == 0,
                forall|j: int| 0 <= j < i ==> (#[trigger] self.user_answers[j]) is None,
            decreases self.user_answers.len() - i,
        {
            self.user_answers[i] = None;
            i += 1;
        }
        assert(self@.user_answers =~= no_answers(old(self)@.user_answers.len()));
    }
}

} // verus!
