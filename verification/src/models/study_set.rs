//! A study set: a named collection of flashcards and quizzes.
use super::flashcard::{Flashcard, FlashcardModel};
use super::quiz::{Quiz, QuizModel};
use super::{lemma_views_update, views};
use crate::text::texts;
use vstd::prelude::*;

verus! {

/// A named collection of flashcards and quizzes, each kept in the order added.
#[derive(Debug)]
pub struct StudySet {
    name: String,
    flashcards: Vec<Flashcard>,
    quizzes: Vec<Quiz>,
}

/// What a study set holds.
pub struct StudySetModel {
    pub name: Seq<char>,
    pub flashcards: Seq<FlashcardModel>,
    pub quizzes: Seq<QuizModel>,
}

impl View for StudySet {
    type V = StudySetModel;

    closed spec fn view(&self) -> StudySetModel {
        StudySetModel {
            name: self.name@,
            flashcards: views(self.flashcards@),
            quizzes: views(self.quizzes@),
        }
    }
}

impl Clone for StudySet {
    fn clone(&self) -> (r: Self)
        ensures
            r@ == self@,
    {
        let mut flashcards: Vec<Flashcard> = Vec::new();
        let mut i: usize = 0;
        while i < self.flashcards.len()
            invariant
                i <= self.flashcards.len(),
                flashcards.len() == i,
                forall|j: int| 0 <= j < i ==> (#[trigger] flashcards[j])@ == self.flashcards[j]@,
            decreases self.flashcards.len() - i,
        {
            flashcards.push(self.flashcards[i].clone());
            i += 1;
        }
        let mut quizzes: Vec<Quiz> = Vec::new();
        let mut k: usize = 0;
        while k < self.quizzes.len()
            invariant
                k <= self.quizzes.len(),
                quizzes.len() == k,
                forall|j: int| 0 <= j < k ==> (#[trigger] quizzes[j])@ == self.quizzes[j]@,
            decreases self.quizzes.len() - k,
        {
            quizzes.push(self.quizzes[k].clone());
            k += 1;
        }
        assert(views(flashcards@) =~= views(self.flashcards@));
        assert(views(quizzes@) =~= views(self.quizzes@));
        StudySet { name: self.name.clone(), flashcards, quizzes }
    }
}

impl StudySet {
    /// An empty study set with the given name.
    pub fn new(name: String) -> (r: Self)
        ensures
            r@ == (StudySetModel { name: name@, flashcards: Seq::empty(), quizzes: Seq::empty() }),
    {
        let r = StudySet { name, flashcards: Vec::new(), quizzes: Vec::new() };
        assert(r@.flashcards =~= Seq::empty());
        assert(r@.quizzes =~= Seq::empty());
        r
    }

    /// Appends a flashcard.
    pub fn add_flashcard(&mut self, flashcard: Flashcard)
        ensures
            final(self)@ == (StudySetModel {
                flashcards: old(self)@.flashcards.push(flashcard@),
                ..old(self)@
            }),
    {
        self.flashcards.push(flashcard);
        assert(self@.flashcards =~= old(self)@.flashcards.push(flashcard@));
    }

    /// Removes the flashcard at `index`, if there is one, and returns it. The
    /// cards behind it move up by one; their order is kept.
    pub fn remove_flashcard(&mut self, index: usize) -> (r: Option<Flashcard>)
        ensures
            index < old(self)@.flashcards.len() ==> r is Some && r->0@ == old(self)@.flashcards[index as int]
                && final(self)@ == (StudySetModel {
                flashcards: old(self)@.flashcards.remove(index as int),
                ..old(self)@
            }),
            index >= old(self)@.flashcards.len() ==> r is None && final(self)@ == old(self)@,
    {
        if index < self.flashcards.len() {
            let card = self.flashcards.remove(index);
            assert(self@.flashcards =~= old(self)@.flashcards.remove(index as int));
            Some(card)
        } else {
            None
        }
    }

    /// The flashcard at `index`, if there is one.
    pub fn get_flashcard(&self, index: usize) -> (r: Option<&Flashcard>)
        ensures
            index < self@.flashcards.len() ==> r is Some && r->0@ == self@.flashcards[index as int],
            index >= self@.flashcards.len() ==> r is None,
    {
        if index < self.flashcards.len() {
            Some(&self.flashcards[index])
        } else {
            None
        }
    }

    /// All flashcards, in order.
    pub fn get_all_flashcards(&self) -> (r: &Vec<Flashcard>)
        ensures
            views(r@) == self@.flashcards,
            r@.len() == self@.flashcards.len(),
    {
        &self.flashcards
    }

    /// Appends a quiz.
    pub fn add_quiz(&mut self, quiz: Quiz)
        ensures
            final(self)@ == (StudySetModel { quizzes: old(self)@.quizzes.push(quiz@), ..old(self)@ }),
    {
        self.quizzes.push(quiz);
        assert(self@.quizzes =~= old(self)@.quizzes.push(quiz@));
    }

    /// Removes the quiz at `index`, if there is one, and returns it. The
    /// quizzes behind it move up by one; their order is kept.
    pub fn remove_quiz(&mut self, index: usize) -> (r: Option<Quiz>)
        ensures
            index < old(self)@.quizzes.len() ==> r is Some && r->0@ == old(self)@.quizzes[index as int]
                && final(self)@ == (StudySetModel {
                quizzes: old(self)@.quizzes.remove(index as int),
                ..old(self)@
            }),
            index >= old(self)@.quizzes.len() ==> r is None && final(self)@ == old(self)@,
    {
        if index < self.quizzes.len() {
            let quiz = self.quizzes.remove(index);
            assert(self@.quizzes =~= old(self)@.quizzes.remove(index as int));
            Some(quiz)
        } else {
            None
        }
    }

    /// All quizzes, in order.
    pub fn get_all_quizzes(&self) -> (r: &Vec<Quiz>)
        ensures
            views(r@) == self@.quizzes,
            r@.len() == self@.quizzes.len(),
    {
        &self.quizzes
    }

    /// The quizzes, for editing in place: what the caller leaves in the list
    /// is what the set then holds; name and flashcards stay.
    pub fn get_all_quizzes_mut(&mut self) -> (r: &mut Vec<Quiz>)
        ensures
            views(r@) == old(self)@.quizzes,
            final(self)@ == (StudySetModel { quizzes: views(final(r)@), ..old(self)@ }),
    {
        &mut self.quizzes
    }

    /// The quiz at `index`, for editing in place, if there is one.
    pub fn get_quiz_mut(&mut self, index: usize) -> (r: Option<&mut Quiz>)
        ensures
            index < old(self)@.quizzes.len() ==> r is Some && (*r->0)@ == old(self)@.quizzes[index as int]
                && final(self)@ == (StudySetModel {
                quizzes: old(self)@.quizzes.update(index as int, (*final(r->0))@),
                ..old(self)@
            }),
            index >= old(self)@.quizzes.len() ==> r is None && final(self)@ == old(self)@,
    {
        if index < self.quizzes.len() {
            let quiz = &mut self.quizzes[index];
            proof {
                lemma_views_update(old(self).quizzes@, index as int, *final(quiz));
            }
            Some(quiz)
        } else {
            None
        }
    }

    /// The titles of the quizzes, in order.
    pub fn quiz_titles(&self) -> (r: Vec<String>)
        ensures
            texts(r@) == Seq::new(self@.quizzes.len(), |i: int| self@.quizzes[i].title),
    {
        let mut r: Vec<String> = Vec::new();
        let mut i: usize = 0;
        while i < self.quizzes.len()
            invariant
                i <= self.quizzes.len(),
                r.len() == i,
                forall|j: int| 0 <= j < i ==> (#[trigger] r[j])@ == self.quizzes[j]@.title,
            decreases self.quizzes.len() - i,
        {
            r.push(String::from_str(self.quizzes[i].title()));
            i += 1;
        }
        assert(texts(r@) =~= Seq::new(
            self@.quizzes.len(),
            |i: int| self@.quizzes[i].title,
        ));
        r
    }

    /// The set's name.
    pub fn name(&self) -> (r: &str)
        ensures
            r@ == self@.name,
    {
        self.name.as_str()
    }
}

} // verus!
