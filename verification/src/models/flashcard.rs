//! A flashcard: a question, its answer and an ordered list of hints.
use crate::text::{clone_texts, eq_ignore_ascii_case, same_ignoring_ascii_case, texts};
use vstd::prelude::*;

verus! {

/// One card of a study set.
#[derive(Debug)]
pub struct Flashcard {
    pub question: String,
    pub answer: String,
    pub hints: Vec<String>,
}

/// What a flashcard says: its three parts as plain text.
pub struct FlashcardModel {
    pub question: Seq<char>,
    pub answer: Seq<char>,
    pub hints: Seq<Seq<char>>,
}

impl View for Flashcard {
    type V = FlashcardModel;

    open spec fn view(&self) -> FlashcardModel {
        FlashcardModel { question: self.question@, answer: self.answer@, hints: texts(self.hints@) }
    }
}

impl Clone for Flashcard {
    fn clone(&self) -> (r: Self)
        ensures
            r@ == self@,
    {
        Flashcard {
            question: self.question.clone(),
            answer: self.answer.clone(),
            hints: clone_texts(&self.hints),
        }
    }
}

impl Flashcard {
    /// A card with the given question, answer and hints.
    pub fn new(question: String, answer: String, hints: Vec<String>) -> (r: Self)
        ensures
            r.question == question,
            r.answer == answer,
            r.hints == hints,
    {
        Flashcard { question, answer, hints }
    }

    /// Whether `user_answer` is the card's answer, up to the case of ASCII letters.
    pub fn check_answer(&self, user_answer: &str) -> (b: bool)
        ensures
            b == eq_ignore_ascii_case(self.answer@, user_answer@),
    {
        same_ignoring_ascii_case(self.answer.as_str(), user_answer)
    }

    /// The hints, in the order they were given.
    pub fn get_hints(&self) -> (r: &Vec<String>)
        ensures
            *r == self.hints,
    {
        &self.hints
    }

    /// The question text.
    pub fn question(&self) -> (r: &str)
        ensures
            r@ == self.question@,
    {
        self.question.as_str()
    }

    /// The answer text.
    pub fn answer(&self) -> (r: &str)
        ensures
            r@ == self.answer@,
    {
        self.answer.as_str()
    }
}

} // verus!
