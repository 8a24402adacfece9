//! Leafing through the flashcards of one study set.
use crate::models::flashcard::{Flashcard, FlashcardModel};
use crate::models::study_set::StudySet;
use crate::models::views;
use vstd::prelude::*;

verus! {

/// A copy of a study set's flashcards, the position in it, and the card
/// that was shown last.
#[derive(Debug)]
pub struct FlashcardsView {
    current_flashcard: Option<Flashcard>,
    flashcards: Vec<Flashcard>,
    index: usize,
}

/// What a flashcards view holds.
pub struct FlashcardsViewModel {
    pub current_flashcard: Option<FlashcardModel>,
    pub flashcards: Seq<FlashcardModel>,
    pub index: usize,
}

impl View for FlashcardsView {
    type V = FlashcardsViewModel;

    closed spec fn view(&self) -> FlashcardsViewModel {
        FlashcardsViewModel {
            current_flashcard: match self.current_flashcard {
                Some(card) => Some(card@),
                None => None,
            },
            flashcards: views(self.flashcards@),
            index: self.index,
        }
    }
}

impl FlashcardsView {
    /// A view of the flashcards of `study_set`, at the first card, with no
    /// card shown yet.
    pub fn new(study_set: &StudySet) -> (r: Self)
        ensures
            r@ == (FlashcardsViewModel {
                current_flashcard: None,
                flashcards: study_set@.flashcards,
                index: 0,
            }),
    {
        let cards = study_set.get_all_flashcards();
        let mut flashcards: Vec<Flashcard> = Vec::new();
        let mut i: usize = 0;
        while i < cards.len()
            invariant
                i <= cards.len(),
                flashcards.len() == i,
                forall|j: int| 0 <= j < i ==> (#[trigger] flashcards[j])@ == cards[j]@,
            decreases cards.len() - i,
        {
            flashcards.push(cards[i].clone());
            i += 1;
        }
        assert(views(flashcards@) =~= views(cards@));
        FlashcardsView { current_flashcard: None, flashcards, index: 0 }
    }

    /// Whether there is a card at the position: no card is left to show
    /// once the position lies behind the last card.
    pub fn has_card(&self) -> (r: bool)
        ensures
            r == (self@.index < self@.flashcards.len()),
    {
        self.index < self.flashcards.len()
    }

    /// Shows the card at the position, if there is one: it becomes the
    /// current card and is returned.
    pub fn show_current(&mut self) -> (shown: Option<&Flashcard>)
        ensures
            old(self)@.index < old(self)@.flashcards.len() ==> shown is Some && shown->0@ == old(
                self,
            )@.flashcards[old(self)@.index as int] && final(self)@ == (FlashcardsViewModel {
                current_flashcard: Some(old(self)@.flashcards[old(self)@.index as int]),
                ..old(self)@
            }),
            old(self)@.index >= old(self)@.flashcards.len() ==> shown is None && final(self)@
                == old(self)@,
    {
        if self.index < self.flashcards.len() {
            self.current_flashcard = Some(self.flashcards[self.index].clone());
            Some(&self.flashcards[self.index])
        } else {
            None
        }
    }

    /// Steps to the next card, the first one following the last. Nothing
    /// moves without cards, or once the position lies behind the last card.
    pub fn next(&mut self)
        ensures
            final(self)@ == (FlashcardsViewModel {
                index: if old(self)@.index < old(self)@.flashcards.len() {
                    if old(self)@.index + 1 == old(self)@.flashcards.len() {
                        0
                    } else {
                        (old(self)@.index + 1) as usize
                    }
                } else {
                    old(self)@.index
                },
                ..old(self)@
            }),
    {
        if self.index < self.flashcards.len() {
            self.index = if self.index + 1 == self.flashcards.len() {
                0
            } else {
                self.index + 1
            };
        }
    }
}

} // verus!
