//! The data model: flashcards, quizzes and the study sets that own them.
use vstd::prelude::*;

pub mod flashcard;
pub mod quiz;
pub mod study_set;

pub use flashcard::Flashcard;
pub use quiz::{Question, QuestionData, QuestionType, Quiz};
pub use study_set::StudySet;

verus! {

/// The models of a sequence of values, element by element.
pub open spec fn views<T: View>(v: Seq<T>) -> Seq<T::V> {
    Seq::new(v.len(), |i: int| v[i]@)
}

/// Replacing one element replaces its model and no other.
pub proof fn lemma_views_update<T: View>(s: Seq<T>, i: int, x: T)
    requires
        0 <= i < s.len(),
    ensures
        views(s.update(i, x)) == views(s).update(i, x@),
{
    assert(views(s.update(i, x)) =~= views(s).update(i, x@));
}

} // verus!
