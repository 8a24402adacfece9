//! The list of study sets that the sets view shows.
use crate::models::study_set::{StudySet, StudySetModel};
use crate::models::views;
use vstd::prelude::*;

verus! {

/// The study sets on show.
#[derive(Debug)]
pub struct SetsView {
    pub study_sets: Vec<StudySet>,
}

impl View for SetsView {
    type V = Seq<StudySetModel>;

    open spec fn view(&self) -> Seq<StudySetModel> {
        views(self.study_sets@)
    }
}

impl SetsView {
    /// A view without study sets.
    pub fn new() -> (r: Self)
        ensures
            r@ == Seq::<StudySetModel>::empty(),
    {
        let r = SetsView { study_sets: Vec::new() };
        assert(r@ =~= Seq::<StudySetModel>::empty());
        r
    }
}

} // verus!
