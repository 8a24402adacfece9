//! The state behind the three views, without their rendering: what is shown
//! and what a click changes.
pub mod flashcards_view;
pub mod quiz_view;
pub mod sets_view;

pub use flashcards_view::FlashcardsView;
pub use quiz_view::{QuizQuestion, QuizView};
pub use sets_view::SetsView;
