//! Small checks and formats for what the user types.
use crate::text::{blank, concat, is_blank, texts, trim, trimmed};
use vstd::prelude::*;

verus! {

/// The complaint about a flashcard without question or answer.
pub open spec fn empty_flashcard_message() -> Seq<char> {
    "Question and answer cannot be empty."@
}

/// The complaint about a study set without a name.
pub open spec fn empty_set_name_message() -> Seq<char> {
    "Study set name cannot be empty."@
}

/// The complaint about a quiz question without text.
pub open spec fn empty_question_message() -> Seq<char> {
    "Quiz question cannot be empty."@
}

/// Accepts a flashcard whose question and answer both hold something.
pub fn validate_flashcard(question: &str, answer: &str) -> (r: Result<(), String>)
    ensures
        r is Err <==> question@.len() == 0 || answer@.len() == 0,
        r is Err ==> r->Err_0@ == empty_flashcard_message(),
{
    if question.is_empty() || answer.is_empty() {
        return Err(String::from_str("Question and answer cannot be empty."));
    }
    Ok(())
}

/// A question as it is shown: behind `Q: `.
pub fn format_question(question: &str) -> (r: String)
    ensures
        r@ == "Q: "@ + question@,
{
    concat("Q: ", question)
}

/// An answer as it is shown: behind `A: `.
pub fn format_answer(answer: &str) -> (r: String)
    ensures
        r@ == "A: "@ + answer@,
{
    concat("A: ", answer)
}

/// Accepts a study-set name that holds something.
pub fn validate_study_set_name(name: &str) -> (r: Result<(), String>)
    ensures
        r is Err <==> name@.len() == 0,
        r is Err ==> r->Err_0@ == empty_set_name_message(),
{
    if name.is_empty() {
        return Err(String::from_str("Study set name cannot be empty."));
    }
    Ok(())
}

/// Accepts a quiz question that holds something.
pub fn validate_quiz_question(question: &str) -> (r: Result<(), String>)
    ensures
        r is Err <==> question@.len() == 0,
        r is Err ==> r->Err_0@ == empty_question_message(),
{
    if question.is_empty() {
        return Err(String::from_str("Quiz question cannot be empty."));
    }
    Ok(())
}

/// Takes what the user typed as a hint: unless it is blank, it goes behind
/// the other hints without its surrounding white space. Says whether it did.
pub fn add_hint(hints: &mut Vec<String>, input: &str) -> (added: bool)
    ensures
        added == !is_blank(input@),
        added ==> texts(final(hints)@) == texts(old(hints)@).push(trimmed(input@)),
        !added ==> texts(final(hints)@) == texts(old(hints)@),
{
    if blank(input) {
        false
    } else {
        hints.push(String::from_str(trim(input)));
        assert(texts(hints@) =~= texts(old(hints)@).push(trimmed(input@)));
        true
    }
}

/// Removes the hint at `index`, if there is one; the hints behind it move up.
pub fn remove_hint(hints: &mut Vec<String>, index: usize) -> (removed: bool)
    ensures
        removed == (index < old(hints)@.len()),
        removed ==> texts(final(hints)@) == texts(old(hints)@).remove(index as int),
        !removed ==> texts(final(hints)@) == texts(old(hints)@),
{
    if index < hints.len() {
        hints.remove(index);
        assert(texts(hints@) =~= texts(old(hints)@).remove(index as int));
        true
    } else {
        false
    }
}

} // verus!
