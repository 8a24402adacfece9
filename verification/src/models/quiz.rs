//! Quizzes: a title and an ordered list of questions.
use crate::text::{
    clone_texts, concat, decimal, decimal_string, eq_ignore_ascii_case, same_ignoring_ascii_case,
    same_text, texts, trim, trimmed,
};
use vstd::prelude::*;

verus! {

/// How the answer to a question is given and checked.
#[derive(Clone, Copy, Debug, PartialEq, Eq, Structural)]
pub enum QuestionType {
    MultipleChoice,
    FillInTheBlank,
}

/// A question as the quiz stores it.
#[derive(Debug)]
pub struct Question {
    prompt: String,
    options: Vec<String>,
    answer: String,
    question_type: QuestionType,
}

/// A question as an editor sees and changes it.
#[derive(Debug)]
pub struct QuestionData {
    pub prompt: String,
    pub options: Vec<String>,
    pub answer: String,
    pub question_type: QuestionType,
}

/// What a question says, as plain text.
pub struct QuestionModel {
    pub prompt: Seq<char>,
    pub options: Seq<Seq<char>>,
    pub answer: Seq<char>,
    pub question_type: QuestionType,
}

/// A titled, ordered list of questions.
#[derive(Debug)]
pub struct Quiz {
    title: String,
    questions: Vec<Question>,
}

/// What a quiz holds.
pub struct QuizModel {
    pub title: Seq<char>,
    pub questions: Seq<QuestionModel>,
}

impl View for Question {
    type V = QuestionModel;

    closed spec fn view(&self) -> QuestionModel {
        QuestionModel {
            prompt: self.prompt@,
            options: texts(self.options@),
            answer: self.answer@,
            question_type: self.question_type,
        }
    }
}

impl View for QuestionData {
    type V = QuestionModel;

    open spec fn view(&self) -> QuestionModel {
        QuestionModel {
            prompt: self.prompt@,
            options: texts(self.options@),
            answer: self.answer@,
            question_type: self.question_type,
        }
    }
}

impl View for Quiz {
    type V = QuizModel;

    closed spec fn view(&self) -> QuizModel {
        QuizModel { title: self.title@, questions: super::views(self.questions@) }
    }
}

impl Clone for Question {
    fn clone(&self) -> (r: Self)
        ensures
            r@ == self@,
    {
        Question {
            prompt: self.prompt.clone(),
            options: clone_texts(&self.options),
            answer: self.answer.clone(),
            question_type: self.question_type,
        }
    }
}

impl Clone for QuestionData {
    fn clone(&self) -> (r: Self)
        ensures
            r@ == self@,
    {
        QuestionData {
            prompt: self.prompt.clone(),
            options: clone_texts(&self.options),
            answer: self.answer.clone(),
            question_type: self.question_type,
        }
    }
}

impl Clone for Quiz {
    fn clone(&self) -> (r: Self)
        ensures
            r@ == self@,
    {
        let mut questions: Vec<Question> = Vec::new();
        let mut i: usize = 0;
        while i < self.questions.len()
            invariant
                i <= self.questions.len(),
                questions.len() == i,
                forall|j: int| 0 <= j < i ==> (#[trigger] questions[j])@ == self.questions[j]@,
            decreases self.questions.len() - i,
        {
            questions.push(self.questions[i].clone());
            i += 1;
        }
        assert(super::views(questions@) =~= super::views(self.questions@));
        Quiz { title: self.title.clone(), questions }
    }
}

impl Question {
    /// The question as an editor sees it.
    pub fn data(&self) -> (r: QuestionData)
        ensures
            r@ == self@,
    {
        QuestionData {
            prompt: self.prompt.clone(),
            options: clone_texts(&self.options),
            answer: self.answer.clone(),
            question_type: self.question_type,
        }
    }
}

/// Whether `user_answer` answers the question `q`: exactly for a multiple
/// choice, up to surrounding white space and the case of ASCII letters for a
/// blank to fill in.
pub open spec fn answers(q: QuestionModel, user_answer: Seq<char>) -> bool {
    match q.question_type {
        QuestionType::MultipleChoice => q.answer == user_answer,
        QuestionType::FillInTheBlank => eq_ignore_ascii_case(
            trimmed(q.answer),
            trimmed(user_answer),
        ),
    }
}

/// `count` placeholder questions of one kind: the prompts are `label`
/// followed by the numbers 1, 2, ... in decimal; options, answer and type are
/// the same for all.
pub open spec fn placeholders(
    label: Seq<char>,
    options: Seq<Seq<char>>,
    answer: Seq<char>,
    question_type: QuestionType,
    count: nat,
) -> Seq<QuestionModel> {
    Seq::new(
        count,
        |i: int|
            QuestionModel { prompt: label + decimal((i + 1) as nat), options, answer, question_type },
    )
}

/// The four options of a multiple-choice placeholder.
pub open spec fn choice_options() -> Seq<Seq<char>> {
    seq!["Option A"@, "Option B"@, "Option C"@, "Option D"@]
}

/// The two options of a true/false placeholder.
pub open spec fn true_false_options() -> Seq<Seq<char>> {
    seq!["True"@, "False"@]
}

/// The placeholder questions for the given counts: multiple choice first,
/// then true/false, short answer and multiple blank, each kind numbered from 1.
pub open spec fn all_placeholders(mc: nat, tf: nat, sa: nat, mb: nat) -> Seq<QuestionModel> {
    placeholders(
        "Multiple choice placeholder #"@,
        choice_options(),
        "Option A"@,
        QuestionType::MultipleChoice,
        mc,
    ) + placeholders(
        "True/False placeholder #"@,
        true_false_options(),
        "True"@,
        QuestionType::MultipleChoice,
        tf,
    ) + placeholders(
        "Short answer placeholder #"@,
        Seq::empty(),
        Seq::empty(),
        QuestionType::FillInTheBlank,
        sa,
    ) + placeholders(
        "Multiple blank placeholder #"@,
        Seq::empty(),
        Seq::empty(),
        QuestionType::FillInTheBlank,
        mb,
    )
}

impl Quiz {
    /// Appends `count` placeholder questions of one kind.
    fn add_placeholders(
        &mut self,
        label: &str,
        options: &Vec<String>,
        answer: &str,
        question_type: QuestionType,
        count: usize,
    )
        ensures
            final(self)@ == (QuizModel {
                title: old(self)@.title,
                questions: old(self)@.questions + placeholders(
                    label@,
                    texts(options@),
                    answer@,
                    question_type,
                    count as nat,
                ),
            }),
    {
        let mut i: usize = 0;
        assert(self@.questions =~= old(self)@.questions + placeholders(
            label@,
            texts(options@),
            answer@,
            question_type,
            0,
        ));
        while i < count
            invariant
                i <= count,
                self@ == (QuizModel {
                    title: old(self)@.title,
                    questions: old(self)@.questions + placeholders(
                        label@,
                        texts(options@),
                        answer@,
                        question_type,
                        i as nat,
                    ),
                }),
            decreases count - i,
        {
            let number = decimal_string(i + 1);
            let prompt = concat(label, number.as_str());
            self.add_question(
                prompt,
                clone_texts(options),
                String::from_str(answer),
                question_type,
            );
            assert(self@.questions =~= old(self)@.questions + placeholders(
                label@,
                texts(options@),
                answer@,
                question_type,
                (i + 1) as nat,
            ));
            i += 1;
        }
    }

    /// Appends numbered placeholder questions: `mc` multiple-choice ones,
    /// then `tf` true/false, `sa` short-answer and `mb` multiple-blank ones.
    pub fn add_placeholder_questions(&mut self, mc: usize, tf: usize, sa: usize, mb: usize)
        ensures
            final(self)@ == (QuizModel {
                title: old(self)@.title,
                questions: old(self)@.questions + all_placeholders(
                    mc as nat,
                    tf as nat,
                    sa as nat,
                    mb as nat,
                ),
            }),
    {
        let mut four: Vec<String> = Vec::new();
        four.push(String::from_str("Option A"));
        four.push(String::from_str("Option B"));
        four.push(String::from_str("Option C"));
        four.push(String::from_str("Option D"));
        assert(texts(four@) =~= choice_options());
        let mut two: Vec<String> = Vec::new();
        two.push(String::from_str("True"));
        two.push(String::from_str("False"));
        assert(texts(two@) =~= true_false_options());
        let none: Vec<String> = Vec::new();
        assert(texts(none@) =~= Seq::<Seq<char>>::empty());
        proof {
            reveal_strlit("");
            assert(""@ =~= Seq::<char>::empty());
        }
        self.add_placeholders(
            "Multiple choice placeholder #",
            &four,
            "Option A",
            QuestionType::MultipleChoice,
            mc,
        );
        self.add_placeholders(
            "True/False placeholder #",
            &two,
            "True",
            QuestionType::MultipleChoice,
            tf,
        );
        self.add_placeholders("Short answer placeholder #", &none, "", QuestionType::FillInTheBlank, sa);
        self.add_placeholders(
            "Multiple blank placeholder #",
            &none,
            "",
            QuestionType::FillInTheBlank,
            mb,
        );
        assert(self@.questions =~= old(self)@.questions + all_placeholders(
            mc as nat,
            tf as nat,
            sa as nat,
            mb as nat,
        ));
    }

    /// A quiz with the given title and no questions.
    pub fn new(title: String) -> (r: Self)
        ensures
            r@ == (QuizModel { title: title@, questions: Seq::empty() }),
    {
        let r = Quiz { title, questions: Vec::new() };
        assert(r@.questions =~= Seq::empty());
        r
    }

    /// The quiz's title.
    pub fn title(&self) -> (r: &str)
        ensures
            r@ == self@.title,
    {
        self.title.as_str()
    }

    /// Appends a question.
    pub fn add_question(
        &mut self,
        prompt: String,
        options: Vec<String>,
        answer: String,
        question_type: QuestionType,
    )
        ensures
            final(self)@ == (QuizModel {
                title: old(self)@.title,
                questions: old(self)@.questions.push(
                    QuestionModel {
                        prompt: prompt@,
                        options: texts(options@),
                        answer: answer@,
                        question_type,
                    },
                ),
            }),
    {
        let question = Question { prompt, options, answer, question_type };
        self.questions.push(question);
        assert(self@.questions =~= old(self)@.questions.push(question@));
    }

    /// The number of questions.
    pub fn question_count(&self) -> (n: usize)
        ensures
            n == self@.questions.len(),
    {
        self.questions.len()
    }

    /// A copy of the question at `index`, if there is one.
    pub fn get_question_data(&self, index: usize) -> (r: Option<QuestionData>)
        ensures
            index < self@.questions.len() ==> r is Some && r->0@ == self@.questions[index as int],
            index >= self@.questions.len() ==> r is None,
    {
        if index < self.questions.len() {
            Some(self.questions[index].data())
        } else {
            None
        }
    }

    /// Replaces every field of the question at `index`, if there is one, and
    /// says whether it did.
    pub fn update_question(&mut self, index: usize, data: QuestionData) -> (updated: bool)
        ensures
            updated == (index < old(self)@.questions.len()),
            updated ==> final(self)@ == (QuizModel {
                title: old(self)@.title,
                questions: old(self)@.questions.update(index as int, data@),
            }),
            !updated ==> final(self)@ == old(self)@,
    {
        if index < self.questions.len() {
            let question = Question {
                prompt: data.prompt,
                options: data.options,
                answer: data.answer,
                question_type: data.question_type,
            };
            self.questions[index] = question;
            assert(self@.questions =~= old(self)@.questions.update(index as int, data@));
            true
        } else {
            false
        }
    }

    /// Removes the question at `index`, if there is one, and returns it. The
    /// questions behind it move up by one; their order is kept.
    pub fn remove_question(&mut self, index: usize) -> (r: Option<QuestionData>)
        ensures
            index < old(self)@.questions.len() ==> r is Some && r->0@ == old(self)@.questions[index as int]
                && final(self)@ == (QuizModel {
                title: old(self)@.title,
                questions: old(self)@.questions.remove(index as int),
            }),
            index >= old(self)@.questions.len() ==> r is None && final(self)@ == old(self)@,
    {
        if index < self.questions.len() {
            let q = self.questions.remove(index);
            assert(self@.questions =~= old(self)@.questions.remove(index as int));
            Some(
                QuestionData {
                    prompt: q.prompt,
                    options: q.options,
                    answer: q.answer,
                    question_type: q.question_type,
                },
            )
        } else {
            None
        }
    }

    /// Whether `user_answer` answers the question at `question_index`. No
    /// answer is right for a question that does not exist.
    pub fn check_answer(&self, question_index: usize, user_answer: &str) -> (right: bool)
        ensures
            right == (question_index < self@.questions.len() && answers(
                self@.questions[question_index as int],
                user_answer@,
            )),
    {
        if question_index < self.questions.len() {
            let question = &self.questions[question_index];
            match question.question_type {
                QuestionType::MultipleChoice => same_text(question.answer.as_str(), user_answer),
                QuestionType::FillInTheBlank => same_ignoring_ascii_case(
                    trim(question.answer.as_str()),
                    trim(user_answer),
                ),
            }
        } else {
            false
        }
    }

    /// The questions, in order.
    pub fn questions(&self) -> (r: &Vec<Question>)
        ensures
            super::views(r@) == self@.questions,
            r@.len() == self@.questions.len(),
    {
        &self.questions
    }
}

} // verus!
