//! A question: one line of text that is published as one post.

use vstd::prelude::*;

verus! {

/// One line of input text. It is created when the question file is read and
/// never changed afterwards.
#[derive(Clone, Debug, PartialEq, Eq)]
pub struct Question {
    text: String,
}

impl View for Question {
    type V = Seq<char>;

    closed spec fn view(&self) -> Seq<char> {
        self.text@
    }
}

impl Default for Question {
    /// The question without text.
    fn default() -> (question: Question)
        ensures
            question@ == Seq::<char>::empty(),
    {
        Question { text: String::new() }
    }
}

impl Question {
    /// Wraps a line of text.
    pub fn new(text: String) -> (question: Question)
        ensures
            question@ == text@,
    {
        Question { text }
    }

    /// The text of the question, exactly as it was read.
    pub fn text(&self) -> (text: &str)
        ensures
            text@ == self@,
    {
        self.text.as_str()
    }
}

/// The texts of a sequence of questions, in the same order.
pub open spec fn texts(questions: Seq<Question>) -> Seq<Seq<char>> {
    questions.map_values(|question: Question| question@)
}

/// Appending a question appends its text.
pub proof fn lemma_texts_push(questions: Seq<Question>, question: Question)
    ensures
        texts(questions.push(question)) == texts(questions).push(question@),
{
    assert(texts(questions.push(question)) =~= texts(questions).push(question@));
}

} // verus!
