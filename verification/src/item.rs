//! Items that the server stores and hands out.
use vstd::prelude::*;

verus! {

/// Item stored and returned by the server.
#[derive(Debug, Clone, PartialEq, Eq)]
pub enum Item {
    /// Multiple choice question.
    MultipleChoice {
        /// Possible answers, the first is always the correct answer.
        answers: Vec<String>,
        /// Question.
        question: String,
    },
}

impl View for Item {
    /// The question and the answers of the item.
    type V = (Seq<char>, Seq<Seq<char>>);

    open spec fn view(&self) -> (Seq<char>, Seq<Seq<char>>) {
        match self {
            Item::MultipleChoice { answers, question } => (question@, answers@.map_values(|a: String| a@)),
        }
    }
}

impl Item {
    /// The question of the item.
    pub open spec fn question_text(&self) -> Seq<char> {
        match self {
            Item::MultipleChoice { question, .. } => question@,
        }
    }

    /// The question of the item.
    pub fn question(&self) -> (q: &String)
        ensures
            q@ == self.question_text(),
    {
        match self {
            Item::MultipleChoice { question, .. } => question,
        }
    }
}

} // verus!
