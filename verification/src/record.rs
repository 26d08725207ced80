//! The question record: the value type every backend stores.

use vstd::prelude::*;

verus! {

/// A question record.
///
/// `id` is the record's identity and never changes once the record is
/// created; `text` is the prompt and is non-empty in every stored
/// record; `answer` is absent until the question is answered; `source`
/// is an optional provenance annotation.
///
/// The identifier is an opaque 128-bit token.  Its usual textual form
/// (hyphenated hexadecimal) is handled by [`crate::ident`].
#[derive(Debug, PartialEq, Eq)]
pub struct Question {
    pub id: u128,
    pub text: String,
    pub answer: Option<String>,
    pub source: Option<String>,
}

/// The value of an optional text field: the text read as a character
/// sequence, when present.
pub open spec fn opt_model(o: Option<String>) -> Option<Seq<char>> {
    match o {
        Some(s) => Some(s@),
        None => None,
    }
}

/// The mathematical value of a [`Question`]: the same fields with the
/// strings read as character sequences.  Contracts speak of records
/// through this model.
pub ghost struct QuestionModel {
    pub id: u128,
    pub text: Seq<char>,
    pub answer: Option<Seq<char>>,
    pub source: Option<Seq<char>>,
}

impl QuestionModel {
    /// A stored record is well formed when its prompt is non-empty.
    pub open spec fn wf(self) -> bool {
        self.text.len() > 0
    }

    /// The record as a create operation stores it: the same prompt and
    /// provenance, with the answer absent until a later operation sets
    /// one.
    pub open spec fn fresh(self) -> QuestionModel {
        QuestionModel { answer: None, ..self }
    }

    /// The record after its answer is set to `answer`.
    pub open spec fn with_answer(self, answer: Seq<char>) -> QuestionModel {
        QuestionModel { answer: Some(answer), ..self }
    }

    /// The record after a replace with payload `payload`: every field
    /// is taken from the payload except the identity, which is kept.
    pub open spec fn replaced_with(self, payload: QuestionModel) -> QuestionModel {
        QuestionModel { id: self.id, ..payload }
    }
}

impl View for Question {
    type V = QuestionModel;

    open spec fn view(&self) -> QuestionModel {
        QuestionModel {
            id: self.id,
            text: self.text@,
            answer: opt_model(self.answer),
            source: opt_model(self.source),
        }
    }
}

impl Clone for Question {
    /// Callers receive snapshots, never live references; cloning a
    /// record preserves it exactly.
    fn clone(&self) -> (r: Self)
        ensures
            r == *self,
    {
        Question {
            id: self.id,
            text: self.text.clone(),
            answer: self.answer.clone(),
            source: self.source.clone(),
        }
    }
}

} // verus!
