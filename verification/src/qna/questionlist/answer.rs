//! Answers as they are given, each to the question of one number.

use vstd::prelude::*;

verus! {

/// A free text given in answer.
#[derive(Debug, PartialEq)]
pub struct FreeText {
    pub question_id: i32,
    pub value: String,
}

/// A yes or no given in answer.
#[derive(Debug, Clone, Copy, PartialEq, Eq, Structural)]
pub struct TrueOrFalse {
    pub question_id: i32,
    pub value: bool,
}

/// What a `FreeText` holds, as mathematical values.
pub ghost struct FreeTextView {
    pub question_id: int,
    pub value: Seq<char>,
}

impl View for FreeText {
    type V = FreeTextView;

    open spec fn view(&self) -> FreeTextView {
        FreeTextView { question_id: self.question_id as int, value: self.value@ }
    }
}

impl Clone for FreeText {
    fn clone(&self) -> (copy: Self)
        ensures
            copy@ == self@,
    {
        FreeText { question_id: self.question_id, value: self.value.clone() }
    }
}

} // verus!
