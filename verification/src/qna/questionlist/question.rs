//! The kinds of question.

use vstd::prelude::*;
use crate::qna::questionlist::{Question, QuestionView};
use crate::qna::text::{clone_optional_text, clone_texts, int_of, text_of, texts_of};

pub mod ui;

verus! {

/// A question answered with free text.
#[derive(Debug, PartialEq)]
pub struct FreeText {
    pub id: i32,
    pub title: String,
    pub description: String,
    pub default: Option<String>,
    pub required: bool,
    pub min_length: Option<i32>,
    pub max_length: Option<i32>,
}

/// A question answered with yes or no.
#[derive(Debug, PartialEq)]
pub struct TrueOrFalse {
    pub id: i32,
    pub title: String,
    pub description: String,
    pub default: Option<bool>,
    pub required: bool,
    pub ui: Option<ui::TrueOrFalse>,
}

/// A question answered with a whole number.
#[derive(Debug, PartialEq)]
pub struct Integer {
    pub id: i32,
    pub title: String,
    pub description: String,
    pub required: bool,
    pub default: Option<i32>,
    pub step: Option<i32>,
    pub min: Option<i32>,
    pub max: Option<i32>,
}

/// A question answered with one of a fixed list of values. `items` holds the
/// values and `item_names`, index by index, the labels shown for them.
#[derive(Debug, PartialEq)]
pub struct FixedList {
    pub id: i32,
    pub title: String,
    pub description: String,
    pub required: bool,
    pub default: Vec<String>,
    pub items: Vec<String>,
    pub item_names: Vec<String>,
}

/// A question answered with a list, each element of which answers `question`.
#[derive(Debug, PartialEq)]
pub struct ArrayOf {
    pub id: i32,
    pub title: String,
    pub description: String,
    pub required: bool,
    pub question: Question,
}

/// What a `FreeText` holds, as mathematical values.
pub ghost struct FreeTextView {
    pub id: int,
    pub title: Seq<char>,
    pub description: Seq<char>,
    pub default: Option<Seq<char>>,
    pub required: bool,
    pub min_length: Option<int>,
    pub max_length: Option<int>,
}

/// What a `TrueOrFalse` holds, as mathematical values.
pub ghost struct TrueOrFalseView {
    pub id: int,
    pub title: Seq<char>,
    pub description: Seq<char>,
    pub default: Option<bool>,
    pub required: bool,
    pub ui: Option<ui::TrueOrFalse>,
}

/// What an `Integer` holds, as mathematical values.
pub ghost struct IntegerView {
    pub id: int,
    pub title: Seq<char>,
    pub description: Seq<char>,
    pub required: bool,
    pub default: Option<int>,
    pub step: Option<int>,
    pub min: Option<int>,
    pub max: Option<int>,
}

/// What a `FixedList` holds, as mathematical values.
pub ghost struct FixedListView {
    pub id: int,
    pub title: Seq<char>,
    pub description: Seq<char>,
    pub required: bool,
    pub default: Seq<Seq<char>>,
    pub items: Seq<Seq<char>>,
    pub item_names: Seq<Seq<char>>,
}

/// What an `ArrayOf` holds, as mathematical values.
pub ghost struct ArrayOfView {
    pub id: int,
    pub title: Seq<char>,
    pub description: Seq<char>,
    pub required: bool,
    pub question: QuestionView,
}

impl View for FreeText {
    type V = FreeTextView;

    open spec fn view(&self) -> FreeTextView {
        FreeTextView {
            id: self.id as int,
            title: self.title@,
            description: self.description@,
            default: text_of(self.default),
            required: self.required,
            min_length: int_of(self.min_length),
            max_length: int_of(self.max_length),
        }
    }
}

impl View for TrueOrFalse {
    type V = TrueOrFalseView;

    open spec fn view(&self) -> TrueOrFalseView {
        TrueOrFalseView {
            id: self.id as int,
            title: self.title@,
            description: self.description@,
            default: self.default,
            required: self.required,
            ui: self.ui,
        }
    }
}

impl View for Integer {
    type V = IntegerView;

    open spec fn view(&self) -> IntegerView {
        IntegerView {
            id: self.id as int,
            title: self.title@,
            description: self.description@,
            required: self.required,
            default: int_of(self.default),
            step: int_of(self.step),
            min: int_of(self.min),
            max: int_of(self.max),
        }
    }
}

impl View for FixedList {
    type V = FixedListView;

    open spec fn view(&self) -> FixedListView {
        FixedListView {
            id: self.id as int,
            title: self.title@,
            description: self.description@,
            required: self.required,
            default: texts_of(self.default),
            items: texts_of(self.items),
            item_names: texts_of(self.item_names),
        }
    }
}

impl View for ArrayOf {
    type V = ArrayOfView;

    open spec fn view(&self) -> ArrayOfView {
        ArrayOfView {
            id: self.id as int,
            title: self.title@,
            description: self.description@,
            required: self.required,
            question: self.question@,
        }
    }
}

impl Clone for FreeText {
    fn clone(&self) -> (copy: Self)
        ensures
            copy@ == self@,
    {
        FreeText {
            id: self.id,
            title: self.title.clone(),
            description: self.description.clone(),
            default: clone_optional_text(&self.default),
            required: self.required,
            min_length: self.min_length,
            max_length: self.max_length,
        }
    }
}

impl Clone for TrueOrFalse {
    fn clone(&self) -> (copy: Self)
        ensures
            copy@ == self@,
    {
        TrueOrFalse {
            id: self.id,
            title: self.title.clone(),
            description: self.description.clone(),
            default: self.default,
            required: self.required,
            ui: self.ui,
        }
    }
}

impl Clone for Integer {
    fn clone(&self) -> (copy: Self)
        ensures
            copy@ == self@,
    {
        Integer {
            id: self.id,
            title: self.title.clone(),
            description: self.description.clone(),
            required: self.required,
            default: self.default,
            step: self.step,
            min: self.min,
            max: self.max,
        }
    }
}

impl Clone for FixedList {
    fn clone(&self) -> (copy: Self)
        ensures
            copy@ == self@,
    {
        FixedList {
            id: self.id,
            title: self.title.clone(),
            description: self.description.clone(),
            required: self.required,
            default: clone_texts(&self.default),
            items: clone_texts(&self.items),
            item_names: clone_texts(&self.item_names),
        }
    }
}

impl Clone for ArrayOf {
    fn clone(&self) -> (copy: Self)
        ensures
            copy@ == self@,
    {
        ArrayOf {
            id: self.id,
            title: self.title.clone(),
            description: self.description.clone(),
            required: self.required,
            question: self.question.clone(),
        }
    }
}

} // verus!
