//! A questionnaire: its title and its questions, in order.

use vstd::prelude::*;
use vstd::string::StringExecFns;

pub mod answer;
pub mod question;

verus! {

/// A questionnaire.
#[derive(Debug, PartialEq)]
pub struct QuestionList {
    pub title: String,
    pub description: String,
    pub questions: Vec<Question>,
}

/// One question of a questionnaire.
#[derive(Debug, PartialEq)]
pub enum Question {
    Integer(question::Integer),
    FreeText(question::FreeText),
    TrueOrFalse(question::TrueOrFalse),
    FixedList(question::FixedList),
    ArrayOf(Box<question::ArrayOf>),
}

/// What a `Question` holds, as mathematical values.
pub ghost enum QuestionView {
    Integer(question::IntegerView),
    FreeText(question::FreeTextView),
    TrueOrFalse(question::TrueOrFalseView),
    FixedList(question::FixedListView),
    ArrayOf(Box<question::ArrayOfView>),
}

/// What a `QuestionList` holds, as mathematical values.
pub ghost struct QuestionListView {
    pub title: Seq<char>,
    pub description: Seq<char>,
    pub questions: Seq<QuestionView>,
}

impl View for Question {
    type V = QuestionView;

    open spec fn view(&self) -> QuestionView
        decreases self,
    {
        match self {
            Question::Integer(q) => QuestionView::Integer(q@),
            Question::FreeText(q) => QuestionView::FreeText(q@),
            Question::TrueOrFalse(q) => QuestionView::TrueOrFalse(q@),
            Question::FixedList(q) => QuestionView::FixedList(q@),
            Question::ArrayOf(q) => QuestionView::ArrayOf(
                Box::new(
                    question::ArrayOfView {
                        id: q.id as int,
                        title: q.title@,
                        description: q.description@,
                        required: q.required,
                        question: q.question.view(),
                    },
                ),
            ),
        }
    }
}

impl View for QuestionList {
    type V = QuestionListView;

    open spec fn view(&self) -> QuestionListView {
        QuestionListView {
            title: self.title@,
            description: self.description@,
            questions: Seq::new(self.questions@.len(), |i: int| self.questions@[i]@),
        }
    }
}

impl QuestionListView {
    /// Whether no two questions share a number.
    pub open spec fn distinct_ids(self) -> bool {
        forall|i: int, j: int|
            0 <= i < self.questions.len() && 0 <= j < self.questions.len() && (
            #[trigger] self.questions[i]).id() == (#[trigger] self.questions[j]).id() ==> i == j
    }
}

impl QuestionView {
    /// The number by which the question is known.
    pub open spec fn id(self) -> int {
        match self {
            QuestionView::Integer(q) => q.id,
            QuestionView::FreeText(q) => q.id,
            QuestionView::TrueOrFalse(q) => q.id,
            QuestionView::FixedList(q) => q.id,
            QuestionView::ArrayOf(q) => q.id,
        }
    }

    /// Whether an answer to the question must be given.
    pub open spec fn required(self) -> bool {
        match self {
            QuestionView::Integer(q) => q.required,
            QuestionView::FreeText(q) => q.required,
            QuestionView::TrueOrFalse(q) => q.required,
            QuestionView::FixedList(q) => q.required,
            QuestionView::ArrayOf(q) => q.required,
        }
    }
}

impl Question {
    /// The number by which the question is known.
    pub fn get_id(&self) -> (id: i32)
        ensures
            id == self@.id(),
    {
        match self {
            Question::Integer(q) => q.id,
            Question::FreeText(q) => q.id,
            Question::TrueOrFalse(q) => q.id,
            Question::FixedList(q) => q.id,
            Question::ArrayOf(q) => q.id,
        }
    }

    /// Whether an answer to the question must be given.
    pub fn is_required(&self) -> (required: bool)
        ensures
            required == self@.required(),
    {
        match self {
            Question::Integer(q) => q.required,
            Question::FreeText(q) => q.required,
            Question::TrueOrFalse(q) => q.required,
            Question::FixedList(q) => q.required,
            Question::ArrayOf(q) => q.required,
        }
    }
}

impl Clone for Question {
    fn clone(&self) -> (copy: Self)
        ensures
            copy@ == self@,
        decreases self,
    {
        match self {
            Question::Integer(q) => Question::Integer(q.clone()),
            Question::FreeText(q) => Question::FreeText(q.clone()),
            Question::TrueOrFalse(q) => Question::TrueOrFalse(q.clone()),
            Question::FixedList(q) => Question::FixedList(q.clone()),
            Question::ArrayOf(q) => Question::ArrayOf(
                Box::new(
                    question::ArrayOf {
                        id: q.id,
                        title: q.title.clone(),
                        description: q.description.clone(),
                        required: q.required,
                        question: q.question.clone(),
                    },
                ),
            ),
        }
    }
}

impl Clone for QuestionList {
    fn clone(&self) -> (copy: Self)
        ensures
            copy@ == self@,
    {
        let mut questions: Vec<Question> = Vec::new();
        let mut i: usize = 0;
        while i < self.questions.len()
            invariant
                i <= self.questions@.len(),
                questions@.len() == i,
                forall|j: int| 0 <= j < i ==> questions@[j]@ == self.questions@[j]@,
            decreases self.questions@.len() - i,
        {
            questions.push(self.questions[i].clone());
            i = i + 1;
        }
        let copy = QuestionList {
            title: self.title.clone(),
            description: self.description.clone(),
            questions,
        };
        assert(copy@.questions =~= self@.questions);
        copy
    }
}

/// The free-text question about food of the sample questionnaire.
pub open spec fn sample_food_question() -> question::FreeTextView {
    question::FreeTextView {
        id: 1,
        title: "What is your favourite food?"@,
        description: "Tell be about your food preferences"@,
        default: Some("Ice"@),
        required: true,
        min_length: Some(0),
        max_length: Some(64),
    }
}

/// The sample questionnaire: seven required questions, one of each kind and
/// two more, under the numbers 1, 8, 88, 222, 24, 3 and 899.
pub open spec fn sample_questions() -> QuestionListView {
    QuestionListView {
        title: "Zork"@,
        description: "Title zoek description"@,
        questions: seq![
            QuestionView::FreeText(sample_food_question()),
            QuestionView::ArrayOf(
                Box::new(
                    question::ArrayOfView {
                        id: 8,
                        title: "What is your favourite food?"@,
                        description: "Tell be about your food preferences"@,
                        required: true,
                        question: QuestionView::FreeText(sample_food_question()),
                    },
                ),
            ),
            QuestionView::Integer(
                question::IntegerView {
                    id: 88,
                    title: "A number"@,
                    description: "Some number"@,
                    required: true,
                    default: Some(1),
                    step: Some(10),
                    min: Some(0),
                    max: Some(100),
                },
            ),
            QuestionView::TrueOrFalse(
                question::TrueOrFalseView {
                    id: 222,
                    title: "Some T/F 1"@,
                    description: "Some T/f"@,
                    default: Some(false),
                    required: true,
                    ui: None,
                },
            ),
            QuestionView::FixedList(
                question::FixedListView {
                    id: 24,
                    title: "Zork and or Bork?"@,
                    description: "Some T/f"@,
                    required: true,
                    default: Seq::empty(),
                    items: seq!["zork"@, "bork"@],
                    item_names: seq!["Zork"@, "Bork"@],
                },
            ),
            QuestionView::FreeText(
                question::FreeTextView {
                    id: 3,
                    title: "Some title 2"@,
                    description: "Some 2 desc"@,
                    default: None,
                    required: true,
                    min_length: Some(0),
                    max_length: Some(64),
                },
            ),
            QuestionView::TrueOrFalse(
                question::TrueOrFalseView {
                    id: 899,
                    title: "I have read the terms and conditions"@,
                    description: "Some T/f"@,
                    default: Some(false),
                    required: true,
                    ui: Some(
                        question::ui::TrueOrFalse {
                            widget: Some(question::ui::TrueOrFalseWidget::Radio),
                        },
                    ),
                },
            ),
        ],
    }
}

fn sample_food() -> (q: question::FreeText)
    ensures
        q@ == sample_food_question(),
{
    question::FreeText {
        id: 1,
        title: String::from_str("What is your favourite food?"),
        description: String::from_str("Tell be about your food preferences"),
        default: Some(String::from_str("Ice")),
        required: true,
        min_length: Some(0),
        max_length: Some(64),
    }
}

/// The sample questionnaire.
pub fn sample_string_questions() -> (list: QuestionList)
    ensures
        list@ == sample_questions(),
{
    let element = Question::FreeText(sample_food());
    assert(element@ == QuestionView::FreeText(sample_food_question()));
    let nested = Question::ArrayOf(
        Box::new(
            question::ArrayOf {
                id: 8,
                title: String::from_str("What is your favourite food?"),
                description: String::from_str("Tell be about your food preferences"),
                required: true,
                question: element,
            },
        ),
    );
    let number = Question::Integer(
        question::Integer {
            id: 88,
            title: String::from_str("A number"),
            description: String::from_str("Some number"),
            default: Some(1),
            required: true,
            step: Some(10),
            min: Some(0),
            max: Some(100),
        },
    );
    let truth = Question::TrueOrFalse(
        question::TrueOrFalse {
            id: 222,
            title: String::from_str("Some T/F 1"),
            description: String::from_str("Some T/f"),
            default: Some(false),
            required: true,
            ui: None,
        },
    );
    let choice = Question::FixedList(
        question::FixedList {
            id: 24,
            title: String::from_str("Zork and or Bork?"),
            description: String::from_str("Some T/f"),
            default: Vec::new(),
            required: true,
            items: vec![String::from_str("zork"), String::from_str("bork")],
            item_names: vec![String::from_str("Zork"), String::from_str("Bork")],
        },
    );
    let text = Question::FreeText(
        question::FreeText {
            id: 3,
            title: String::from_str("Some title 2"),
            description: String::from_str("Some 2 desc"),
            default: None,
            required: true,
            min_length: Some(0),
            max_length: Some(64),
        },
    );
    let terms = Question::TrueOrFalse(
        question::TrueOrFalse {
            id: 899,
            title: String::from_str("I have read the terms and conditions"),
            description: String::from_str("Some T/f"),
            default: Some(false),
            required: true,
            ui: Some(
                question::ui::TrueOrFalse { widget: Some(question::ui::TrueOrFalseWidget::Radio) },
            ),
        },
    );
    let food = Question::FreeText(sample_food());
    proof {
        let c = choice->FixedList_0;
        assert(c@.default =~= Seq::empty());
        assert(c@.items =~= seq!["zork"@, "bork"@]);
        assert(c@.item_names =~= seq!["Zork"@, "Bork"@]);
        let expected = sample_questions().questions;
        assert(food@ == expected[0]);
        assert(nested@ == expected[1]);
        assert(number@ == expected[2]);
        assert(truth@ == expected[3]);
        assert(choice@ == expected[4]);
        assert(text@ == expected[5]);
        assert(terms@ == expected[6]);
    }
    let list = QuestionList {
        title: String::from_str("Zork"),
        description: String::from_str("Title zoek description"),
        questions: vec![food, nested, number, truth, choice, text, terms],
    };
    assert(list@.questions =~= sample_questions().questions);
    list
}

} // verus!
