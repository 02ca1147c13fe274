//! The rendering hints compiled from a questionnaire: one for each question,
//! under the question's number.

use vstd::prelude::*;
use crate::qna::entries::{
    collect, distinct_keys, has_key, keyed, lemma_collect_distinct, lemma_collect_of_distinct,
    lemma_collect_one_entry_per_key, put,
};
use crate::qna::questionlist::question::ui;
use crate::qna::questionlist::{Question, QuestionList, QuestionListView, QuestionView};
use crate::qna::text::{decimal, decimal_string, lemma_decimal_injective, text_of};

verus! {

/// How a form shows one question. A hint that says nothing is empty in every
/// part.
#[derive(Debug, Clone, PartialEq)]
pub struct UiNode {
    pub placeholder: Option<String>,
    pub ui_widget: Option<String>,
    pub ui_options: Option<Vec<(String, String)>>,
}

/// The hints of a questionnaire, each under its question's number, in the
/// order in which the numbers first came and no number twice.
#[derive(Debug, Clone, PartialEq)]
pub struct UiObject {
    pub entries: Vec<(String, UiNode)>,
}

/// What a `UiNode` holds, as mathematical values.
pub ghost struct UiNodeView {
    pub placeholder: Option<Seq<char>>,
    pub ui_widget: Option<Seq<char>>,
    pub ui_options: Option<Seq<(Seq<char>, Seq<char>)>>,
}

/// Options as names and values by their characters.
pub open spec fn options_of(options: Option<Vec<(String, String)>>) -> Option<
    Seq<(Seq<char>, Seq<char>)>,
> {
    match options {
        Some(v) => Some(Seq::new(v@.len(), |i: int| (v@[i].0@, v@[i].1@))),
        None => None,
    }
}

impl View for UiNode {
    type V = UiNodeView;

    open spec fn view(&self) -> UiNodeView {
        UiNodeView {
            placeholder: text_of(self.placeholder),
            ui_widget: text_of(self.ui_widget),
            ui_options: options_of(self.ui_options),
        }
    }
}

impl View for UiObject {
    type V = Seq<(Seq<char>, UiNodeView)>;

    open spec fn view(&self) -> Seq<(Seq<char>, UiNodeView)> {
        keyed(self.entries@)
    }
}

/// The hint that says nothing.
pub open spec fn empty_hint() -> UiNodeView {
    UiNodeView { placeholder: None, ui_widget: None, ui_options: None }
}

/// The hint that a yes/no question's hints give: the widget's name, where
/// one is chosen.
pub open spec fn widget_hint(hints: ui::TrueOrFalse) -> UiNodeView {
    UiNodeView {
        placeholder: None,
        ui_widget: match hints.widget {
            Some(widget) => Some(widget.name()),
            None => None,
        },
        ui_options: None,
    }
}

/// The hint of a question: that of its hints where it is a yes/no question
/// that has some, and the empty one for any other.
pub open spec fn hint(q: QuestionView) -> UiNodeView {
    match q {
        QuestionView::TrueOrFalse(t) => match t.ui {
            Some(hints) => widget_hint(hints),
            None => empty_hint(),
        },
        _ => empty_hint(),
    }
}

/// The number and the hint of each question in turn.
pub open spec fn hint_pairs(questions: Seq<QuestionView>) -> Seq<(Seq<char>, UiNodeView)> {
    Seq::new(questions.len(), |i: int| (decimal(questions[i].id()), hint(questions[i])))
}

/// The hints of a questionnaire. Where two questions share a number, the
/// later one's hint stands under it.
pub open spec fn compile_hints(list: QuestionListView) -> Seq<(Seq<char>, UiNodeView)> {
    collect(hint_pairs(list.questions))
}

/// Every question's number, in decimal, stands over exactly one hint, and
/// every hint under a question's number.
pub proof fn lemma_one_hint_per_question(list: QuestionListView)
    ensures
        distinct_keys(compile_hints(list)),
        forall|i: int|
            0 <= i < list.questions.len() ==> has_key(
                compile_hints(list),
                decimal(#[trigger] list.questions[i].id()),
            ),
        forall|k: int|
            0 <= k < compile_hints(list).len() ==> exists|i: int|
                0 <= i < list.questions.len() && (#[trigger] compile_hints(list)[k]).0 == decimal(
                    list.questions[i].id(),
                ),
{
    let pairs = hint_pairs(list.questions);
    let hints = compile_hints(list);
    lemma_collect_one_entry_per_key(pairs);
    assert forall|i: int| 0 <= i < list.questions.len() implies has_key(
        hints,
        decimal(#[trigger] list.questions[i].id()),
    ) by {
        assert(pairs[i].0 == decimal(list.questions[i].id()));
    }
    assert forall|k: int| 0 <= k < hints.len() implies exists|i: int|
        0 <= i < list.questions.len() && (#[trigger] hints[k]).0 == decimal(
            list.questions[i].id(),
        ) by {
        let i = choose|i: int| 0 <= i < pairs.len() && (#[trigger] pairs[i]).0 == hints[k].0;
        assert(hints[k].0 == decimal(list.questions[i].id()));
    }
}

/// Where no two questions share a number, the hints are the questions'
/// hints, one for one and in the questions' order.
pub proof fn lemma_hints_of_distinct_ids(list: QuestionListView)
    requires
        list.distinct_ids(),
    ensures
        compile_hints(list) == hint_pairs(list.questions),
{
    let pairs = hint_pairs(list.questions);
    assert forall|i: int, j: int|
        0 <= i < pairs.len() && 0 <= j < pairs.len() && (#[trigger] pairs[i]).0 == (
        #[trigger] pairs[j]).0 implies i == j by {
        lemma_decimal_injective(list.questions[i].id(), list.questions[j].id());
    }
    lemma_collect_of_distinct(pairs);
}

impl UiNode {
    /// The hint that says nothing.
    pub fn empty() -> (node: Self)
        ensures
            node@ == empty_hint(),
    {
        Self { placeholder: None, ui_options: None, ui_widget: None }
    }
}

/// What `from` gives is stated by its own contract, over views.
impl vstd::std_specs::convert::FromSpecImpl<ui::TrueOrFalse> for UiNode {
    open spec fn obeys_from_spec() -> bool {
        false
    }

    open spec fn from_spec(hints: ui::TrueOrFalse) -> UiNode {
        arbitrary()
    }
}

impl From<ui::TrueOrFalse> for UiNode {
    /// The hint that a yes/no question's hints give.
    fn from(hints: ui::TrueOrFalse) -> (node: UiNode)
        ensures
            node@ == widget_hint(hints),
    {
        UiNode {
            placeholder: None,
            ui_options: None,
            ui_widget: match hints.widget {
                Some(widget) => Some(widget.to_string()),
                None => None,
            },
        }
    }
}

/// What `from` gives is stated by its own contract, over views.
impl vstd::std_specs::convert::FromSpecImpl<Question> for UiNode {
    open spec fn obeys_from_spec() -> bool {
        false
    }

    open spec fn from_spec(question: Question) -> UiNode {
        arbitrary()
    }
}

impl From<Question> for UiNode {
    /// The hint of a question.
    fn from(question: Question) -> (node: UiNode)
        ensures
            node@ == hint(question@),
    {
        match question {
            Question::TrueOrFalse(q) => {
                match q.ui {
                    Some(hints) => UiNode::from(hints),
                    None => UiNode::empty(),
                }
            },
            _ => UiNode::empty(),
        }
    }
}

/// What `from` gives is stated by its own contract, over views.
impl vstd::std_specs::convert::FromSpecImpl<QuestionList> for UiObject {
    open spec fn obeys_from_spec() -> bool {
        false
    }

    open spec fn from_spec(question_list: QuestionList) -> UiObject {
        arbitrary()
    }
}

impl From<QuestionList> for UiObject {
    /// The hints of a questionnaire.
    fn from(question_list: QuestionList) -> (hints: UiObject)
        ensures
            hints@ == compile_hints(question_list@),
            distinct_keys(hints@),
    {
        proof {
            lemma_collect_distinct(hint_pairs(question_list@.questions));
        }
        let ghost all = question_list@.questions;
        let questions = question_list.questions;
        let mut entries: Vec<(String, UiNode)> = Vec::new();
        for q in it: questions
            invariant
                it.seq() == questions@,
                all == Seq::new(questions@.len(), |i: int| questions@[i]@),
                keyed(entries@) == collect(hint_pairs(all.take(it.index() as int))),
        {
            proof {
                let k = it.index() as int;
                let pairs = hint_pairs(all.take(k + 1));
                assert(pairs.drop_last() == hint_pairs(all.take(k)));
                assert(pairs.last() == (decimal(q@.id()), hint(q@)));
            }
            let key = decimal_string(q.get_id());
            put(&mut entries, key, UiNode::from(q));
        }
        proof {
            assert(all.take(all.len() as int) == all);
        }
        UiObject { entries }
    }
}

} // verus!
