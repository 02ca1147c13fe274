//! The schema document compiled from a questionnaire.

use vstd::prelude::*;
use crate::qna::entries::{
    collect, distinct_keys, has_key, keyed, lemma_collect_distinct, lemma_collect_last_wins,
    lemma_collect_of_distinct, lemma_collect_one_entry_per_key, position, put,
};
use crate::qna::questionlist::{Question, QuestionList, QuestionListView, QuestionView};
use crate::qna::text::{
    clone_optional_text, clone_texts, decimal, decimal_string, int_of, lemma_decimal_injective,
    text_of, texts_of,
};

pub mod ui_schema;

verus! {

/// One node of a schema document.
#[derive(Debug, PartialEq)]
pub enum Node {
    Integer(IntegerNode),
    String(StringNode),
    Boolean(BooleanNode),
    FixedList(FixedListNode),
    Object(ObjectNode),
    Array(ArrayNode),
}

/// The schema of an object: what each of its properties holds, under the
/// property's name and in the order in which the names first came, no name
/// twice; which properties must be there; and whether others may be.
#[derive(Debug, PartialEq)]
pub struct ObjectNode {
    pub title: String,
    pub description: String,
    pub properties: Vec<(String, Node)>,
    pub additional_properties: bool,
    pub required: Vec<String>,
}

/// The schema of a text: at least `min_length` and at most `max_length`
/// characters long, as far as each is given.
#[derive(Debug, PartialEq)]
pub struct StringNode {
    pub title: String,
    pub description: String,
    pub default: Option<String>,
    pub min_length: Option<i32>,
    pub max_length: Option<i32>,
}

/// The schema of a truth value.
#[derive(Debug, PartialEq)]
pub struct BooleanNode {
    pub title: String,
    pub description: String,
    pub default: Option<bool>,
}

/// The schema of a whole number: a multiple of `multiple_of`, from `minimum`
/// to `maximum`, as far as each is given.
#[derive(Debug, PartialEq)]
pub struct IntegerNode {
    pub title: String,
    pub description: String,
    pub default: Option<i32>,
    pub multiple_of: Option<i32>,
    pub minimum: Option<i32>,
    pub maximum: Option<i32>,
}

/// The schema of a text that is one of `items`; `item_names` holds, index by
/// index, the labels shown for them.
#[derive(Debug, PartialEq)]
pub struct FixedListNode {
    pub title: String,
    pub description: String,
    pub default: Vec<String>,
    pub items: Vec<String>,
    pub item_names: Vec<String>,
}

/// The schema of a list whose elements each follow `items`.
#[derive(Debug, PartialEq)]
pub struct ArrayNode {
    pub title: String,
    pub description: String,
    pub items: Box<Node>,
}

/// What a `Node` holds, as mathematical values.
pub ghost enum NodeView {
    Integer(IntegerNodeView),
    String(StringNodeView),
    Boolean(BooleanNodeView),
    FixedList(FixedListNodeView),
    Object(ObjectNodeView),
    Array(ArrayNodeView),
}

/// What an `ObjectNode` holds, as mathematical values.
pub ghost struct ObjectNodeView {
    pub title: Seq<char>,
    pub description: Seq<char>,
    pub properties: Seq<(Seq<char>, NodeView)>,
    pub additional_properties: bool,
    pub required: Seq<Seq<char>>,
}

impl ObjectNodeView {
    /// Whether no two properties have one name.
    pub open spec fn well_formed(self) -> bool {
        distinct_keys(self.properties)
    }
}

/// What a `StringNode` holds, as mathematical values.
pub ghost struct StringNodeView {
    pub title: Seq<char>,
    pub description: Seq<char>,
    pub default: Option<Seq<char>>,
    pub min_length: Option<int>,
    pub max_length: Option<int>,
}

/// What a `BooleanNode` holds, as mathematical values.
pub ghost struct BooleanNodeView {
    pub title: Seq<char>,
    pub description: Seq<char>,
    pub default: Option<bool>,
}

/// What an `IntegerNode` holds, as mathematical values.
pub ghost struct IntegerNodeView {
    pub title: Seq<char>,
    pub description: Seq<char>,
    pub default: Option<int>,
    pub multiple_of: Option<int>,
    pub minimum: Option<int>,
    pub maximum: Option<int>,
}

/// What a `FixedListNode` holds, as mathematical values.
pub ghost struct FixedListNodeView {
    pub title: Seq<char>,
    pub description: Seq<char>,
    pub default: Seq<Seq<char>>,
    pub items: Seq<Seq<char>>,
    pub item_names: Seq<Seq<char>>,
}

/// What an `ArrayNode` holds, as mathematical values.
pub ghost struct ArrayNodeView {
    pub title: Seq<char>,
    pub description: Seq<char>,
    pub items: Box<NodeView>,
}

impl View for IntegerNode {
    type V = IntegerNodeView;

    open spec fn view(&self) -> IntegerNodeView {
        IntegerNodeView {
            title: self.title@,
            description: self.description@,
            default: int_of(self.default),
            multiple_of: int_of(self.multiple_of),
            minimum: int_of(self.minimum),
            maximum: int_of(self.maximum),
        }
    }
}

impl View for StringNode {
    type V = StringNodeView;

    open spec fn view(&self) -> StringNodeView {
        StringNodeView {
            title: self.title@,
            description: self.description@,
            default: text_of(self.default),
            min_length: int_of(self.min_length),
            max_length: int_of(self.max_length),
        }
    }
}

impl View for BooleanNode {
    type V = BooleanNodeView;

    open spec fn view(&self) -> BooleanNodeView {
        BooleanNodeView {
            title: self.title@,
            description: self.description@,
            default: self.default,
        }
    }
}

impl View for FixedListNode {
    type V = FixedListNodeView;

    open spec fn view(&self) -> FixedListNodeView {
        FixedListNodeView {
            title: self.title@,
            description: self.description@,
            default: texts_of(self.default),
            items: texts_of(self.items),
            item_names: texts_of(self.item_names),
        }
    }
}

/// The view of a node.
pub open spec fn node_view(node: Node) -> NodeView
    decreases node, 0nat,
{
    match node {
        Node::Integer(n) => NodeView::Integer(n@),
        Node::String(n) => NodeView::String(n@),
        Node::Boolean(n) => NodeView::Boolean(n@),
        Node::FixedList(n) => NodeView::FixedList(n@),
        Node::Object(n) => NodeView::Object(
            ObjectNodeView {
                title: n.title@,
                description: n.description@,
                properties: properties_view(n.properties@, n.properties@.len()),
                additional_properties: n.additional_properties,
                required: texts_of(n.required),
            },
        ),
        Node::Array(n) => NodeView::Array(
            ArrayNodeView {
                title: n.title@,
                description: n.description@,
                items: Box::new(node_view(*n.items)),
            },
        ),
    }
}

/// The views of the first `count` properties, each under its name.
pub open spec fn properties_view(properties: Seq<(String, Node)>, count: nat) -> Seq<
    (Seq<char>, NodeView),
>
    decreases properties, count,
{
    if count == 0 || count > properties.len() {
        Seq::empty()
    } else {
        properties_view(properties, (count - 1) as nat).push(
            (properties[count - 1].0@, node_view(properties[count - 1].1)),
        )
    }
}

impl View for Node {
    type V = NodeView;

    open spec fn view(&self) -> NodeView {
        node_view(*self)
    }
}

/// The properties, counted one by one, are the properties by their views.
pub proof fn lemma_properties_view(properties: Seq<(String, Node)>, count: nat)
    requires
        count <= properties.len(),
    ensures
        properties_view(properties, count) == keyed(properties.take(count as int)),
    decreases count,
{
    if count > 0 {
        lemma_properties_view(properties, (count - 1) as nat);
    }
    assert(properties_view(properties, count) =~= keyed(properties.take(count as int)));
}

impl View for ObjectNode {
    type V = ObjectNodeView;

    open spec fn view(&self) -> ObjectNodeView {
        ObjectNodeView {
            title: self.title@,
            description: self.description@,
            properties: keyed(self.properties@),
            additional_properties: self.additional_properties,
            required: texts_of(self.required),
        }
    }
}

impl View for ArrayNode {
    type V = ArrayNodeView;

    open spec fn view(&self) -> ArrayNodeView {
        ArrayNodeView {
            title: self.title@,
            description: self.description@,
            items: Box::new((*self.items)@),
        }
    }
}

/// A node that wraps an object or an array has the view of what it wraps.
pub proof fn lemma_view_of_wrapped(node: Node)
    ensures
        node matches Node::Object(o) ==> node@ == NodeView::Object(o@),
        node matches Node::Array(a) ==> node@ == NodeView::Array(a@),
{
    match node {
        Node::Object(o) => {
            lemma_properties_view(o.properties@, o.properties@.len());
            assert(o.properties@.take(o.properties@.len() as int) == o.properties@);
        },
        _ => {},
    }
}

/// The schema node that describes the answers to one question.
pub open spec fn compile_question(q: QuestionView) -> NodeView
    decreases q,
{
    match q {
        QuestionView::Integer(q) => NodeView::Integer(
            IntegerNodeView {
                title: q.title,
                description: q.description,
                default: q.default,
                multiple_of: q.step,
                minimum: q.min,
                maximum: q.max,
            },
        ),
        QuestionView::FreeText(q) => NodeView::String(
            StringNodeView {
                title: q.title,
                description: q.description,
                default: q.default,
                min_length: q.min_length,
                max_length: q.max_length,
            },
        ),
        QuestionView::TrueOrFalse(q) => NodeView::Boolean(
            BooleanNodeView { title: q.title, description: q.description, default: q.default },
        ),
        QuestionView::FixedList(q) => NodeView::FixedList(
            FixedListNodeView {
                title: q.title,
                description: q.description,
                default: q.default,
                items: q.items,
                item_names: q.item_names,
            },
        ),
        QuestionView::ArrayOf(q) => NodeView::Array(
            ArrayNodeView {
                title: q.title,
                description: q.description,
                items: Box::new(compile_question(q.question)),
            },
        ),
    }
}

/// What `from` gives is stated by its own contract, over views.
impl vstd::std_specs::convert::FromSpecImpl<Question> for Node {
    open spec fn obeys_from_spec() -> bool {
        false
    }

    open spec fn from_spec(question: Question) -> Node {
        arbitrary()
    }
}

impl From<Question> for Node {
    /// Compiles a question into the schema of its answers.
    fn from(question: Question) -> (node: Node)
        ensures
            node@ == compile_question(question@),
        decreases question,
    {
        match question {
            Question::Integer(q) => Node::Integer(
                IntegerNode {
                    title: q.title,
                    description: q.description,
                    default: q.default,
                    multiple_of: q.step,
                    minimum: q.min,
                    maximum: q.max,
                },
            ),
            Question::FreeText(q) => Node::String(
                StringNode {
                    title: q.title,
                    description: q.description,
                    default: q.default,
                    min_length: q.min_length,
                    max_length: q.max_length,
                },
            ),
            Question::TrueOrFalse(q) => Node::Boolean(
                BooleanNode { title: q.title, description: q.description, default: q.default },
            ),
            Question::FixedList(q) => Node::FixedList(
                FixedListNode {
                    title: q.title,
                    description: q.description,
                    default: q.default,
                    items: q.items,
                    item_names: q.item_names,
                },
            ),
            Question::ArrayOf(q) => {
                let arr = *q;
                Node::Array(
                    ArrayNode {
                        title: arr.title,
                        description: arr.description,
                        items: Box::new(Node::from(arr.question)),
                    },
                )
            },
        }
    }
}

/// The name of a property and the schema of what it holds, for each question
/// in turn.
pub open spec fn property_pairs(questions: Seq<QuestionView>) -> Seq<(Seq<char>, NodeView)> {
    Seq::new(
        questions.len(),
        |i: int| (decimal(questions[i].id()), compile_question(questions[i])),
    )
}

/// The questions that are required, in order.
pub open spec fn required_questions(questions: Seq<QuestionView>) -> Seq<QuestionView> {
    questions.filter(|q: QuestionView| q.required())
}

/// The names of the properties that must be there: one for each question that
/// is required, in the order of the questions.
pub open spec fn required_keys(questions: Seq<QuestionView>) -> Seq<Seq<char>> {
    required_questions(questions).map_values(|q: QuestionView| decimal(q.id()))
}

/// The schema document of a questionnaire. Each question gives one property,
/// named by the question's number in decimal, and each required question
/// one required name. No other property is admitted.
///
/// Two questions that share a number share a property: the later one's
/// schema stands under it, in the place of the earlier one. The required
/// names are not merged: where both questions are required, the name is
/// required twice, which Draft 7 does not admit, so that validating against
/// such a document ends in its rejection.
pub open spec fn compile_list(list: QuestionListView) -> ObjectNodeView {
    ObjectNodeView {
        title: list.title,
        description: list.description,
        properties: collect(property_pairs(list.questions)),
        additional_properties: false,
        required: required_keys(list.questions),
    }
}

/// One more question adds its name to the required ones exactly if it is
/// required.
pub proof fn lemma_required_keys_push(questions: Seq<QuestionView>, q: QuestionView)
    ensures
        required_keys(questions.push(q)) == if q.required() {
            required_keys(questions).push(decimal(q.id()))
        } else {
            required_keys(questions)
        },
{
    reveal(Seq::filter);
    let longer = questions.push(q);
    assert(longer.drop_last() == questions);
    assert(longer.last() == q);
    if q.required() {
        assert(required_keys(longer) =~= required_keys(questions).push(decimal(q.id())));
    }
}

/// Every question's number, in decimal, names exactly one property of the
/// compiled document, and every property is named by a question's number.
pub proof fn lemma_one_property_per_question(list: QuestionListView)
    ensures
        distinct_keys(compile_list(list).properties),
        forall|i: int|
            0 <= i < list.questions.len() ==> has_key(
                compile_list(list).properties,
                decimal(#[trigger] list.questions[i].id()),
            ),
        forall|k: int|
            0 <= k < compile_list(list).properties.len() ==> exists|i: int|
                0 <= i < list.questions.len() && (#[trigger] compile_list(
                    list,
                ).properties[k]).0 == decimal(list.questions[i].id()),
{
    let pairs = property_pairs(list.questions);
    let props = compile_list(list).properties;
    lemma_collect_one_entry_per_key(pairs);
    assert forall|i: int| 0 <= i < list.questions.len() implies has_key(
        props,
        decimal(#[trigger] list.questions[i].id()),
    ) by {
        assert(pairs[i].0 == decimal(list.questions[i].id()));
    }
    assert forall|k: int| 0 <= k < props.len() implies exists|i: int|
        0 <= i < list.questions.len() && (#[trigger] props[k]).0 == decimal(
            list.questions[i].id(),
        ) by {
        let i = choose|i: int| 0 <= i < pairs.len() && (#[trigger] pairs[i]).0 == props[k].0;
        assert(props[k].0 == decimal(list.questions[i].id()));
    }
}

/// Under a question's number stands the schema of that question, unless a
/// later question has the same number.
pub proof fn lemma_property_of_question(list: QuestionListView, i: int)
    requires
        0 <= i < list.questions.len(),
        forall|j: int|
            i < j < list.questions.len() ==> (#[trigger] list.questions[j]).id()
                != list.questions[i].id(),
    ensures
        has_key(compile_list(list).properties, decimal(list.questions[i].id())),
        compile_list(list).properties[position(
            compile_list(list).properties,
            decimal(list.questions[i].id()),
        )] == (decimal(list.questions[i].id()), compile_question(list.questions[i])),
{
    let pairs = property_pairs(list.questions);
    assert forall|j: int| i < j < pairs.len() implies (#[trigger] pairs[j]).0 != pairs[i].0 by {
        if decimal(list.questions[j].id()) == decimal(list.questions[i].id()) {
            lemma_decimal_injective(list.questions[j].id(), list.questions[i].id());
        }
    }
    lemma_collect_last_wins(pairs, i);
}

/// Where no two questions share a number, the properties are the questions'
/// schemas, one for one and in the questions' order.
pub proof fn lemma_properties_of_distinct_ids(list: QuestionListView)
    requires
        list.distinct_ids(),
    ensures
        compile_list(list).properties == property_pairs(list.questions),
{
    let pairs = property_pairs(list.questions);
    assert forall|i: int, j: int|
        0 <= i < pairs.len() && 0 <= j < pairs.len() && (#[trigger] pairs[i]).0 == (
        #[trigger] pairs[j]).0 implies i == j by {
        lemma_decimal_injective(list.questions[i].id(), list.questions[j].id());
    }
    lemma_collect_of_distinct(pairs);
}

/// Where no two questions share a number, no name is required twice, and as
/// many names are required as there are required questions.
pub proof fn lemma_required_of_distinct_ids(list: QuestionListView)
    requires
        list.distinct_ids(),
    ensures
        compile_list(list).required.no_duplicates(),
        compile_list(list).required.len() == required_questions(list.questions).len(),
    decreases list.questions.len(),
{
    let questions = list.questions;
    if questions.len() > 0 {
        let front = questions.drop_last();
        let q = questions.last();
        let shorter = QuestionListView { questions: front, ..list };
        assert(shorter.distinct_ids()) by {
            assert forall|i: int, j: int|
                0 <= i < front.len() && 0 <= j < front.len() && (#[trigger] front[i]).id() == (
                #[trigger] front[j]).id() implies i == j by {
                assert(questions[i] == front[i]);
                assert(questions[j] == front[j]);
            }
        }
        lemma_required_of_distinct_ids(shorter);
        assert(front.push(q) == questions);
        lemma_required_keys_push(front, q);
        if q.required() {
            let there = required_keys(front);
            let key = decimal(q.id());
            lemma_required_keys(front, key);
            if there.contains(key) {
                let i = choose|i: int|
                    0 <= i < front.len() && (#[trigger] front[i]).required() && decimal(
                        front[i].id(),
                    ) == key;
                lemma_decimal_injective(front[i].id(), q.id());
                assert(questions[i] == front[i]);
                assert(questions[questions.len() - 1] == q);
            }
            let here = there.push(key);
            assert forall|i: int, j: int|
                0 <= i < here.len() && 0 <= j < here.len() && i != j implies here[i]
                != here[j] by {
                if i < there.len() && j < there.len() {
                } else if i < there.len() {
                    assert(there[i] == here[i]);
                } else {
                    assert(there[j] == here[j]);
                }
            }
        }
    } else {
        reveal(Seq::filter);
        assert(required_questions(questions).len() == 0);
    }
}

/// A number is among the required names of the compiled document exactly if
/// a required question has that number.
pub proof fn lemma_required_are_the_required(list: QuestionListView, id: int)
    ensures
        compile_list(list).required.contains(decimal(id)) <==> exists|i: int|
            0 <= i < list.questions.len() && (#[trigger] list.questions[i]).required()
                && list.questions[i].id() == id,
{
    lemma_required_keys(list.questions, decimal(id));
    if compile_list(list).required.contains(decimal(id)) {
        let i = choose|i: int|
            0 <= i < list.questions.len() && (#[trigger] list.questions[i]).required() && decimal(
                list.questions[i].id(),
            ) == decimal(id);
        lemma_decimal_injective(list.questions[i].id(), id);
    }
}

/// A name is among the required ones exactly if it is the number of a
/// required question.
pub proof fn lemma_required_keys(questions: Seq<QuestionView>, key: Seq<char>)
    ensures
        required_keys(questions).contains(key) <==> exists|i: int|
            0 <= i < questions.len() && (#[trigger] questions[i]).required() && decimal(
                questions[i].id(),
            ) == key,
    decreases questions.len(),
{
    if questions.len() == 0 {
        reveal(Seq::filter);
        assert(required_keys(questions).len() == 0);
    } else {
        let front = questions.drop_last();
        let q = questions.last();
        lemma_required_keys(front, key);
        assert(front.push(q) == questions);
        lemma_required_keys_push(front, q);
        let here = required_keys(questions);
        let there = required_keys(front);
        if here.contains(key) {
            let k = choose|k: int| 0 <= k < here.len() && here[k] == key;
            if q.required() && k == there.len() {
                assert(questions[questions.len() - 1].required());
            } else {
                assert(there[k] == key);
                assert(there.contains(key));
                let i = choose|i: int|
                    0 <= i < front.len() && (#[trigger] front[i]).required() && decimal(
                        front[i].id(),
                    ) == key;
                assert(questions[i] == front[i]);
            }
        }
        if exists|i: int|
            0 <= i < questions.len() && (#[trigger] questions[i]).required() && decimal(
                questions[i].id(),
            ) == key {
            let i = choose|i: int|
                0 <= i < questions.len() && (#[trigger] questions[i]).required() && decimal(
                    questions[i].id(),
                ) == key;
            if i < front.len() {
                assert(front[i] == questions[i]);
                assert(there.contains(key));
                let k = choose|k: int| 0 <= k < there.len() && there[k] == key;
                assert(here[k] == key);
            } else {
                assert(here[there.len() as int] == key);
            }
        }
    }
}

/// How many lists deep the answers to a question are nested.
pub open spec fn nesting(q: QuestionView) -> nat
    decreases q,
{
    match q {
        QuestionView::ArrayOf(a) => 1 + nesting(a.question),
        _ => 0,
    }
}

/// The question `layers` lists down from a question.
pub open spec fn question_below(q: QuestionView, layers: nat) -> QuestionView
    decreases layers,
{
    if layers == 0 {
        q
    } else {
        match q {
            QuestionView::ArrayOf(a) => question_below(a.question, (layers - 1) as nat),
            _ => q,
        }
    }
}

/// How many array schemas a node is wrapped in.
pub open spec fn array_depth(node: NodeView) -> nat
    decreases node,
{
    match node {
        NodeView::Array(a) => 1 + array_depth(*a.items),
        _ => 0,
    }
}

/// The schema of the elements `layers` arrays down from a node.
pub open spec fn node_below(node: NodeView, layers: nat) -> NodeView
    decreases layers,
{
    if layers == 0 {
        node
    } else {
        match node {
            NodeView::Array(a) => node_below(*a.items, (layers - 1) as nat),
            _ => node,
        }
    }
}

/// A question nested in lists compiles to as many array schemas as there are
/// lists, and at each layer stands the schema of the question at that layer.
pub proof fn lemma_nesting_is_kept(q: QuestionView, layers: nat)
    ensures
        array_depth(compile_question(q)) == nesting(q),
        layers <= nesting(q) ==> node_below(compile_question(q), layers) == compile_question(
            question_below(q, layers),
        ),
        layers < nesting(q) ==> node_below(compile_question(q), layers) is Array,
        !(node_below(compile_question(q), nesting(q)) is Array),
    decreases q,
{
    match q {
        QuestionView::ArrayOf(a) => {
            lemma_nesting_is_kept(a.question, nesting(a.question));
            if layers > 0 {
                lemma_nesting_is_kept(a.question, (layers - 1) as nat);
            }
        },
        _ => {},
    }
}

/// Compiling is a function of the questionnaire's view: two runs on one
/// questionnaire give documents with one view.
pub proof fn lemma_compile_deterministic(
    first: QuestionList,
    second: QuestionList,
    one: ObjectNode,
    other: ObjectNode,
)
    requires
        first@ == second@,
        call_ensures(<ObjectNode as From<QuestionList>>::from, (first,), one),
        call_ensures(<ObjectNode as From<QuestionList>>::from, (second,), other),
    ensures
        one@ == other@,
{
}

/// What `from` gives is stated by its own contract, over views.
impl vstd::std_specs::convert::FromSpecImpl<QuestionList> for ObjectNode {
    open spec fn obeys_from_spec() -> bool {
        false
    }

    open spec fn from_spec(question_list: QuestionList) -> ObjectNode {
        arbitrary()
    }
}

impl From<QuestionList> for ObjectNode {
    /// Compiles a questionnaire into its schema document.
    fn from(question_list: QuestionList) -> (node: ObjectNode)
        ensures
            node@ == compile_list(question_list@),
            node@.well_formed(),
    {
        proof {
            lemma_collect_distinct(property_pairs(question_list@.questions));
        }
        let ghost all = question_list@.questions;
        let QuestionList { title, description, questions } = question_list;
        let mut req: Vec<String> = Vec::new();
        let mut props: Vec<(String, Node)> = Vec::new();
        for q in it: questions
            invariant
                it.seq() == questions@,
                all == Seq::new(questions@.len(), |i: int| questions@[i]@),
                texts_of(req) == required_keys(all.take(it.index() as int)),
                keyed(props@) == collect(property_pairs(all.take(it.index() as int))),
        {
            proof {
                let k = it.index() as int;
                assert(all.take(k + 1) == all.take(k).push(q@));
                lemma_required_keys_push(all.take(k), q@);
                let pairs = property_pairs(all.take(k + 1));
                assert(pairs.drop_last() == property_pairs(all.take(k)));
                assert(pairs.last() == (decimal(q@.id()), compile_question(q@)));
            }
            let id = q.get_id();
            if q.is_required() {
                let ghost before = texts_of(req);
                req.push(decimal_string(id));
                assert(texts_of(req) == before.push(decimal(id as int)));
            }
            let node = Node::from(q);
            put(&mut props, decimal_string(id), node);
        }
        proof {
            assert(all.take(all.len() as int) == all);
        }
        ObjectNode {
            title,
            description,
            properties: props,
            additional_properties: false,
            required: req,
        }
    }
}

impl Clone for IntegerNode {
    fn clone(&self) -> (copy: Self)
        ensures
            copy@ == self@,
    {
        IntegerNode {
            title: self.title.clone(),
            description: self.description.clone(),
            default: self.default,
            multiple_of: self.multiple_of,
            minimum: self.minimum,
            maximum: self.maximum,
        }
    }
}

impl Clone for StringNode {
    fn clone(&self) -> (copy: Self)
        ensures
            copy@ == self@,
    {
        StringNode {
            title: self.title.clone(),
            description: self.description.clone(),
            default: clone_optional_text(&self.default),
            min_length: self.min_length,
            max_length: self.max_length,
        }
    }
}

impl Clone for BooleanNode {
    fn clone(&self) -> (copy: Self)
        ensures
            copy@ == self@,
    {
        BooleanNode {
            title: self.title.clone(),
            description: self.description.clone(),
            default: self.default,
        }
    }
}

impl Clone for FixedListNode {
    fn clone(&self) -> (copy: Self)
        ensures
            copy@ == self@,
    {
        FixedListNode {
            title: self.title.clone(),
            description: self.description.clone(),
            default: clone_texts(&self.default),
            items: clone_texts(&self.items),
            item_names: clone_texts(&self.item_names),
        }
    }
}

/// A copy of a node.
fn clone_node(node: &Node) -> (copy: Node)
    ensures
        copy@ == node@,
    decreases node,
{
    match node {
        Node::Integer(n) => Node::Integer(n.clone()),
        Node::String(n) => Node::String(n.clone()),
        Node::Boolean(n) => Node::Boolean(n.clone()),
        Node::FixedList(n) => Node::FixedList(n.clone()),
        Node::Object(n) => {
            let copy = Node::Object(
                ObjectNode {
                    title: n.title.clone(),
                    description: n.description.clone(),
                    properties: clone_properties(&n.properties),
                    additional_properties: n.additional_properties,
                    required: clone_texts(&n.required),
                },
            );
            proof {
                lemma_view_of_wrapped(copy);
                lemma_view_of_wrapped(*node);
            }
            copy
        },
        Node::Array(n) => Node::Array(
            ArrayNode {
                title: n.title.clone(),
                description: n.description.clone(),
                items: Box::new(clone_node(&n.items)),
            },
        ),
    }
}

/// A copy of the properties of a document.
fn clone_properties(properties: &Vec<(String, Node)>) -> (copy: Vec<(String, Node)>)
    ensures
        keyed(copy@) == keyed(properties@),
    decreases properties,
{
    let mut copy: Vec<(String, Node)> = Vec::new();
    let mut i: usize = 0;
    while i < properties.len()
        invariant
            i <= properties@.len(),
            copy@.len() == i,
            keyed(copy@) == keyed(properties@.take(i as int)),
        decreases properties@.len() - i,
    {
        let ghost before = keyed(copy@);
        let key = properties[i].0.clone();
        let node = clone_node(&properties[i].1);
        copy.push((key, node));
        proof {
            let here = keyed(copy@);
            let there = keyed(properties@.take(i + 1));
            assert(here.len() == there.len());
            assert forall|j: int| 0 <= j < here.len() implies here[j] == there[j] by {
                if j < i {
                    assert(here[j] == before[j]);
                    assert(before[j] == keyed(properties@.take(i as int))[j]);
                }
            }
            assert(here =~= there);
        }
        i = i + 1;
    }
    assert(properties@.take(properties@.len() as int) == properties@);
    copy
}

impl Clone for Node {
    fn clone(&self) -> (copy: Self)
        ensures
            copy@ == self@,
    {
        clone_node(self)
    }
}

impl Clone for ObjectNode {
    fn clone(&self) -> (copy: Self)
        ensures
            copy@ == self@,
    {
        ObjectNode {
            title: self.title.clone(),
            description: self.description.clone(),
            properties: clone_properties(&self.properties),
            additional_properties: self.additional_properties,
            required: clone_texts(&self.required),
        }
    }
}

impl Clone for ArrayNode {
    fn clone(&self) -> (copy: Self)
        ensures
            copy@ == self@,
    {
        ArrayNode {
            title: self.title.clone(),
            description: self.description.clone(),
            items: Box::new(clone_node(&self.items)),
        }
    }
}

} // verus!
