//! A reduced schema document: texts, truth values and objects of them, with
//! descriptions that may be missing.

use vstd::prelude::*;
use crate::qna::text::{clone_optional_text, text_of};

verus! {

/// One node of a reduced schema document.
#[derive(Debug, PartialEq)]
pub enum Node {
    String(StringNode),
    Boolean(BooleanNode),
    Object(ObjectNode),
}

/// The schema of an object: what each of its properties holds, under the
/// property's name.
#[derive(Debug, PartialEq)]
pub struct ObjectNode {
    pub properties: Vec<(String, Node)>,
}

/// The schema of a text.
#[derive(Debug, PartialEq)]
pub struct StringNode {
    pub title: String,
    pub description: Option<String>,
    pub default: Option<String>,
}

/// The schema of a truth value.
#[derive(Debug, PartialEq)]
pub struct BooleanNode {
    pub title: String,
    pub description: Option<String>,
    pub default: Option<bool>,
}

/// What a `Node` holds, as mathematical values.
pub ghost enum NodeView {
    String(StringNodeView),
    Boolean(BooleanNodeView),
    Object(Seq<(Seq<char>, NodeView)>),
}

/// What a `StringNode` holds, as mathematical values.
pub ghost struct StringNodeView {
    pub title: Seq<char>,
    pub description: Option<Seq<char>>,
    pub default: Option<Seq<char>>,
}

/// What a `BooleanNode` holds, as mathematical values.
pub ghost struct BooleanNodeView {
    pub title: Seq<char>,
    pub description: Option<Seq<char>>,
    pub default: Option<bool>,
}

impl View for StringNode {
    type V = StringNodeView;

    open spec fn view(&self) -> StringNodeView {
        StringNodeView {
            title: self.title@,
            description: text_of(self.description),
            default: text_of(self.default),
        }
    }
}

impl View for BooleanNode {
    type V = BooleanNodeView;

    open spec fn view(&self) -> BooleanNodeView {
        BooleanNodeView {
            title: self.title@,
            description: text_of(self.description),
            default: self.default,
        }
    }
}

/// The view of a node.
pub open spec fn node_view(node: Node) -> NodeView
    decreases node, 0nat,
{
    match node {
        Node::String(n) => NodeView::String(n@),
        Node::Boolean(n) => NodeView::Boolean(n@),
        Node::Object(n) => NodeView::Object(properties_view(n.properties@, n.properties@.len())),
    }
}

/// The views of the first `count` properties, each under its name.
pub open spec fn properties_view(properties: Seq<(String, Node)>, count: nat) -> Seq<
    (Seq<char>, NodeView),
>
    decreases properties, count,
{
    if count == 0 || count > properties.len() {
        Seq::empty()
    } else {
        properties_view(properties, (count - 1) as nat).push(
            (properties[count - 1].0@, node_view(properties[count - 1].1)),
        )
    }
}

impl View for Node {
    type V = NodeView;

    open spec fn view(&self) -> NodeView {
        node_view(*self)
    }
}

impl View for ObjectNode {
    type V = Seq<(Seq<char>, NodeView)>;

    open spec fn view(&self) -> Seq<(Seq<char>, NodeView)> {
        properties_view(self.properties@, self.properties@.len())
    }
}

impl Clone for StringNode {
    fn clone(&self) -> (copy: Self)
        ensures
            copy@ == self@,
    {
        StringNode {
            title: self.title.clone(),
            description: clone_optional_text(&self.description),
            default: clone_optional_text(&self.default),
        }
    }
}

impl Clone for BooleanNode {
    fn clone(&self) -> (copy: Self)
        ensures
            copy@ == self@,
    {
        BooleanNode {
            title: self.title.clone(),
            description: clone_optional_text(&self.description),
            default: self.default,
        }
    }
}

/// A copy of a node.
fn clone_node(node: &Node) -> (copy: Node)
    ensures
        copy@ == node@,
    decreases node,
{
    match node {
        Node::String(n) => Node::String(n.clone()),
        Node::Boolean(n) => Node::Boolean(n.clone()),
        Node::Object(n) => Node::Object(ObjectNode { properties: clone_properties(&n.properties) }),
    }
}

/// A copy of the properties of an object.
fn clone_properties(properties: &Vec<(String, Node)>) -> (copy: Vec<(String, Node)>)
    ensures
        copy@.len() == properties@.len(),
        properties_view(copy@, copy@.len()) == properties_view(properties@, properties@.len()),
    decreases properties,
{
    let mut copy: Vec<(String, Node)> = Vec::new();
    let mut i: usize = 0;
    while i < properties.len()
        invariant
            i <= properties@.len(),
            copy@.len() == i,
            properties_view(copy@, i as nat) == properties_view(properties@, i as nat),
        decreases properties@.len() - i,
    {
        let ghost before = copy@;
        let key = properties[i].0.clone();
        let node = clone_node(&properties[i].1);
        copy.push((key, node));
        proof {
            lemma_properties_of_prefix(before, copy@, i as nat);
        }
        i = i + 1;
    }
    copy
}

/// The first properties have one view in two lists that begin alike.
proof fn lemma_properties_of_prefix(
    shorter: Seq<(String, Node)>,
    longer: Seq<(String, Node)>,
    count: nat,
)
    requires
        count <= shorter.len() <= longer.len(),
        forall|j: int| 0 <= j < count ==> shorter[j] == longer[j],
    ensures
        properties_view(shorter, count) == properties_view(longer, count),
    decreases count,
{
    if count > 0 {
        lemma_properties_of_prefix(shorter, longer, (count - 1) as nat);
    }
}

impl Clone for Node {
    fn clone(&self) -> (copy: Self)
        ensures
            copy@ == self@,
    {
        clone_node(self)
    }
}

impl Clone for ObjectNode {
    fn clone(&self) -> (copy: Self)
        ensures
            copy@ == self@,
    {
        ObjectNode { properties: clone_properties(&self.properties) }
    }
}

} // verus!
