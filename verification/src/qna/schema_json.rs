//! A schema document as JSON text: an object per node, discriminated by its
//! `type`, with an optional member left out where it has no value.

use vstd::prelude::*;
use vstd::string::StringExecFns;
use crate::qna::questiondto::{
    lemma_view_of_wrapped, BooleanNode, BooleanNodeView, FixedListNode, FixedListNodeView,
    IntegerNode, IntegerNodeView, Node, NodeView, ObjectNode, ObjectNodeView, StringNode,
    StringNodeView,
};
use crate::qna::entries::keyed;
use crate::qna::text::{int_of, texts_of};
use crate::qna::text::{
    decimal, push_decimal, push_quoted, push_string_array, quoted, string_array,
};

verus! {

/// The title and the description that every node has, as members.
pub open spec fn heading_json(title: Seq<char>, description: Seq<char>) -> Seq<char> {
    ",\"title\":"@ + quoted(title) + ",\"description\":"@ + quoted(description)
}

/// A member that holds a number, where there is one; `label` is its name as
/// written, up to the colon.
pub open spec fn optional_number_json(label: Seq<char>, value: Option<int>) -> Seq<char> {
    match value {
        Some(i) => label + decimal(i),
        None => Seq::empty(),
    }
}

/// A member that holds a text, where there is one.
pub open spec fn optional_text_json(label: Seq<char>, value: Option<Seq<char>>) -> Seq<char> {
    match value {
        Some(s) => label + quoted(s),
        None => Seq::empty(),
    }
}

/// A truth value as JSON.
pub open spec fn truth_json(value: bool) -> Seq<char> {
    if value {
        "true"@
    } else {
        "false"@
    }
}

/// A member that holds a truth value, where there is one.
pub open spec fn optional_truth_json(label: Seq<char>, value: Option<bool>) -> Seq<char> {
    match value {
        Some(b) => label + truth_json(b),
        None => Seq::empty(),
    }
}

/// The schema of a whole number as JSON.
pub open spec fn integer_json(n: IntegerNodeView) -> Seq<char> {
    "{\"type\":\"integer\""@ + heading_json(n.title, n.description) + optional_number_json(
        ",\"default\":"@,
        n.default,
    ) + optional_number_json(",\"multipleOf\":"@, n.multiple_of) + optional_number_json(
        ",\"minimum\":"@,
        n.minimum,
    ) + optional_number_json(",\"maximum\":"@, n.maximum) + "}"@
}

/// The schema of a text as JSON.
pub open spec fn string_json(n: StringNodeView) -> Seq<char> {
    "{\"type\":\"string\""@ + heading_json(n.title, n.description) + optional_text_json(
        ",\"default\":"@,
        n.default,
    ) + optional_number_json(",\"minLength\":"@, n.min_length) + optional_number_json(
        ",\"maxLength\":"@,
        n.max_length,
    ) + "}"@
}

/// The schema of a truth value as JSON.
pub open spec fn boolean_json(n: BooleanNodeView) -> Seq<char> {
    "{\"type\":\"boolean\""@ + heading_json(n.title, n.description) + optional_truth_json(
        ",\"default\":"@,
        n.default,
    ) + "}"@
}

/// The schema of a text out of a fixed list as JSON.
pub open spec fn fixed_list_json(n: FixedListNodeView) -> Seq<char> {
    "{\"type\":\"string\""@ + heading_json(n.title, n.description) + ",\"default\":"@
        + string_array(n.default) + ",\"enum\":"@ + string_array(n.items) + ",\"enumNames\":"@
        + string_array(n.item_names) + "}"@
}

/// A node as JSON.
pub open spec fn node_json(node: NodeView) -> Seq<char>
    decreases node, 0nat,
{
    match node {
        NodeView::Integer(n) => integer_json(n),
        NodeView::String(n) => string_json(n),
        NodeView::Boolean(n) => boolean_json(n),
        NodeView::FixedList(n) => fixed_list_json(n),
        NodeView::Object(n) => "{\"type\":\"object\""@ + heading_json(n.title, n.description)
            + ",\"properties\":{"@ + members_json(n.properties, n.properties.len())
            + "},\"additionalProperties\":"@ + truth_json(n.additional_properties)
            + ",\"required\":"@ + string_array(n.required) + "}"@,
        NodeView::Array(n) => "{\"type\":\"array\""@ + heading_json(n.title, n.description)
            + ",\"items\":"@ + node_json(*n.items) + "}"@,
    }
}

/// The first `count` properties as the members of a JSON object, a comma
/// between each two.
pub open spec fn members_json(properties: Seq<(Seq<char>, NodeView)>, count: nat) -> Seq<char>
    decreases properties, count,
{
    if count == 0 || count > properties.len() {
        Seq::empty()
    } else if count == 1 {
        quoted(properties[0].0) + ":"@ + node_json(properties[0].1)
    } else {
        members_json(properties, (count - 1) as nat) + ","@ + quoted(properties[count - 1].0) + ":"@
            + node_json(properties[count - 1].1)
    }
}

/// A schema document as JSON.
pub open spec fn object_json(n: ObjectNodeView) -> Seq<char> {
    node_json(NodeView::Object(n))
}

fn push_heading(out: &mut String, title: &String, description: &String)
    ensures
        final(out)@ == old(out)@ + heading_json(title@, description@),
{
    out.append(",\"title\":");
    push_quoted(out, title.as_str());
    out.append(",\"description\":");
    push_quoted(out, description.as_str());
    assert(out@ =~= old(out)@ + heading_json(title@, description@));
}

fn push_optional_number(out: &mut String, label: &str, value: Option<i32>)
    ensures
        final(out)@ == old(out)@ + optional_number_json(label@, int_of(value)),
{
    match value {
        Some(i) => {
            out.append(label);
            push_decimal(out, i);
            assert(out@ =~= old(out)@ + optional_number_json(label@, int_of(value)));
        },
        None => {
            assert(out@ =~= old(out)@ + optional_number_json(label@, int_of(value)));
        },
    }
}

fn push_truth(out: &mut String, value: bool)
    ensures
        final(out)@ == old(out)@ + truth_json(value),
{
    if value {
        out.append("true");
    } else {
        out.append("false");
    }
}

fn push_integer(out: &mut String, n: &IntegerNode)
    ensures
        final(out)@ == old(out)@ + integer_json(n@),
{
    out.append("{\"type\":\"integer\"");
    push_heading(out, &n.title, &n.description);
    push_optional_number(out, ",\"default\":", n.default);
    push_optional_number(out, ",\"multipleOf\":", n.multiple_of);
    push_optional_number(out, ",\"minimum\":", n.minimum);
    push_optional_number(out, ",\"maximum\":", n.maximum);
    out.append("}");
    assert(out@ =~= old(out)@ + integer_json(n@));
}

fn push_string(out: &mut String, n: &StringNode)
    ensures
        final(out)@ == old(out)@ + string_json(n@),
{
    out.append("{\"type\":\"string\"");
    push_heading(out, &n.title, &n.description);
    match &n.default {
        Some(s) => {
            out.append(",\"default\":");
            push_quoted(out, s.as_str());
        },
        None => {},
    }
    push_optional_number(out, ",\"minLength\":", n.min_length);
    push_optional_number(out, ",\"maxLength\":", n.max_length);
    out.append("}");
    assert(out@ =~= old(out)@ + string_json(n@));
}

fn push_boolean(out: &mut String, n: &BooleanNode)
    ensures
        final(out)@ == old(out)@ + boolean_json(n@),
{
    out.append("{\"type\":\"boolean\"");
    push_heading(out, &n.title, &n.description);
    match n.default {
        Some(b) => {
            out.append(",\"default\":");
            push_truth(out, b);
        },
        None => {},
    }
    out.append("}");
    assert(out@ =~= old(out)@ + boolean_json(n@));
}

fn push_fixed_list(out: &mut String, n: &FixedListNode)
    ensures
        final(out)@ == old(out)@ + fixed_list_json(n@),
{
    out.append("{\"type\":\"string\"");
    push_heading(out, &n.title, &n.description);
    out.append(",\"default\":");
    push_string_array(out, &n.default);
    out.append(",\"enum\":");
    push_string_array(out, &n.items);
    out.append(",\"enumNames\":");
    push_string_array(out, &n.item_names);
    out.append("}");
    assert(out@ =~= old(out)@ + fixed_list_json(n@));
}

/// Appends a node as JSON.
pub fn push_node(out: &mut String, node: &Node)
    ensures
        final(out)@ == old(out)@ + node_json(node@),
    decreases node,
{
    match node {
        Node::Integer(n) => push_integer(out, n),
        Node::String(n) => push_string(out, n),
        Node::Boolean(n) => push_boolean(out, n),
        Node::FixedList(n) => push_fixed_list(out, n),
        Node::Object(n) => {
            push_object(out, n);
            proof {
                lemma_view_of_wrapped(*node);
            }
        },
        Node::Array(n) => {
            out.append("{\"type\":\"array\"");
            push_heading(out, &n.title, &n.description);
            out.append(",\"items\":");
            push_node(out, &n.items);
            out.append("}");
            assert(out@ =~= old(out)@ + node_json(node@));
        },
    }
}

/// Appends a schema document as JSON.
fn push_object(out: &mut String, n: &ObjectNode)
    ensures
        final(out)@ == old(out)@ + object_json(n@),
    decreases n,
{
    out.append("{\"type\":\"object\"");
    push_heading(out, &n.title, &n.description);
    out.append(",\"properties\":{");
    push_members(out, &n.properties);
    push_object_tail(out, n);
    assert(out@ =~= old(out)@ + object_json(n@));
}

/// Appends properties as the members of a JSON object.
fn push_members(out: &mut String, properties: &Vec<(String, Node)>)
    ensures
        final(out)@ == old(out)@ + members_json(keyed(properties@), properties@.len()),
    decreases properties,
{
    let ghost all = keyed(properties@);
    let mut i: usize = 0;
    assert(out@ =~= old(out)@ + members_json(all, 0));
    while i < properties.len()
        invariant
            i <= properties@.len(),
            all == keyed(properties@),
            out@ == old(out)@ + members_json(all, i as nat),
        decreases properties@.len() - i,
    {
        let ghost before = out@;
        if i > 0 {
            out.append(",");
        }
        push_quoted(out, properties[i].0.as_str());
        out.append(":");
        push_node(out, &properties[i].1);
        proof {
            let member = quoted(all[i as int].0) + ":"@ + node_json(all[i as int].1);
            if i > 0 {
                assert(out@ =~= before + ","@ + member);
                assert(members_json(all, (i + 1) as nat) =~= members_json(all, i as nat) + ","@
                    + member);
            } else {
                assert(out@ =~= before + member);
                assert(members_json(all, 0) =~= Seq::<char>::empty());
            }
            assert(out@ =~= old(out)@ + members_json(all, (i + 1) as nat));
        }
        i = i + 1;
    }
}

/// Appends what closes a schema document after its properties.
fn push_object_tail(out: &mut String, n: &ObjectNode)
    ensures
        final(out)@ == old(out)@ + "},\"additionalProperties\":"@ + truth_json(
            n.additional_properties,
        ) + ",\"required\":"@ + string_array(texts_of(n.required)) + "}"@,
{
    out.append("},\"additionalProperties\":");
    push_truth(out, n.additional_properties);
    out.append(",\"required\":");
    push_string_array(out, &n.required);
    out.append("}");
}

impl Node {
    /// The node as JSON text.
    pub fn to_json(&self) -> (text: String)
        ensures
            text@ == node_json(self@),
    {
        let mut out = String::new();
        push_node(&mut out, self);
        assert(out@ =~= node_json(self@));
        out
    }
}

impl ObjectNode {
    /// The schema document as JSON text.
    pub fn to_json(&self) -> (text: String)
        ensures
            text@ == object_json(self@),
    {
        let mut out = String::new();
        push_object(&mut out, self);
        assert(out@ =~= object_json(self@));
        out
    }
}

} // verus!
