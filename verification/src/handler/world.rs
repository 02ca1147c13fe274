//! The sample service: whatever is asked, it hands out the schema document
//! of the sample questionnaire.

use vstd::prelude::*;
use crate::qna::questiondto::{compile_list, lemma_view_of_wrapped, Node, NodeView, ObjectNode};
use crate::qna::questionlist::{sample_questions, sample_string_questions};
use crate::qna::schema_json::node_json;

verus! {

/// The schema document of the sample questionnaire, as a node.
pub fn build_sample() -> (node: Node)
    ensures
        node@ == NodeView::Object(compile_list(sample_questions())),
{
    let q = sample_string_questions();
    let node = Node::Object(ObjectNode::from(q));
    proof {
        lemma_view_of_wrapped(node);
    }
    node
}

/// The body of every response: the sample's schema document as JSON.
pub fn world() -> (body: String)
    ensures
        body@ == node_json(NodeView::Object(compile_list(sample_questions()))),
{
    build_sample().to_json()
}

} // verus!
