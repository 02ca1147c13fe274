//! Answers held against a schema document.
//!
//! Reading JSON is left to `serde_json` and the judgement to `jsonschema`,
//! under the rules of JSON Schema Draft 7. What they return is named, not
//! defined; what is proved here is what is handed to them and what is made
//! of their results.

use vstd::prelude::*;
use vstd::string::{StrSliceExecFns, StringExecFns, StringSliceAdditionalSpecFns};
use vstd::utf8::encode_utf8;
use crate::qna::questiondto::ObjectNode;
use crate::qna::schema_json::object_json;
use crate::qna::text::texts_of;

verus! {

/// `serde_json::Value`, a JSON value as it was read. It is carried from the
/// reader to the validator and never looked into.
#[verifier::external_type_specification]
#[verifier::external_body]
pub struct ExJsonValue(serde_json::Value);

/// `serde_json::Error`, the reason why bytes were not read as JSON. It is
/// dropped.
#[verifier::external_type_specification]
#[verifier::external_body]
pub struct ExJsonError(serde_json::Error);

/// Whether `serde_json` reads the bytes as one JSON value.
pub uninterp spec fn json_well_formed(text: Seq<u8>) -> bool;

/// `serde_json::from_slice`, read as a `serde_json::Value`: it succeeds on
/// exactly the bytes that are well-formed JSON. Nothing is claimed of the
/// value.
#[verifier::external_body]
fn parse_json(text: &[u8]) -> (parsed: Result<serde_json::Value, serde_json::Error>)
    ensures
        parsed.is_ok() == json_well_formed(text@),
{
    serde_json::from_slice::<serde_json::Value>(text)
}

/// One violation as `jsonschema` reports it: where in the candidate it lies,
/// as a JSON pointer that is empty for the candidate itself, and what is
/// wrong there.
#[derive(Debug, Clone, PartialEq)]
pub struct Finding {
    pub path: String,
    pub message: String,
}

/// What a `Finding` holds, as mathematical values.
pub ghost struct FindingView {
    pub path: Seq<char>,
    pub message: Seq<char>,
}

impl View for Finding {
    type V = FindingView;

    open spec fn view(&self) -> FindingView {
        FindingView { path: self.path@, message: self.message@ }
    }
}

/// What `jsonschema` reports on a candidate held against a schema under
/// Draft 7, both given as JSON text: its findings in the order in which it
/// gives them, or `None` where it refuses the schema. The report depends on
/// the two texts alone.
pub uninterp spec fn draft7_report(schema: Seq<u8>, candidate: Seq<u8>) -> Option<
    Seq<FindingView>,
>;

/// `serde_json::from_slice` on each of the two texts, `jsonschema::draft7::new`
/// on the schema read and, where it accepts the schema,
/// `Validator::iter_errors` on the candidate read, each error as its
/// `instance_path` and its message. `None` says that the schema was refused.
/// The result is the report on the two texts.
#[verifier::external_body]
fn draft7_findings(schema: &[u8], candidate: &[u8]) -> (report: Option<Vec<Finding>>)
    requires
        json_well_formed(schema@),
        json_well_formed(candidate@),
    ensures
        report_view(report) == draft7_report(schema@, candidate@),
{
    let schema: serde_json::Value = serde_json::from_slice(schema).ok()?;
    let candidate: serde_json::Value = serde_json::from_slice(candidate).ok()?;
    let validator = jsonschema::draft7::new(&schema).ok()?;
    Some(
        validator.iter_errors(&candidate).map(
            |e| Finding { path: e.instance_path().as_str().to_string(), message: e.to_string() },
        ).collect(),
    )
}

/// How a candidate answer fared.
#[derive(Debug, Clone, PartialEq)]
pub enum Validation {
    /// The candidate follows the schema.
    Conformant,
    /// The candidate breaks the schema: one message for each violation.
    Violations(Vec<String>),
    /// The candidate is not JSON.
    Malformed,
    /// The schema document is none that can be validated against.
    SchemaRejected,
}

/// What a `Validation` holds, as mathematical values.
pub ghost enum ValidationView {
    Conformant,
    Violations(Seq<Seq<char>>),
    Malformed,
    SchemaRejected,
}

impl View for Validation {
    type V = ValidationView;

    open spec fn view(&self) -> ValidationView {
        match self {
            Validation::Conformant => ValidationView::Conformant,
            Validation::Violations(messages) => ValidationView::Violations(texts_of(*messages)),
            Validation::Malformed => ValidationView::Malformed,
            Validation::SchemaRejected => ValidationView::SchemaRejected,
        }
    }
}

/// The message for a finding: what is wrong, after the place where it is
/// wrong unless that is the candidate itself.
pub open spec fn described(finding: FindingView) -> Seq<char> {
    if finding.path.len() == 0 {
        finding.message
    } else {
        finding.path + ": "@ + finding.message
    }
}

/// The messages for findings, one for one and in order.
pub open spec fn described_all(findings: Seq<FindingView>) -> Seq<Seq<char>> {
    Seq::new(findings.len(), |i: int| described(findings[i]))
}

/// What a report on a well-formed candidate means: no report, the schema was
/// refused; no finding, the candidate conforms; else it is in violation, with
/// a message for every finding, in order.
pub open spec fn verdict(report: Option<Seq<FindingView>>) -> ValidationView {
    match report {
        None => ValidationView::SchemaRejected,
        Some(findings) => if findings.len() == 0 {
            ValidationView::Conformant
        } else {
            ValidationView::Violations(described_all(findings))
        },
    }
}

/// A report as its findings by their views.
pub open spec fn report_view(report: Option<Vec<Finding>>) -> Option<Seq<FindingView>> {
    match report {
        Some(findings) => Some(Seq::new(findings@.len(), |i: int| findings@[i]@)),
        None => None,
    }
}

/// The message for a finding.
pub fn describe(finding: &Finding) -> (message: String)
    ensures
        message@ == described(finding@),
{
    if finding.path.as_str().unicode_len() == 0 {
        finding.message.clone()
    } else {
        let mut message = finding.path.clone();
        message.append(": ");
        message.append(finding.message.as_str());
        message
    }
}

/// Classifies the report on a well-formed candidate.
pub fn classify(report: Option<Vec<Finding>>) -> (outcome: Validation)
    ensures
        outcome@ == verdict(report_view(report)),
{
    match report {
        None => Validation::SchemaRejected,
        Some(findings) => {
            if findings.len() == 0 {
                Validation::Conformant
            } else {
                let ghost views = Seq::new(findings@.len(), |i: int| findings@[i]@);
                let mut messages: Vec<String> = Vec::new();
                let mut i: usize = 0;
                while i < findings.len()
                    invariant
                        i <= findings@.len(),
                        views == Seq::new(findings@.len(), |i: int| findings@[i]@),
                        texts_of(messages) == described_all(views.take(i as int)),
                    decreases findings@.len() - i,
                {
                    let ghost before = texts_of(messages);
                    messages.push(describe(&findings[i]));
                    assert(texts_of(messages) =~= before.push(described(views[i as int])));
                    assert(texts_of(messages) =~= described_all(views.take(i + 1)));
                    i = i + 1;
                }
                assert(views.take(findings@.len() as int) == views);
                Validation::Violations(messages)
            }
        },
    }
}

/// How a candidate fares against a schema, both given as text: malformed
/// where the candidate is not JSON; else rejected where the schema is not
/// JSON; else what the report on the two means.
pub open spec fn validation_of(schema: Seq<u8>, candidate: Seq<u8>) -> ValidationView {
    if !json_well_formed(candidate) {
        ValidationView::Malformed
    } else if !json_well_formed(schema) {
        ValidationView::SchemaRejected
    } else {
        verdict(draft7_report(schema, candidate))
    }
}

/// Whether an outcome is one that validating the candidate may have: it is
/// the malformed one exactly if the candidate is not JSON, and a violation
/// comes with a message.
pub open spec fn may_come_of(outcome: ValidationView, candidate: Seq<u8>) -> bool {
    &&& outcome is Malformed <==> !json_well_formed(candidate)
    &&& outcome matches ValidationView::Violations(messages) ==> messages.len() > 0
}

/// Whatever the schema, a candidate that is not JSON is malformed and never
/// in violation, and a candidate in violation comes with a message.
pub proof fn lemma_validation_may_come(schema: Seq<u8>, candidate: Seq<u8>)
    ensures
        may_come_of(validation_of(schema, candidate), candidate),
{
}

/// Holds a candidate answer, given as bytes, against a schema document.
///
/// A candidate that is not JSON is reported as malformed and never as a set
/// of violations. Any other candidate is held against the document's JSON
/// text under Draft 7, and every violation found is reported, in the order
/// in which it was found.
pub fn validate(schema: &ObjectNode, candidate: &[u8]) -> (outcome: Validation)
    ensures
        outcome@ == validation_of(encode_utf8(object_json(schema@)), candidate@),
        may_come_of(outcome@, candidate@),
{
    match parse_json(candidate) {
        Err(_) => Validation::Malformed,
        Ok(_) => {
            let text = schema.to_json();
            let document = text.as_str().as_bytes();
            match parse_json(document) {
                Err(_) => Validation::SchemaRejected,
                Ok(_) => classify(draft7_findings(document, candidate)),
            }
        },
    }
}

} // verus!
