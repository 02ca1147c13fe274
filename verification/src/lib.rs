//! Questionnaires, the JSON Schema documents compiled from them, and the
//! validation of submitted answers against those documents.

pub mod handler;
pub mod qna;
