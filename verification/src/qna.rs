//! The question model and what is derived from it.

pub mod questionlist;
pub mod questiondto;
pub mod answerdto;
pub mod text;
pub mod entries;
pub mod schema_json;
pub mod validator;
