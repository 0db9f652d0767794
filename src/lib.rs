//! Loading of a cluster record (a name and a group number) from a JSON
//! document, and the text reported for the outcome.

pub mod json;
pub mod laws;
pub mod record;
pub mod report;
pub mod text;
