//! The text printed for the outcome of a load: the record's debug form, or
//! the failure's message followed by its cause.
use crate::record::{outcome, ClusterMap, FailureModel, LoadError, RecordModel, read_context};
use crate::text::{decimal, decimal_text};
use vstd::prelude::*;

verus! {

/// The text that `str`'s `Debug` writes for a string: quoted and escaped.
pub uninterp spec fn debug_str_of(s: Seq<char>) -> Seq<char>;

/// Relies on `str`'s `Debug` implementation (through `format!`), whose text
/// depends on the characters of the string alone.
#[verifier::external_body]
fn debug_str(s: &str) -> (r: String)
    ensures
        r@ == debug_str_of(s@),
{
    format!("{:?}", s)
}

/// The debug form of a record.
pub open spec fn record_text(m: RecordModel) -> Seq<char> {
    "ClusterMap { name: "@ + debug_str_of(m.name) + ", group: "@ + decimal(m.group as int) + " }"@
}

/// The description of a failure: its message, then the cause it wraps.
pub open spec fn failure_text(f: FailureModel) -> Seq<char> {
    match f {
        FailureModel::Read(cause) => read_context() + "\n\nCaused by:\n    "@ + cause,
        FailureModel::Parse(message) => message,
    }
}

/// What is printed for the outcome of a load.
pub open spec fn report_text(r: Result<RecordModel, FailureModel>) -> Seq<char> {
    match r {
        Ok(m) => record_text(m),
        Err(f) => failure_text(f),
    }
}

impl ClusterMap {
    /// The debug form of the record, with both field names and values.
    pub fn render(&self) -> (r: String)
        ensures
            r@ == record_text(self@),
    {
        let mut r = String::from_str("ClusterMap { name: ");
        let name = debug_str(self.name.as_str());
        r.append(name.as_str());
        r.append(", group: ");
        let group = decimal_text(self.group as i64);
        r.append(group.as_str());
        r.append(" }");
        r
    }
}

impl LoadError {
    /// The description of the failure: its message, then the cause it wraps.
    pub fn render(&self) -> (r: String)
        ensures
            r@ == failure_text(self@),
    {
        let mut r = self.message();
        match self.cause() {
            Some(cause) => {
                r.append("\n\nCaused by:\n    ");
                r.append(cause.as_str());
            },
            None => {},
        }
        r
    }
}

/// The text printed for the outcome of a load.
pub fn report(r: &Result<ClusterMap, LoadError>) -> (t: String)
    ensures
        t@ == report_text(outcome(*r)),
{
    match r {
        Ok(c) => c.render(),
        Err(e) => e.render(),
    }
}

} // verus!
