//! Properties of loading and reporting that hold for every document.
use crate::json::{parsed_object, FieldValue};
use crate::record::{
    cluster_outcome, missing_field, outcome, read_context, ClusterMap, FailureModel, LoadError,
    RecordModel,
};
use crate::report::{debug_str_of, report_text};
use crate::text::decimal;
use vstd::prelude::*;

verus! {

/// `needle` occurs in `hay` as a contiguous run.
pub open spec fn occurs_in(needle: Seq<char>, hay: Seq<char>) -> bool {
    exists|i: int| 0 <= i <= hay.len() - needle.len() && #[trigger] hay.subrange(i, i + needle.len()) == needle
}

/// A document that parses to an object with a string `name` and an `i32`
/// `group` loads to exactly that record, and the printed text holds the name
/// (in its debug form) and the group's decimal value.
pub proof fn lemma_round_trip(text: Seq<char>, fields: Map<Seq<char>, FieldValue>, name: String, group: i32)
    requires
        parsed_object(text) == Ok::<Map<Seq<char>, FieldValue>, Seq<char>>(fields),
        fields.contains_key("name"@),
        fields["name"@] == FieldValue::Str(name),
        fields.contains_key("group"@),
        fields["group"@] == FieldValue::Number(Some(group as i64)),
    ensures
        cluster_outcome(Ok(text)) == Ok::<RecordModel, FailureModel>(RecordModel { name: name@, group }),
        occurs_in(debug_str_of(name@), report_text(cluster_outcome(Ok(text)))),
        occurs_in(decimal(group as int), report_text(cluster_outcome(Ok(text)))),
{
    reveal_strlit("ClusterMap { name: ");
    reveal_strlit(", group: ");
    let t = report_text(cluster_outcome(Ok(text)));
    let d = debug_str_of(name@);
    let g = decimal(group as int);
    let head = "ClusterMap { name: "@;
    let mid = ", group: "@;
    assert(t == head + d + mid + g + " }"@);
    let i = head.len() as int;
    assert(t.subrange(i, i + d.len()) =~= d);
    let j = i + d.len() + mid.len();
    assert(t.subrange(j, j + g.len()) =~= g);
}

/// A configuration that cannot be read is reported as a read failure: the
/// printed text starts with the fixed read message and ends with the cause.
pub proof fn lemma_read_failure_reported(cause: Seq<char>)
    ensures
        cluster_outcome(Err(cause)) == Err::<RecordModel, FailureModel>(FailureModel::Read(cause)),
        report_text(cluster_outcome(Err(cause))).take(read_context().len() as int) == read_context(),
        report_text(cluster_outcome(Err(cause))).skip(
            report_text(cluster_outcome(Err(cause))).len() - cause.len(),
        ) == cause,
{
    let t = report_text(cluster_outcome(Err(cause)));
    assert(t.take(read_context().len() as int) =~= read_context());
    assert(t.skip(t.len() - cause.len()) =~= cause);
}

/// A text that the JSON parser rejects is reported as a parse failure whose
/// printed text is the parser's own description.
pub proof fn lemma_parse_failure_reported(text: Seq<char>, message: Seq<char>)
    requires
        parsed_object(text) == Err::<Map<Seq<char>, FieldValue>, Seq<char>>(message),
    ensures
        cluster_outcome(Ok(text)) == Err::<RecordModel, FailureModel>(FailureModel::Parse(message)),
        report_text(cluster_outcome(Ok(text))) == message,
{
}

/// A JSON object without a `group` field fails to load with a parse failure.
pub proof fn lemma_missing_group_fails(text: Seq<char>, fields: Map<Seq<char>, FieldValue>)
    requires
        parsed_object(text) == Ok::<Map<Seq<char>, FieldValue>, Seq<char>>(fields),
        !fields.contains_key("group"@),
    ensures
        cluster_outcome(Ok(text)) matches Err(FailureModel::Parse(_)),
        fields.contains_key("name"@) && fields["name"@] is Str ==> cluster_outcome(Ok(text))
            == Err::<RecordModel, FailureModel>(FailureModel::Parse(missing_field("group"@))),
{
}

/// A JSON object whose `group` is not an integer fails to load with a parse
/// failure.
pub proof fn lemma_non_integer_group_fails(text: Seq<char>, fields: Map<Seq<char>, FieldValue>)
    requires
        parsed_object(text) == Ok::<Map<Seq<char>, FieldValue>, Seq<char>>(fields),
        fields.contains_key("group"@),
        !(fields["group"@] matches FieldValue::Number(Some(_))),
    ensures
        cluster_outcome(Ok(text)) matches Err(FailureModel::Parse(_)),
{
}

/// Two loads of the same configuration print the same text: nothing but the
/// read outcome decides what is printed.
pub proof fn lemma_same_read_same_report(
    read: Result<Seq<char>, Seq<char>>,
    first: Result<ClusterMap, LoadError>,
    second: Result<ClusterMap, LoadError>,
)
    requires
        outcome(first) == cluster_outcome(read),
        outcome(second) == cluster_outcome(read),
    ensures
        report_text(outcome(first)) == report_text(outcome(second)),
{
}

} // verus!
