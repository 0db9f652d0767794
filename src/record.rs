//! The cluster record, the ways loading it can fail, and the mapping from a
//! JSON object's fields to the record.
use crate::json::{field_at, object_field, parse_object, parsed_object, FieldValue};
use crate::text::{decimal, decimal_text};
use vstd::prelude::*;

verus! {

/// The record a configuration document describes.
#[derive(Debug, Clone)]
pub struct ClusterMap {
    pub name: String,
    pub group: i32,
}

/// A `ClusterMap` as a value.
pub struct RecordModel {
    pub name: Seq<char>,
    pub group: i32,
}

impl View for ClusterMap {
    type V = RecordModel;

    open spec fn view(&self) -> RecordModel {
        RecordModel { name: self.name@, group: self.group }
    }
}

/// Why a configuration could not be loaded.
#[derive(Debug, Clone)]
pub enum LoadError {
    /// The document could not be read; `cause` describes the underlying error.
    Read { cause: String },
    /// The document was read but is not a JSON object of the expected shape.
    Parse { message: String },
}

/// A `LoadError` as a value.
pub enum FailureModel {
    Read(Seq<char>),
    Parse(Seq<char>),
}

impl View for LoadError {
    type V = FailureModel;

    open spec fn view(&self) -> FailureModel {
        match self {
            LoadError::Read { cause } => FailureModel::Read(cause@),
            LoadError::Parse { message } => FailureModel::Parse(message@),
        }
    }
}

/// The outcome of a load as a value.
pub open spec fn outcome(r: Result<ClusterMap, LoadError>) -> Result<RecordModel, FailureModel> {
    match r {
        Ok(c) => Ok(c@),
        Err(e) => Err(e@),
    }
}

/// The fixed message of a read failure.
pub open spec fn read_context() -> Seq<char> {
    "failed to read config file"@
}

pub open spec fn missing_field(field: Seq<char>) -> Seq<char> {
    "missing field `"@ + field + "`"@
}

pub open spec fn invalid_type(found: Seq<char>, expected: Seq<char>) -> Seq<char> {
    "invalid type: "@ + found + ", expected "@ + expected
}

pub open spec fn out_of_range(n: int) -> Seq<char> {
    "invalid value: integer `"@ + decimal(n) + "`, expected i32"@
}

/// The word that names the kind of a field value in a message.
pub open spec fn kind_word(v: FieldValue) -> Seq<char> {
    match v {
        FieldValue::Null => "null"@,
        FieldValue::Bool(_) => "boolean"@,
        FieldValue::Number(Some(_)) => "integer"@,
        FieldValue::Number(None) => "number"@,
        FieldValue::Str(_) => "string"@,
        FieldValue::Array => "sequence"@,
        FieldValue::Object => "map"@,
    }
}

/// The `name` of the record from what the document holds under `name`.
pub open spec fn name_from(v: Option<FieldValue>) -> Result<Seq<char>, Seq<char>> {
    match v {
        None => Err(missing_field("name"@)),
        Some(FieldValue::Str(s)) => Ok(s@),
        Some(k) => Err(invalid_type(kind_word(k), "a string"@)),
    }
}

/// The `group` of the record from what the document holds under `group`.
pub open spec fn group_from(v: Option<FieldValue>) -> Result<i32, Seq<char>> {
    match v {
        None => Err(missing_field("group"@)),
        Some(FieldValue::Number(Some(n))) => {
            if i32::MIN <= n <= i32::MAX {
                Ok(n as i32)
            } else {
                Err(out_of_range(n as int))
            }
        },
        Some(k) => Err(invalid_type(kind_word(k), "i32"@)),
    }
}

/// The record that two field values make, or the parse failure of the first
/// field, `name` before `group`, that does not fit.
pub open spec fn record_from(
    name: Option<FieldValue>,
    group: Option<FieldValue>,
) -> Result<RecordModel, FailureModel> {
    match name_from(name) {
        Err(m) => Err(FailureModel::Parse(m)),
        Ok(s) => match group_from(group) {
            Err(m) => Err(FailureModel::Parse(m)),
            Ok(g) => Ok(RecordModel { name: s, group: g }),
        },
    }
}

/// The outcome of loading from a parsed document: the parser's failure, or
/// the record that its `name` and `group` fields make.
pub open spec fn load_from(parsed: Result<Map<Seq<char>, FieldValue>, Seq<char>>) -> Result<
    RecordModel,
    FailureModel,
> {
    match parsed {
        Err(m) => Err(FailureModel::Parse(m)),
        Ok(fields) => record_from(field_at(fields, "name"@), field_at(fields, "group"@)),
    }
}

/// The outcome of loading a configuration whose read gave `read`: the text,
/// or a description of why it could not be read.
pub open spec fn cluster_outcome(read: Result<Seq<char>, Seq<char>>) -> Result<
    RecordModel,
    FailureModel,
> {
    match read {
        Err(cause) => Err(FailureModel::Read(cause)),
        Ok(text) => load_from(parsed_object(text)),
    }
}

impl LoadError {
    /// The message of this failure: the fixed read message, or the parser's.
    pub fn message(&self) -> (r: String)
        ensures
            r@ == match self@ {
                FailureModel::Read(_) => read_context(),
                FailureModel::Parse(m) => m,
            },
    {
        match self {
            LoadError::Read { .. } => String::from_str("failed to read config file"),
            LoadError::Parse { message } => message.clone(),
        }
    }

    /// The underlying error that this failure wraps, if any.
    pub fn cause(&self) -> (r: Option<String>)
        ensures
            match self@ {
                FailureModel::Read(c) => r matches Some(s) && s@ == c,
                FailureModel::Parse(_) => r is None,
            },
    {
        match self {
            LoadError::Read { cause } => Some(cause.clone()),
            LoadError::Parse { .. } => None,
        }
    }
}

fn missing_field_text(field: &str) -> (r: String)
    ensures
        r@ == missing_field(field@),
{
    let mut r = String::from_str("missing field `");
    r.append(field);
    r.append("`");
    r
}

fn invalid_type_text(found: &str, expected: &str) -> (r: String)
    ensures
        r@ == invalid_type(found@, expected@),
{
    let mut r = String::from_str("invalid type: ");
    r.append(found);
    r.append(", expected ");
    r.append(expected);
    r
}

fn out_of_range_text(n: i64) -> (r: String)
    ensures
        r@ == out_of_range(n as int),
{
    let mut r = String::from_str("invalid value: integer `");
    let digits = decimal_text(n);
    r.append(digits.as_str());
    r.append("`, expected i32");
    r
}

fn kind_word_text(v: &FieldValue) -> (r: &'static str)
    ensures
        r@ == kind_word(*v),
{
    match v {
        FieldValue::Null => "null",
        FieldValue::Bool(_) => "boolean",
        FieldValue::Number(Some(_)) => "integer",
        FieldValue::Number(None) => "number",
        FieldValue::Str(_) => "string",
        FieldValue::Array => "sequence",
        FieldValue::Object => "map",
    }
}

/// Builds the record from what a JSON object holds under `name` and `group`
/// (`None` where the key is absent).
pub fn record_from_fields(name: Option<FieldValue>, group: Option<FieldValue>) -> (r: Result<
    ClusterMap,
    LoadError,
>)
    ensures
        outcome(r) == record_from(name, group),
{
    let name_text = match name {
        None => {
            return Err(LoadError::Parse { message: missing_field_text("name") });
        },
        Some(FieldValue::Str(s)) => s,
        Some(k) => {
            let found = kind_word_text(&k);
            return Err(LoadError::Parse { message: invalid_type_text(found, "a string") });
        },
    };
    let group_value: i32 = match group {
        None => {
            return Err(LoadError::Parse { message: missing_field_text("group") });
        },
        Some(FieldValue::Number(Some(n))) => {
            if i32::MIN as i64 <= n && n <= i32::MAX as i64 {
                n as i32
            } else {
                return Err(LoadError::Parse { message: out_of_range_text(n) });
            }
        },
        Some(k) => {
            let found = kind_word_text(&k);
            return Err(LoadError::Parse { message: invalid_type_text(found, "i32") });
        },
    };
    Ok(ClusterMap { name: name_text, group: group_value })
}

/// Loads the record from the text of a configuration document: a JSON object
/// with a string `name` and an `i32` `group`; other fields are ignored.
pub fn load_from_text(text: &str) -> (r: Result<ClusterMap, LoadError>)
    ensures
        outcome(r) == load_from(parsed_object(text@)),
{
    match parse_object(text) {
        Err(message) => Err(LoadError::Parse { message }),
        Ok(fields) => {
            let name = object_field(&fields, "name");
            let group = object_field(&fields, "group");
            record_from_fields(name, group)
        },
    }
}

/// Loads the record given the outcome of reading the configuration file:
/// its text, or the description of the error that stopped the read.
pub fn get_cluster_info(read: Result<String, String>) -> (r: Result<ClusterMap, LoadError>)
    ensures
        outcome(r) == cluster_outcome(
            match read {
                Ok(t) => Ok::<Seq<char>, Seq<char>>(t@),
                Err(c) => Err::<Seq<char>, Seq<char>>(c@),
            },
        ),
{
    match read {
        Err(cause) => Err(LoadError::Read { cause }),
        Ok(text) => load_from_text(text.as_str()),
    }
}

} // verus!
