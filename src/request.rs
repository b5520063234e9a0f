//! The payload handed to evaluation.
//!
//! A caller may supply either a bare resource or a whole `AdmissionReview`
//! envelope; in the second case the evaluated payload is the envelope's
//! `request` field.

use vstd::prelude::*;
use vstd::string::*;

verus! {

/// A JSON value. Numbers keep their textual form; an object keeps its
/// entries in document order.
#[derive(Debug, PartialEq)]
pub enum JsonValue {
    Null,
    Bool(bool),
    Number(String),
    Str(String),
    Array(Vec<JsonValue>),
    Object(Vec<(String, JsonValue)>),
}

/// Why a payload cannot be evaluated.
#[derive(Debug, Clone, Copy, PartialEq, Eq)]
pub enum NormalizeError {
    /// An `AdmissionReview` envelope without a `request` field.
    InvalidAdmissionReview,
    /// The payload is not a JSON object.
    InvalidRequest,
}

impl NormalizeError {
    pub fn message(&self) -> (r: String)
        ensures
            *self is InvalidAdmissionReview ==> r@ == "invalid admission review object"@,
            *self is InvalidRequest ==> r@ == "request to evaluate is invalid"@,
    {
        match self {
            NormalizeError::InvalidAdmissionReview => String::from_str(
                "invalid admission review object",
            ),
            NormalizeError::InvalidRequest => String::from_str("request to evaluate is invalid"),
        }
    }
}

/// The value stored under `key` (the last entry with that key).
pub open spec fn field(entries: Seq<(String, JsonValue)>, key: Seq<char>) -> Option<JsonValue>
    decreases entries.len(),
{
    if entries.len() == 0 {
        None
    } else if entries.last().0@ == key {
        Some(entries.last().1)
    } else {
        field(entries.drop_last(), key)
    }
}

/// The object's `kind` field is the string `AdmissionReview`.
pub open spec fn is_admission_review(entries: Seq<(String, JsonValue)>) -> bool {
    match field(entries, "kind"@) {
        Some(JsonValue::Str(s)) => s@ == "AdmissionReview"@,
        _ => false,
    }
}

/// What evaluation receives for the payload `raw`.
pub open spec fn normalized(raw: JsonValue) -> Result<JsonValue, NormalizeError> {
    match raw {
        JsonValue::Object(entries) => if is_admission_review(entries@) {
            match field(entries@, "request"@) {
                Some(v) => Ok(v),
                None => Err(NormalizeError::InvalidAdmissionReview),
            }
        } else {
            Ok(raw)
        },
        _ => Err(NormalizeError::InvalidRequest),
    }
}

/// Position of the entry that `field` reads for `key`.
fn find_field(entries: &Vec<(String, JsonValue)>, key: &String) -> (r: Option<usize>)
    ensures
        r matches Some(i) ==> i < entries@.len() && field(entries@, key@) == Some(
            entries@[i as int].1,
        ),
        r is None ==> field(entries@, key@) is None,
{
    let mut found: Option<usize> = None;
    let mut i: usize = 0;
    while i < entries.len()
        invariant
            i <= entries@.len(),
            found matches Some(j) ==> j < i && field(entries@.take(i as int), key@) == Some(
                entries@[j as int].1,
            ),
            found is None ==> field(entries@.take(i as int), key@) is None,
        decreases entries@.len() - i,
    {
        assert(entries@.take(i as int + 1).drop_last() =~= entries@.take(i as int));
        if entries[i].0 == *key {
            found = Some(i);
        }
        i = i + 1;
    }
    assert(entries@.take(i as int) =~= entries@);
    found
}

/// The object's `kind` field holds the string `AdmissionReview`.
fn kind_is_admission_review(entries: &Vec<(String, JsonValue)>) -> (r: bool)
    ensures
        r == is_admission_review(entries@),
{
    let kind = String::from_str("kind");
    let review = String::from_str("AdmissionReview");
    match find_field(entries, &kind) {
        None => false,
        Some(i) => match &entries[i].1 {
            JsonValue::Str(s) => *s == review,
            _ => false,
        },
    }
}

/// The payload to evaluate: the `request` field of an `AdmissionReview`
/// envelope, or the object itself when it is no such envelope.
pub fn normalize(raw: JsonValue) -> (r: Result<JsonValue, NormalizeError>)
    ensures
        r == normalized(raw),
{
    match raw {
        JsonValue::Object(entries) => {
            if kind_is_admission_review(&entries) {
                let request = String::from_str("request");
                match find_field(&entries, &request) {
                    Some(i) => {
                        let mut entries = entries;
                        let (_, value) = entries.remove(i);
                        Ok(value)
                    },
                    None => Err(NormalizeError::InvalidAdmissionReview),
                }
            } else {
                Ok(JsonValue::Object(entries))
            }
        },
        _ => Err(NormalizeError::InvalidRequest),
    }
}

} // verus!
