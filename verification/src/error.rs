//! Typed errors of the decoder and of the value types.
//!
//! A value type's own validation failure is a `ValueError`; a failed decode of
//! a whole response is a `DecodeError` that names the offending entry, field
//! and raw value, so that a caller can report exactly what was wrong.

use vstd::prelude::*;

use crate::digits::dec_of;

verus! {

/// Why a single field value was rejected by its value type.
#[derive(Clone, Copy, Debug, PartialEq, Eq, Structural)]
pub enum ValueError {
    /// A privacy code outside the accepted set.
    PrivacyCode,
    /// A timestamp that is not a string of decimal digits with a value that
    /// fits the supported range.
    Timestamp,
    /// A numeric field that is not a nonempty string of decimal digits whose
    /// value fits in 64 bits.
    Number,
    /// A field that is not an optionally minus-signed integer.
    Integer,
    /// A website or paste URL that is not a well-formed absolute URL.
    Url,
}

/// Mathematical model of a `DecodeError`.
pub enum ErrorModel {
    Malformed,
    MissingField { field: Seq<char> },
    BadValue { entry: nat, field: Seq<char>, value: Seq<char>, why: ValueError },
}

/// Why decoding a whole response body failed.
///
/// `entry` counts records of a list from one; a single-record response has
/// entry one.
#[derive(Debug)]
pub enum DecodeError {
    /// The body is not a document of the provider's XML shape.
    Malformed,
    /// A required field is absent from a record.
    MissingField { field: String },
    /// A field is present but its value type rejects the raw text.
    BadValue { entry: u64, field: String, value: String, why: ValueError },
}

impl View for DecodeError {
    type V = ErrorModel;

    open spec fn view(&self) -> ErrorModel {
        match self {
            DecodeError::Malformed => ErrorModel::Malformed,
            DecodeError::MissingField { field } => ErrorModel::MissingField { field: field@ },
            DecodeError::BadValue { entry, field, value, why } => ErrorModel::BadValue {
                entry: *entry as nat,
                field: field@,
                value: value@,
                why: *why,
            },
        }
    }
}

/// One-line description of a value error.
pub open spec fn spec_value_error_text(v: ValueError) -> Seq<char> {
    match v {
        ValueError::PrivacyCode => "not a privacy code"@,
        ValueError::Timestamp => "not an epoch timestamp"@,
        ValueError::Number => "not a non-negative number"@,
        ValueError::Integer => "not an integer"@,
        ValueError::Url => "not an absolute URL"@,
    }
}

/// One-line description of a decode error, naming the entry, field and raw
/// value where they are known.
pub open spec fn spec_error_message(e: ErrorModel) -> Seq<char> {
    match e {
        ErrorModel::Malformed => "malformed response body"@,
        ErrorModel::MissingField { field } => "missing field `"@ + field + "`"@,
        ErrorModel::BadValue { entry, field, value, why } => "entry "@ + dec_of(entry)
            + ": field `"@ + field + "` has value `"@ + value + "`: "@
            + spec_value_error_text(why),
    }
}

impl ValueError {
    /// Render this value error as one line of text.
    pub fn message(&self) -> (r: String)
        ensures
            r@ == spec_value_error_text(*self),
    {
        let s = match self {
            ValueError::PrivacyCode => "not a privacy code",
            ValueError::Timestamp => "not an epoch timestamp",
            ValueError::Number => "not a non-negative number",
            ValueError::Integer => "not an integer",
            ValueError::Url => "not an absolute URL",
        };
        String::from_str(s)
    }
}

impl DecodeError {
    /// Render this decode error as one line of text.
    pub fn message(&self) -> (r: String)
        ensures
            r@ == spec_error_message(self@),
    {
        match self {
            DecodeError::Malformed => String::from_str("malformed response body"),
            DecodeError::MissingField { field } => {
                let mut r = String::from_str("missing field `");
                r.append(field.as_str());
                r.append("`");
                proof {
                    assert(r@ =~= spec_error_message(self@));
                }
                r
            },
            DecodeError::BadValue { entry, field, value, why } => {
                let mut r = String::from_str("entry ");
                let n = crate::digits::u64_to_string(*entry);
                r.append(n.as_str());
                r.append(": field `");
                r.append(field.as_str());
                r.append("` has value `");
                r.append(value.as_str());
                r.append("`: ");
                let w = why.message();
                r.append(w.as_str());
                proof {
                    assert(r@ =~= spec_error_message(self@));
                }
                r
            },
        }
    }
}

} // verus!
