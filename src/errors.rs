//! Errors of the data-store side: what a cell sees when a value cannot be had.
use vstd::prelude::*;
use crate::text::decimal;

verus! {

/// Why a value could not be stored in or taken from the context.
#[derive(Debug, Clone)]
pub enum ContextError {
    /// No value under the key.
    NotFound(String),
    /// The stored tag names another type than the one asked for.
    TypeMismatch { key: String, expected: String, found: String },
    /// The stored schema version is not the one asked for; `found` is 0 where
    /// the value was stored without a version.
    SchemaVersionMismatch { key: String, expected: u32, found: u32 },
    /// The value could not be encoded.
    Serialization { key: String, message: String },
    /// The stored bytes could not be decoded as the type asked for.
    Deserialization { key: String, message: String },
}

/// A `ContextError` as plain values.
pub enum ContextErrorView {
    NotFound(Seq<char>),
    TypeMismatch { key: Seq<char>, expected: Seq<char>, found: Seq<char> },
    SchemaVersionMismatch { key: Seq<char>, expected: u32, found: u32 },
    Serialization { key: Seq<char>, message: Seq<char> },
    Deserialization { key: Seq<char>, message: Seq<char> },
}

impl ContextErrorView {
    /// A failure to encode the value of `key`.
    pub open spec fn is_serialization_of(self, key: Seq<char>) -> bool {
        match self {
            ContextErrorView::Serialization { key: k, .. } => k == key,
            _ => false,
        }
    }

    /// A failure to decode the value of `key`.
    pub open spec fn is_deserialization_of(self, key: Seq<char>) -> bool {
        match self {
            ContextErrorView::Deserialization { key: k, .. } => k == key,
            _ => false,
        }
    }
}

/// The one-line description of an error.
pub open spec fn message_of(e: ContextErrorView) -> Seq<char> {
    match e {
        ContextErrorView::NotFound(k) => "context variable '"@ + k + "' not found"@,
        ContextErrorView::TypeMismatch { key, expected, found } => "type mismatch for '"@ + key + "': expected '"@
            + expected + "', found '"@ + found + "'"@,
        ContextErrorView::SchemaVersionMismatch { key, expected, found } => "schema version mismatch for '"@ + key
            + "': expected v"@ + decimal(expected as nat) + ", found v"@ + decimal(found as nat),
        ContextErrorView::Serialization { key, message } => "failed to serialize '"@ + key + "': "@ + message,
        ContextErrorView::Deserialization { key, message } => "failed to deserialize '"@ + key + "': "@ + message,
    }
}

impl ContextError {
    pub open spec fn view(&self) -> ContextErrorView {
        match self {
            ContextError::NotFound(k) => ContextErrorView::NotFound(k@),
            ContextError::TypeMismatch { key, expected, found } => ContextErrorView::TypeMismatch {
                key: key@,
                expected: expected@,
                found: found@,
            },
            ContextError::SchemaVersionMismatch { key, expected, found } =>
                ContextErrorView::SchemaVersionMismatch { key: key@, expected: *expected, found: *found },
            ContextError::Serialization { key, message } => ContextErrorView::Serialization {
                key: key@,
                message: message@,
            },
            ContextError::Deserialization { key, message } => ContextErrorView::Deserialization {
                key: key@,
                message: message@,
            },
        }
    }

    /// A one-line description of the error.
    pub fn message(&self) -> (r: String)
        ensures
            r@ == message_of(self@),
    {
        let mut s = String::new();
        match self {
            ContextError::NotFound(k) => {
                s.append("context variable '");
                s.append(k.as_str());
                s.append("' not found");
                assert(s@ =~= message_of(self@));
            },
            ContextError::TypeMismatch { key, expected, found } => {
                s.append("type mismatch for '");
                s.append(key.as_str());
                s.append("': expected '");
                s.append(expected.as_str());
                s.append("', found '");
                s.append(found.as_str());
                s.append("'");
                assert(s@ =~= message_of(self@));
            },
            ContextError::SchemaVersionMismatch { key, expected, found } => {
                s.append("schema version mismatch for '");
                s.append(key.as_str());
                s.append("': expected v");
                s.append(crate::text::decimal_string(*expected).as_str());
                s.append(", found v");
                s.append(crate::text::decimal_string(*found).as_str());
                assert(s@ =~= message_of(self@));
            },
            ContextError::Serialization { key, message } => {
                s.append("failed to serialize '");
                s.append(key.as_str());
                s.append("': ");
                s.append(message.as_str());
                assert(s@ =~= message_of(self@));
            },
            ContextError::Deserialization { key, message } => {
                s.append("failed to deserialize '");
                s.append(key.as_str());
                s.append("': ");
                s.append(message.as_str());
                assert(s@ =~= message_of(self@));
            },
        }
        s
    }
}

/// Any failure of the cell-facing library.
#[derive(Debug, Clone)]
pub enum Error {
    Context(ContextError),
    Io(String),
}

} // verus!
