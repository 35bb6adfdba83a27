//! The stored form of a payload and its serialization to JSON text.

use vstd::prelude::*;

verus! {

/// `serde_json::Value`, carried as it is: nothing is known of what is inside.
#[verifier::external_type_specification]
#[verifier::external_body]
pub struct ExSerdeValue(serde_json::Value);

/// `serde_json::Error`, which `serde_json::to_string` returns on failure.
#[verifier::external_type_specification]
#[verifier::external_body]
pub struct ExSerdeError(serde_json::Error);

/// `rustc_serialize::json::Json`, carried as it is: nothing is known of what
/// is inside.
#[verifier::external_type_specification]
#[verifier::external_body]
pub struct ExRustcJson(rustc_serialize::json::Json);

/// `rustc_serialize::json::EncoderError`, which `rustc_serialize::json::encode`
/// returns on failure.
#[verifier::external_type_specification]
#[verifier::external_body]
pub struct ExRustcEncoderError(rustc_serialize::json::EncoderError);

/// The text that `serde_json::to_string` produces for `value`, or `None`
/// where it reports an error.
pub uninterp spec fn serde_json_text(value: serde_json::Value) -> Option<Seq<char>>;

/// The text that `rustc_serialize::json::encode` produces for `value`, or
/// `None` where it reports an error.
pub uninterp spec fn rustc_json_text(value: rustc_serialize::json::Json) -> Option<Seq<char>>;

/// Calls `serde_json::to_string` on a `serde_json::Value`.
///
/// Trusted: the outcome depends on the value alone, so it is the one that
/// [`serde_json_text`] names: `Ok` with exactly that text, or `Err` where the
/// name is `None`. Nothing is claimed about what the text looks like.
#[verifier::external_body]
fn serde_to_string(value: &serde_json::Value) -> (r: Result<String, serde_json::Error>)
    ensures
        match r {
            Ok(text) => serde_json_text(*value) == Some(text@),
            Err(_) => serde_json_text(*value) is None,
        },
{
    serde_json::to_string(value)
}

/// Calls `rustc_serialize::json::encode` on a `rustc_serialize::json::Json`.
///
/// Trusted: the outcome depends on the value alone, so it is the one that
/// [`rustc_json_text`] names: `Ok` with exactly that text, or `Err` where the
/// name is `None`. Nothing is claimed about what the text looks like.
#[verifier::external_body]
fn rustc_encode(value: &rustc_serialize::json::Json) -> (r: Result<
    String,
    rustc_serialize::json::EncoderError,
>)
    ensures
        match r {
            Ok(text) => rustc_json_text(*value) == Some(text@),
            Err(_) => rustc_json_text(*value) is None,
        },
{
    rustc_serialize::json::encode(value)
}

/// `Clone::clone` of `serde_json::Value`.
///
/// Trusted: the copy is the value it was made from.
pub assume_specification[ <serde_json::Value as Clone>::clone ](
    value: &serde_json::Value,
) -> (r: serde_json::Value)
    ensures
        r == *value,
;

/// `Clone::clone` of `rustc_serialize::json::Json`.
///
/// Trusted: the copy is the value it was made from.
pub assume_specification[ <rustc_serialize::json::Json as Clone>::clone ](
    value: &rustc_serialize::json::Json,
) -> (r: rustc_serialize::json::Json)
    ensures
        r == *value,
;

/// A payload in its serializable intermediate form, as one of the two
/// supported JSON libraries represents it.
#[derive(Debug, PartialEq)]
pub enum JsonValue {
    /// A `serde_json` value.
    Serde(serde_json::Value),
    /// A `rustc_serialize` JSON value.
    RustcSerialize(rustc_serialize::json::Json),
}

/// Why a payload could not be turned into text: the library that refused it.
#[derive(Clone, Copy, Debug, PartialEq, Eq)]
pub enum SerializationError {
    /// `serde_json` reported an error.
    Serde,
    /// `rustc_serialize` reported an error.
    RustcSerialize,
}

impl Clone for JsonValue {
    fn clone(&self) -> (r: Self)
        ensures
            r == *self,
    {
        match self {
            JsonValue::Serde(value) => JsonValue::Serde(value.clone()),
            JsonValue::RustcSerialize(value) => JsonValue::RustcSerialize(value.clone()),
        }
    }
}

impl JsonValue {
    /// The JSON text of this value, or `None` where its library cannot
    /// serialize it.
    pub open spec fn text(self) -> Option<Seq<char>> {
        match self {
            JsonValue::Serde(value) => serde_json_text(value),
            JsonValue::RustcSerialize(value) => rustc_json_text(value),
        }
    }

    /// The error reported for a value of this kind that cannot be serialized.
    pub open spec fn failure(self) -> SerializationError {
        match self {
            JsonValue::Serde(_) => SerializationError::Serde,
            JsonValue::RustcSerialize(_) => SerializationError::RustcSerialize,
        }
    }

    /// Serializes the value to JSON text with the library it belongs to.
    pub fn serialize(&self) -> (r: Result<String, SerializationError>)
        ensures
            match r {
                Ok(text) => self.text() == Some(text@),
                Err(e) => self.text() is None && e == self.failure(),
            },
    {
        match self {
            JsonValue::Serde(value) => match serde_to_string(value) {
                Ok(text) => Ok(text),
                Err(_) => Err(SerializationError::Serde),
            },
            JsonValue::RustcSerialize(value) => match rustc_encode(value) {
                Ok(text) => Ok(text),
                Err(_) => Err(SerializationError::RustcSerialize),
            },
        }
    }
}

} // verus!
