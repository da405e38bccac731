//! The expiration policy that the credential store holds.

use vstd::prelude::*;
use mongodb::bson::Document;
use mongodb::bson::document::ValueAccessError;

verus! {

/// The name of the field that holds the token lifetime.
pub open spec fn expiration_field() -> Seq<char> {
    "jwt_expiration_time"@
}

/// The token expiration policy: for how many seconds a token stays valid
/// after it was issued.
#[derive(Clone, Copy, Debug, PartialEq, Eq)]
pub struct Config {
    pub jwt_expiration_time: i32,
}

/// Why a configuration document cannot be used.
#[derive(Clone, Copy, Debug, PartialEq, Eq)]
pub enum ConfigError {
    /// The document has no field of the expected name.
    MissingField,
    /// The field is there, but its value is no 32-bit integer.
    WrongType,
}

#[verifier::external_type_specification]
#[verifier::external_body]
pub struct ExDocument(Document);

/// The keys that a document holds.
pub uninterp spec fn document_keys(d: Document) -> Set<Seq<char>>;

/// The fields of a document whose value is a 32-bit integer.
pub uninterp spec fn document_int32s(d: Document) -> Map<Seq<char>, i32>;

/// What reading the 32-bit integer under `key` gives, for a document with the
/// keys `keys` and the 32-bit integer fields `ints`.
pub open spec fn int32_field(
    keys: Set<Seq<char>>,
    ints: Map<Seq<char>, i32>,
    key: Seq<char>,
) -> Result<i32, ConfigError> {
    if ints.contains_key(key) {
        Ok(ints[key])
    } else if keys.contains(key) {
        Err(ConfigError::WrongType)
    } else {
        Err(ConfigError::MissingField)
    }
}

/// The policy that a field read from the configuration document gives.
pub open spec fn config_of(field: Result<i32, ConfigError>) -> Result<Config, ConfigError> {
    match field {
        Ok(v) => Ok((Config { jwt_expiration_time: v })),
        Err(e) => Err(e),
    }
}

/// Calls `Document::get_i32` of the `bson` crate, which `mongodb` hands on.
/// Trusted: the call returns the value where the key holds a 32-bit integer,
/// reports a value of another type as such, and an absent key as absent.
#[verifier::external_body]
fn document_get_i32(d: &Document, key: &str) -> (res: Result<i32, ConfigError>)
    ensures
        res == int32_field(document_keys(*d), document_int32s(*d), key@),
{
    match d.get_i32(key) {
        Ok(v) => Ok(v),
        Err(ValueAccessError::NotPresent) => Err(ConfigError::MissingField),
        Err(_) => Err(ConfigError::WrongType),
    }
}

impl Config {
    /// The policy for a field as it was read: the value where there is one,
    /// the reading's own error otherwise.
    pub fn from_field(field: Result<i32, ConfigError>) -> (res: Result<Config, ConfigError>)
        ensures
            res == config_of(field),
    {
        match field {
            Ok(v) => Ok(Config { jwt_expiration_time: v }),
            Err(e) => Err(e),
        }
    }

    /// Reads the policy from the configuration document: its field
    /// `jwt_expiration_time`, which must hold a 32-bit integer.
    pub fn from_document(d: Document) -> (res: Result<Config, ConfigError>)
        ensures
            res == config_of(
                int32_field(document_keys(d), document_int32s(d), expiration_field()),
            ),
    {
        let field = document_get_i32(&d, "jwt_expiration_time");
        Config::from_field(field)
    }
}

} // verus!
