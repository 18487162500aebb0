//! Helpers that convert the failure inside a `Result` and leave a success as
//! it is.
//!
//! Message and context may each be left out. Without a message, the error
//! says what the failure itself says, the text it displays as. Without a
//! context, the error has an empty map for its details. Nothing else is ever
//! put into either.

use crate::convert::{converts_to, TomlDeserializeErrorConverter, TomlSerializeErrorConverter};
use crate::record::{contents, toml_error};
use crate::variant::TomlErrorVariant;
use cdumay_error::Error;
use serde_value::Value;
use std::collections::BTreeMap;
use vstd::prelude::*;
use vstd::string::to_string_from_display_ensures;

verus! {

/// `adapted` is `result` with its failure converted.
///
/// A success is handed back as it is. A failure becomes the error of
/// `variant`. Its message is `text` where one is given, and else the text
/// that the failure displays as. Its details are `context` where one is
/// given, and else an empty map.
pub open spec fn adapts_to<T, E: core::fmt::Display>(
    variant: TomlErrorVariant,
    result: Result<T, E>,
    context: Option<BTreeMap<String, Value>>,
    text: Option<String>,
    adapted: Result<T, Error>,
) -> bool {
    match result {
        Ok(value) => adapted == Ok::<T, Error>(value),
        Err(failure) => {
            &&& adapted matches Err(error)
            &&& match text {
                Some(text) => error.message == text,
                None => to_string_from_display_ensures::<E>(&failure, error.message),
            }
            &&& match context {
                Some(context) => error.details == Some(context),
                None => error.details matches Some(details) && details@ == Map::<String, Value>::empty(),
            }
            &&& error.details matches Some(details) && contents(error) == toml_error(
                variant,
                error.message@,
                details@,
            )
        },
    }
}

/// Converts the failure of encoding a value as TOML, if `result` is one, into
/// the error of the variant `TomlSerialize`.
pub fn convert_serialize_result<T>(
    result: Result<T, toml::ser::Error>,
    context: Option<BTreeMap<String, Value>>,
    text: Option<String>,
) -> (adapted: Result<T, Error>)
    ensures
        adapts_to(TomlErrorVariant::TomlSerialize, result, context, text, adapted),
{
    match result {
        Ok(value) => Ok(value),
        Err(failure) => {
            let message = match text {
                Some(text) => text,
                None => failure.to_string(),
            };
            let details = match context {
                Some(context) => context,
                None => BTreeMap::new(),
            };
            Err(TomlSerializeErrorConverter::convert(&failure, message, details))
        },
    }
}

/// Converts the failure of decoding TOML text, if `result` is one, into the
/// error of the variant `TomlDeserialize`.
pub fn convert_deserialize_result<T>(
    result: Result<T, toml::de::Error>,
    context: Option<BTreeMap<String, Value>>,
    text: Option<String>,
) -> (adapted: Result<T, Error>)
    ensures
        adapts_to(TomlErrorVariant::TomlDeserialize, result, context, text, adapted),
{
    match result {
        Ok(value) => Ok(value),
        Err(failure) => {
            let message = match text {
                Some(text) => text,
                None => failure.to_string(),
            };
            let details = match context {
                Some(context) => context,
                None => BTreeMap::new(),
            };
            Err(TomlDeserializeErrorConverter::convert(&failure, message, details))
        },
    }
}

/// Adapting a failure with a message and a context gives the error that the
/// converter of the same variant makes of that message and context.
pub proof fn lemma_adapted_failure_is_converted<T, E: core::fmt::Display>(
    variant: TomlErrorVariant,
    failure: E,
    text: String,
    context: BTreeMap<String, Value>,
    adapted: Result<T, Error>,
    converted: Error,
)
    requires
        adapts_to(variant, Err::<T, E>(failure), Some(context), Some(text), adapted),
        converts_to(variant, text, context, converted),
    ensures
        adapted is Err,
        adapted matches Err(error) ==> converts_to(variant, text, context, error),
        adapted matches Err(error) ==> contents(error) == contents(converted),
        adapted matches Err(error) ==> error.message == converted.message,
        adapted matches Err(error) ==> error.details == converted.details,
{
}

} // verus!
