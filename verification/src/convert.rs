//! The two converters, one for each direction.

use crate::record::{contents, toml_error};
use crate::variant::TomlErrorVariant;
use cdumay_error::Error;
use serde_value::Value;
use std::collections::BTreeMap;
use vstd::prelude::*;

verus! {

/// `converted` is what a converter of `variant` makes of `text` and
/// `context`: an error of the kind `TomlData` and of the class of `variant`,
/// whose message is `text` and whose details are `context`, both as they
/// were given.
pub open spec fn converts_to(
    variant: TomlErrorVariant,
    text: String,
    context: BTreeMap<String, Value>,
    converted: Error,
) -> bool {
    &&& contents(converted) == toml_error(variant, text@, context@)
    &&& converted.message == text
    &&& converted.details == Some(context)
}

/// Turns a `toml::ser::Error` into a `cdumay_error::Error`.
pub struct TomlSerializeErrorConverter;

impl TomlSerializeErrorConverter {
    /// The error of the variant `TomlSerialize` with the message `text` and
    /// the details `context`. Nothing is read from `error`: that there is
    /// one says that encoding failed.
    pub fn convert(
        error: &toml::ser::Error,
        text: String,
        context: BTreeMap<String, Value>,
    ) -> (converted: Error)
        ensures
            converts_to(TomlErrorVariant::TomlSerialize, text, context, converted),
    {
        TomlErrorVariant::TomlSerialize.error(text, context)
    }
}

/// Turns a `toml::de::Error` into a `cdumay_error::Error`.
pub struct TomlDeserializeErrorConverter;

impl TomlDeserializeErrorConverter {
    /// The error of the variant `TomlDeserialize` with the message `text`
    /// and the details `context`. Nothing is read from `error`: that there
    /// is one says that decoding failed.
    pub fn convert(
        error: &toml::de::Error,
        text: String,
        context: BTreeMap<String, Value>,
    ) -> (converted: Error)
        ensures
            converts_to(TomlErrorVariant::TomlDeserialize, text, context, converted),
    {
        TomlErrorVariant::TomlDeserialize.error(text, context)
    }
}

/// Two conversions of the same message and context give errors that are
/// equal in all that they hold.
pub proof fn lemma_conversion_is_determined(
    variant: TomlErrorVariant,
    text: String,
    context: BTreeMap<String, Value>,
    first: Error,
    second: Error,
)
    requires
        converts_to(variant, text, context, first),
        converts_to(variant, text, context, second),
    ensures
        contents(first) == contents(second),
        first.message == second.message,
        first.details == second.details,
{
}

} // verus!
