//! What a structured error says, as plain values.

use crate::variant::TomlErrorVariant;
use cdumay_error::Error;
use serde_value::Value;
use vstd::prelude::*;

verus! {

/// The contents of a `cdumay_error::Error`: the four fields of its kind,
/// its class, its message and its context.
pub struct StructuredError {
    /// The name of the kind.
    pub name: Seq<char>,
    /// The stable code of the kind, its message id.
    pub code: Seq<char>,
    /// The numeric status of the kind.
    pub status: nat,
    /// The short description of the kind.
    pub description: Seq<char>,
    /// The side, the kind and the variant, joined by `::`.
    pub class: Seq<char>,
    /// The message for the reader.
    pub message: Seq<char>,
    /// The context map, if the error has one.
    pub context: Option<Map<String, Value>>,
}

/// The contents of `error`.
pub open spec fn contents(error: Error) -> StructuredError {
    StructuredError {
        name: error.kind.0@,
        code: error.kind.1@,
        status: error.kind.2 as nat,
        description: error.kind.3@,
        class: error.class@,
        message: error.message@,
        context: match error.details {
            Some(details) => Some(details@),
            None => None,
        },
    }
}

/// The error of kind `TomlData` that reports `variant` with `message` and
/// `context`.
pub open spec fn toml_error(
    variant: TomlErrorVariant,
    message: Seq<char>,
    context: Map<String, Value>,
) -> StructuredError {
    StructuredError {
        name: "TomlData"@,
        code: "TOML-00001"@,
        status: 400,
        description: "Invalid Toml data"@,
        class: variant.spec_class(),
        message,
        context: Some(context),
    }
}

} // verus!
