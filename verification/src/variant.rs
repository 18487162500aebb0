//! The two operations whose failure the library reports.

use crate::foreign::side_of;
use crate::kind::{toml_data, toml_data_spec};
use crate::record::{contents, toml_error, StructuredError};
use cdumay_error::{Error, ErrorKind};
use serde_value::Value;
use std::collections::BTreeMap;
use vstd::prelude::*;

verus! {

/// The class of an error of `kind` that is named `name`: the side of the
/// kind's status, the kind's name and `name`, joined by `::`.
pub open spec fn class_of(kind: ErrorKind, name: Seq<char>) -> Seq<char> {
    side_of(kind.2) + "::"@ + kind.0@ + "::"@ + name
}

/// Which operation failed. Both variants are of the kind `TomlData`; they
/// differ in their name, and so in the class of the errors made from them.
#[derive(Clone, Copy, Debug, PartialEq, Eq, Structural)]
pub enum TomlErrorVariant {
    /// Encoding a value as TOML text failed.
    TomlSerialize,
    /// Decoding TOML text failed.
    TomlDeserialize,
}

impl TomlErrorVariant {
    /// The name of the variant.
    pub open spec fn spec_name(self) -> Seq<char> {
        match self {
            TomlErrorVariant::TomlSerialize => "TomlSerialize"@,
            TomlErrorVariant::TomlDeserialize => "TomlDeserialize"@,
        }
    }

    /// The class of the errors of this variant.
    pub open spec fn spec_class(self) -> Seq<char> {
        class_of(toml_data_spec(), self.spec_name())
    }

    /// The name of the variant.
    pub fn name(&self) -> (name: &'static str)
        ensures
            name@ == self.spec_name(),
    {
        match self {
            TomlErrorVariant::TomlSerialize => "TomlSerialize",
            TomlErrorVariant::TomlDeserialize => "TomlDeserialize",
        }
    }

    /// The kind of the variant, `TomlData` for both.
    pub fn kind(&self) -> (kind: ErrorKind)
        ensures
            kind == toml_data_spec(),
    {
        toml_data()
    }

    /// The class of the errors of this variant.
    pub fn class(&self) -> (class: String)
        ensures
            class@ == self.spec_class(),
    {
        let kind = toml_data();
        let class = String::from_str(kind.side());
        let class = class.concat("::");
        let class = class.concat(kind.0);
        let class = class.concat("::");
        class.concat(self.name())
    }

    /// The error that reports this variant with `message` and `context`.
    pub fn error(&self, message: String, context: BTreeMap<String, Value>) -> (error: Error)
        ensures
            contents(error) == toml_error(*self, message@, context@),
            error.message == message,
            error.details == Some(context),
    {
        Error { kind: toml_data(), class: self.class(), message, details: Some(context) }
    }
}

/// The class of each variant, written out.
pub proof fn lemma_class_text()
    ensures
        TomlErrorVariant::TomlSerialize.spec_class() == "Client::TomlData::TomlSerialize"@,
        TomlErrorVariant::TomlDeserialize.spec_class() == "Client::TomlData::TomlDeserialize"@,
{
    reveal_strlit("Client");
    reveal_strlit("::");
    reveal_strlit("TomlData");
    reveal_strlit("TomlSerialize");
    reveal_strlit("TomlDeserialize");
    reveal_strlit("Client::TomlData::TomlSerialize");
    reveal_strlit("Client::TomlData::TomlDeserialize");
    assert(TomlErrorVariant::TomlSerialize.spec_class() =~= "Client::TomlData::TomlSerialize"@);
    assert(TomlErrorVariant::TomlDeserialize.spec_class()
        =~= "Client::TomlData::TomlDeserialize"@);
}

/// The two variants are told apart by their class, and by nothing else: the
/// errors made from them with one message and one context differ in their
/// class alone.
pub proof fn lemma_variants_differ_in_class_alone(message: Seq<char>, context: Map<String, Value>)
    ensures
        TomlErrorVariant::TomlSerialize.spec_class()
            != TomlErrorVariant::TomlDeserialize.spec_class(),
        toml_error(TomlErrorVariant::TomlSerialize, message, context) == (StructuredError {
            class: TomlErrorVariant::TomlSerialize.spec_class(),
            ..toml_error(TomlErrorVariant::TomlDeserialize, message, context)
        }),
{
    lemma_class_text();
    reveal_strlit("Client::TomlData::TomlSerialize");
    reveal_strlit("Client::TomlData::TomlDeserialize");
    assert("Client::TomlData::TomlSerialize"@.len() != "Client::TomlData::TomlDeserialize"@.len());
}

} // verus!
