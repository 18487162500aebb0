//! The one kind of error that this library reports.

use cdumay_error::ErrorKind;
use vstd::prelude::*;

verus! {

/// The kind shared by every error of this library: name `TomlData`, message
/// id `TOML-00001`, status 400, description `Invalid Toml data`.
pub open spec fn toml_data_spec() -> ErrorKind {
    ErrorKind("TomlData", "TOML-00001", 400, "Invalid Toml data")
}

/// The kind `TomlData`.
#[verifier::when_used_as_spec(toml_data_spec)]
pub fn toml_data() -> (kind: ErrorKind)
    ensures
        kind == toml_data_spec(),
        kind.0@ == "TomlData"@,
        kind.1@ == "TOML-00001"@,
        kind.2 == 400,
        kind.3@ == "Invalid Toml data"@,
{
    ErrorKind("TomlData", "TOML-00001", 400, "Invalid Toml data")
}

} // verus!
