//! The types and functions of other crates that the library works with.

use vstd::prelude::*;

verus! {

/// `cdumay_error::ErrorKind`: a name, a message id, a status and a
/// description, in that order. All four fields are public, and Verus reads
/// them from the crate.
#[verifier::external_type_specification]
pub struct ExErrorKind(cdumay_error::ErrorKind);

/// `cdumay_error::Error`: a kind, a class, a message and optional details.
/// All four fields are public, and Verus reads them from the crate.
#[verifier::external_type_specification]
pub struct ExError(cdumay_error::Error);

/// `serde_value::Value`, the loosely typed value of a context entry. The
/// library never looks inside one.
#[verifier::external_type_specification]
#[verifier::external_body]
pub struct ExValue(serde_value::Value);

/// `toml::ser::Error`, the failure of encoding a value as TOML. The library
/// never looks inside one.
#[verifier::external_type_specification]
#[verifier::external_body]
pub struct ExSerializeFailure(toml::ser::Error);

/// `toml::de::Error`, the failure of decoding TOML text. The library never
/// looks inside one.
#[verifier::external_type_specification]
#[verifier::external_body]
pub struct ExDeserializeFailure(toml::de::Error);

/// The side that answers for a status: the client up to 499, the server
/// from 500 on.
pub open spec fn side_of(status: u16) -> Seq<char> {
    if status <= 499 {
        "Client"@
    } else {
        "Server"@
    }
}

/// `cdumay_error::ErrorKind::side` matches on the status, the third field:
/// `"Client"` for 0 to 499, `"Server"` for anything above.
pub assume_specification[ cdumay_error::ErrorKind::side ](
    kind: &cdumay_error::ErrorKind,
) -> (side: &'static str)
    ensures
        side@ == side_of(kind.2),
;

} // verus!
