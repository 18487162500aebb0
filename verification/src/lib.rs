//! Structured errors for failures of the `toml` crate.
//!
//! A failure met while encoding a value as TOML (`toml::ser::Error`) or while
//! decoding TOML text (`toml::de::Error`) is turned into a
//! `cdumay_error::Error` of the kind `TomlData`: message id `TOML-00001`,
//! status 400, description `Invalid Toml data`. The caller supplies the
//! message and a context map; both are carried into the error unchanged.
//!
//! - [`TomlSerializeErrorConverter`] and [`TomlDeserializeErrorConverter`]
//!   convert a failure that the caller has in hand.
//! - [`convert_serialize_result`] and [`convert_deserialize_result`] take the
//!   `Result` of an encode or decode call, pass a success through and convert
//!   a failure.
//! - [`TomlErrorVariant`] names the two directions, and [`toml_data`] is the
//!   kind that they share.

pub mod adapt;
pub mod convert;
pub mod foreign;
pub mod kind;
pub mod record;
pub mod variant;

pub use adapt::{convert_deserialize_result, convert_serialize_result};
pub use convert::{TomlDeserializeErrorConverter, TomlSerializeErrorConverter};
pub use kind::toml_data;
pub use variant::TomlErrorVariant;
