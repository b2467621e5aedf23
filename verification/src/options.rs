//! The initialization payload sent to the server once it runs.

use vstd::prelude::*;
use crate::launch::ConfigError;

verus! {

/// `serde_json::Value`, the JSON document type in which the host takes an
/// initialization payload. The library only carries such values; nothing is
/// claimed about what one holds.
#[verifier::external_type_specification]
#[verifier::external_body]
pub struct ExJsonValue(serde_json::Value);

/// The initialization options for the server: there are none, for any
/// identifier, and asking never fails.
pub fn initialization_options(server_id: &str) -> (r: Result<
    Option<serde_json::Value>,
    ConfigError,
>)
    ensures
        r == Ok::<Option<serde_json::Value>, ConfigError>(None),
{
    Ok(None)
}

} // verus!
