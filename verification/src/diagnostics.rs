//! The diagnostic messages that accompany every failed load. A missing file
//! is reported with the offending path; content of the wrong shape is
//! reported with the target type it failed to match.

use vstd::prelude::*;
use vstd::string::*;

verus! {

/// Diagnostic for a configuration file that is missing or unreadable,
/// naming the offending path.
pub open spec fn missing_file_msg_spec(path: Seq<char>) -> Seq<char> {
    "Error loading configuration file "@ + path + ", please check the configuration!"@
}

/// Diagnostic for an environment file whose structured content does not
/// match the `EnvConfig` shape.
pub open spec fn env_shape_msg_spec() -> Seq<char> {
    "Failed to convert configuration data to an EnvConfig object, please check the configuration!"@
}

/// Diagnostic for a profile file whose structured content does not match
/// the `GlobalConfig` shape.
pub open spec fn profile_shape_msg_spec() -> Seq<char> {
    "Failed to convert configuration data to a GlobalConfig object, please check the configuration!"@
}

/// Builds the missing-file diagnostic for `path`.
pub fn missing_file_msg(path: &str) -> (r: String)
    ensures
        r@ == missing_file_msg_spec(path@),
{
    String::from_str("Error loading configuration file ").concat(path).concat(
        ", please check the configuration!",
    )
}

/// Builds the diagnostic for an environment file of the wrong shape.
pub fn env_shape_msg() -> (r: String)
    ensures
        r@ == env_shape_msg_spec(),
{
    String::from_str(
        "Failed to convert configuration data to an EnvConfig object, please check the configuration!",
    )
}

/// Builds the diagnostic for a profile file of the wrong shape.
pub fn profile_shape_msg() -> (r: String)
    ensures
        r@ == profile_shape_msg_spec(),
{
    String::from_str(
        "Failed to convert configuration data to a GlobalConfig object, please check the configuration!",
    )
}

} // verus!
