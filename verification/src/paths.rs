//! The fixed filesystem layout of the configuration: one environment file at
//! a known path, and one profile file per profile name, built from a fixed
//! directory, prefix and extension.

use vstd::prelude::*;
use vstd::string::*;

verus! {

/// The fixed path of the environment file.
pub open spec fn env_file_path_spec() -> Seq<char> {
    "resources/application.yml"@
}

/// The path of the profile file for a profile name: the fixed directory and
/// prefix, then the name, then the fixed extension.
pub open spec fn profile_file_path_spec(active: Seq<char>) -> Seq<char> {
    "resources/application-"@ + active + ".yml"@
}

/// The environment file's path, as a `String` for callers that read files.
pub fn env_file_path() -> (r: String)
    ensures
        r@ == env_file_path_spec(),
{
    String::from_str("resources/application.yml")
}

/// Builds the path of the profile file that belongs to `active`.
pub fn profile_file_path(active: &str) -> (r: String)
    ensures
        r@ == profile_file_path_spec(active@),
{
    String::from_str("resources/application-").concat(active).concat(".yml")
}

} // verus!
