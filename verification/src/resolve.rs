//! The two-stage configuration resolution. Reading and deserializing files
//! is the caller's work; it reports each stage's observation as an event,
//! and the resolver decides what follows: abort with a diagnostic, yield
//! nothing with a reported message, read the profile file, or hand out the
//! resolved configuration.
//!
//! The error policy is two-tier. A file that cannot be read, or structured
//! content of the wrong shape, is unrecoverable (`Fatal`). Content that is
//! not valid structured data at all is a soft miss: the parser's message is
//! reported and no configuration is produced, but nothing further is read.

use vstd::prelude::*;
use crate::diagnostics::{
    env_shape_msg, env_shape_msg_spec, missing_file_msg, missing_file_msg_spec,
    profile_shape_msg, profile_shape_msg_spec,
};
use crate::models::{EnvConfig, GlobalConfig};
use crate::paths::{env_file_path, env_file_path_spec, profile_file_path, profile_file_path_spec};

verus! {

/// What reading and deserializing the environment file observed.
pub enum EnvEvent {
    /// The file is missing or could not be read.
    FileMissing,
    /// The text is not valid structured data; the payload is the parser's
    /// own message.
    Malformed(String),
    /// Valid structured data that does not fit `EnvConfig`.
    BadShape,
    /// A well-formed environment configuration.
    Parsed(EnvConfig),
}

/// The resolver's decision after the environment stage.
pub enum EnvStep {
    /// Unrecoverable: abort with this diagnostic.
    Fatal(String),
    /// Soft miss: report this message and yield no configuration. No
    /// profile file is read.
    SoftMiss(String),
    /// Continue: read the profile file at this path.
    ReadProfile(String),
}

/// What reading and deserializing the profile file observed.
pub enum ProfileEvent {
    /// The file is missing or could not be read.
    FileMissing,
    /// The text is not valid structured data; the payload is the parser's
    /// own message.
    Malformed(String),
    /// Valid structured data that does not fit `GlobalConfig`.
    BadShape,
    /// A well-formed global configuration.
    Parsed(GlobalConfig),
}

/// The outcome of the whole two-stage load.
pub enum LoadResult {
    /// Unrecoverable: abort with this diagnostic.
    Fatal(String),
    /// No configuration; this message is reported instead.
    Empty(String),
    /// The resolved configuration, exactly as the profile file carried it.
    Ready(GlobalConfig),
}

/// Decides the environment stage. A missing file is fatal with a diagnostic
/// naming the environment file's fixed path; malformed text is a soft miss
/// carrying the parser's message; content of the wrong shape is fatal; and
/// only a parsed environment leads on to a profile read, at the path derived
/// from the active profile's name.
pub fn resolve_env(ev: EnvEvent) -> (r: EnvStep)
    ensures
        r is ReadProfile <==> ev is Parsed,
        ev is FileMissing ==> (r matches EnvStep::Fatal(m)
            && m@ == missing_file_msg_spec(env_file_path_spec())),
        ev matches EnvEvent::Malformed(e) ==> (r matches EnvStep::SoftMiss(m) && m@ == e@),
        ev is BadShape ==> (r matches EnvStep::Fatal(m) && m@ == env_shape_msg_spec()),
        ev matches EnvEvent::Parsed(c) ==> (r matches EnvStep::ReadProfile(p)
            && p@ == profile_file_path_spec(c.profiles.active@)),
{
    match ev {
        EnvEvent::FileMissing => EnvStep::Fatal(missing_file_msg(env_file_path().as_str())),
        EnvEvent::Malformed(e) => EnvStep::SoftMiss(e),
        EnvEvent::BadShape => EnvStep::Fatal(env_shape_msg()),
        EnvEvent::Parsed(c) => {
            EnvStep::ReadProfile(profile_file_path(c.profiles.active.as_str()))
        },
    }
}

/// Decides the profile stage, for the profile file at `path`. The policy
/// mirrors the environment stage: missing file fatal (naming `path`),
/// malformed text a soft miss, wrong shape fatal; a parsed configuration is
/// handed out unchanged.
pub fn resolve_profile(path: &str, ev: ProfileEvent) -> (r: LoadResult)
    ensures
        r is Ready <==> ev is Parsed,
        ev is FileMissing ==> (r matches LoadResult::Fatal(m)
            && m@ == missing_file_msg_spec(path@)),
        ev matches ProfileEvent::Malformed(e) ==> (r matches LoadResult::Empty(m) && m@ == e@),
        ev is BadShape ==> (r matches LoadResult::Fatal(m) && m@ == profile_shape_msg_spec()),
        ev matches ProfileEvent::Parsed(c) ==> (r matches LoadResult::Ready(g) && g == c),
{
    match ev {
        ProfileEvent::FileMissing => LoadResult::Fatal(missing_file_msg(path)),
        ProfileEvent::Malformed(e) => LoadResult::Empty(e),
        ProfileEvent::BadShape => LoadResult::Fatal(profile_shape_msg()),
        ProfileEvent::Parsed(c) => LoadResult::Ready(c),
    }
}

/// Sequences the two stages: environment first, then — only when the
/// environment parsed — the profile. `profile_ev` reports the profile-file
/// read that the environment stage requested, so it is present exactly when
/// the environment parsed; the caller reads that file at the derived path.
///
/// A configuration comes out exactly when both files parsed, and it is the
/// one the profile file carried, with no field lost or altered. On a
/// malformed environment file the result is `Empty` with the parser's
/// message, and no profile event is consumed.
pub fn load_conf(env_ev: EnvEvent, profile_ev: Option<ProfileEvent>) -> (r: LoadResult)
    requires
        profile_ev is Some <==> env_ev is Parsed,
    ensures
        r is Ready <==> (env_ev is Parsed && profile_ev->0 is Parsed),
        env_ev is FileMissing ==> (r matches LoadResult::Fatal(m)
            && m@ == missing_file_msg_spec(env_file_path_spec())),
        env_ev matches EnvEvent::Malformed(e) ==> (r matches LoadResult::Empty(m) && m@ == e@),
        env_ev is BadShape ==> (r matches LoadResult::Fatal(m) && m@ == env_shape_msg_spec()),
        env_ev matches EnvEvent::Parsed(c) ==> (match profile_ev->0 {
            ProfileEvent::FileMissing => (r matches LoadResult::Fatal(m)
                && m@ == missing_file_msg_spec(profile_file_path_spec(c.profiles.active@))),
            ProfileEvent::Malformed(e) => (r matches LoadResult::Empty(m) && m@ == e@),
            ProfileEvent::BadShape => (r matches LoadResult::Fatal(m)
                && m@ == profile_shape_msg_spec()),
            ProfileEvent::Parsed(g) => (r matches LoadResult::Ready(got) && got == g),
        }),
{
    match resolve_env(env_ev) {
        EnvStep::Fatal(m) => LoadResult::Fatal(m),
        EnvStep::SoftMiss(m) => LoadResult::Empty(m),
        EnvStep::ReadProfile(path) => {
            let ev = profile_ev.unwrap();
            resolve_profile(path.as_str(), ev)
        },
    }
}

} // verus!
