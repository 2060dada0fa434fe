//! Passive data definitions: the environment descriptor and the resolved
//! global configuration.

use vstd::prelude::*;

verus! {

/// Names the active deployment profile (for example dev, test or prod).
#[derive(Debug)]
pub struct Profiles {
    pub active: String,
}

/// Contents of the environment file. Its one job is to name the active
/// profile, which decides which profile file is read next.
#[derive(Debug)]
pub struct EnvConfig {
    pub profiles: Profiles,
}

/// Database connection settings carried by the profile file.
#[derive(Debug)]
pub struct MysqlConfig {
    pub host: String,
    pub port: u16,
    pub user: String,
}

/// The resolved process-wide configuration.
#[derive(Debug)]
pub struct GlobalConfig {
    pub mysql: MysqlConfig,
}

} // verus!
