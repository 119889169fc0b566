//! The runtime setting: where to connect and which files feed the source.
//! The platform layer fills it from its configuration file.

use vstd::prelude::*;

verus! {

/// The runtime setting.
#[derive(Debug, Clone)]
pub struct Setting {
    /// Server's IP address.
    pub server: String,
    /// Data connection port.
    pub port: u16,
    /// Path to the profile.
    pub profile_path: String,
    /// Path to source (video).
    pub source_path: String,
    /// Path to stat (per frame stat).
    pub stat_path: String,
}

} // verus!
