//! Persistent application settings.
use vstd::prelude::*;
use std::path::PathBuf;

verus! {

/// Declares `std::path::PathBuf` so that a settings entry can hold one; its
/// contents are never read by verified code.
#[verifier::external_type_specification]
#[verifier::external_body]
pub struct ExPathBuf(PathBuf);

/// `Clone::clone` of `std::path::PathBuf`, which the derived `Clone` of the
/// settings calls: std documents it as returning a copy of the path, so the
/// result is taken to equal the original.
pub assume_specification[ <PathBuf as Clone>::clone ](p: &PathBuf) -> (r: PathBuf)
    ensures
        r == *p,
;

/// A VPN configuration remembered in the settings.
#[derive(Clone, Debug)]
pub struct VpnConfig {
    pub name: String,
    pub config_path: PathBuf,
    pub auto_connect: bool,
    pub save_credentials: bool,
}

/// The application settings.
#[derive(Clone, Debug)]
pub struct AppConfig {
    pub configs: Vec<VpnConfig>,
    pub last_used_config: Option<String>,
    pub auto_start: bool,
    pub minimize_to_tray: bool,
}

impl Default for AppConfig {
    /// No remembered configurations, no last used one, no auto start, and
    /// minimizing to the tray.
    fn default() -> (r: Self)
        ensures
            r.configs@.len() == 0,
            r.last_used_config is None,
            !r.auto_start,
            r.minimize_to_tray,
    {
        AppConfig {
            configs: Vec::new(),
            last_used_config: None,
            auto_start: false,
            minimize_to_tray: true,
        }
    }
}

} // verus!
