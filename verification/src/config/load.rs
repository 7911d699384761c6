//! Which configuration is in force after a load.

use crate::config::types::Config;
use vstd::prelude::*;

verus! {

/// Directory of the configuration where the user has none.
pub const FALLBACK_CONFIG_DIR: &'static str = "/tmp";

/// The configuration file, below the configuration directory.
pub const CONFIG_FILE: &'static str = "lunaris/notifications.toml";

/// The configuration in force: the one that was read, or the default where the
/// file is missing or cannot be parsed.
pub fn load_config(parsed: Option<Config>) -> (r: Config)
    ensures
        parsed matches Some(config) ==> r == config,
        parsed is None ==> r.is_default(),
{
    match parsed {
        Some(config) => config,
        None => Config::default(),
    }
}

} // verus!
