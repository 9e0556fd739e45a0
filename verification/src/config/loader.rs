//! Configuration file location: `<config dir>/ttsandsttp/config.toml`.

use vstd::prelude::*;
use crate::utils::path::{join, path_join};

verus! {

/// Configuration loader
pub struct ConfigLoader;

impl ConfigLoader {
    /// The application's configuration directory under the user's
    /// configuration directory.
    pub fn config_dir(user_config_dir: &str) -> (r: String)
        ensures
            r@ == path_join(user_config_dir@, "ttsandsttp"@),
    {
        join(user_config_dir, "ttsandsttp")
    }

    /// The configuration file under the user's configuration directory.
    pub fn config_path(user_config_dir: &str) -> (r: String)
        ensures
            r@ == path_join(path_join(user_config_dir@, "ttsandsttp"@), "config.toml"@),
    {
        let dir = Self::config_dir(user_config_dir);
        join(dir.as_str(), "config.toml")
    }
}

} // verus!
