//! The user configuration file's contents.
use vstd::prelude::*;
use crate::data::models::clone_opt_string;

verus! {

/// Settings the user can put in `config.toml`; any of them may be absent.
pub struct Config {
    pub data_dir: Option<String>,
    pub default_preset: Option<String>,
    pub theme: Option<String>,
}

impl Default for Config {
    fn default() -> (r: Config)
        ensures
            r.data_dir is None,
            r.default_preset is None,
            r.theme is None,
    {
        Config { data_dir: None, default_preset: None, theme: None }
    }
}

impl Config {
    pub fn duplicate(&self) -> (r: Config)
        ensures
            r == *self,
    {
        Config {
            data_dir: clone_opt_string(&self.data_dir),
            default_preset: clone_opt_string(&self.default_preset),
            theme: clone_opt_string(&self.theme),
        }
    }
}

} // verus!
