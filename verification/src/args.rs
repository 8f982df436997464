//! What the command line gives the service.

use crate::config::{entries_applied, load_entries, loaded_view, Config, ConfigEntry, ConfigError, ConfigView};
use vstd::prelude::*;

verus! {

/// The arguments of the service.
#[derive(Clone, Debug)]
pub struct Args {
    /// Path of the settings document, where one was named.
    pub config: Option<String>,
}

impl Args {
    /// The arguments of a service that was started with the given path of a
    /// settings document, or with none.
    pub fn new(config: Option<String>) -> (args: Self)
        ensures
            args.config == config,
    {
        Args { config }
    }

    /// The path of the settings document, where one was named.
    pub fn get_config_path(&self) -> (path: Option<&str>)
        ensures
            match self.config {
                Some(c) => path matches Some(p) && p@ == c@,
                None => path is None,
            },
    {
        match &self.config {
            Some(c) => Some(c.as_str()),
            None => None,
        }
    }
}

/// The settings that the service starts with, given its arguments and the
/// top-level lines of the settings document that they name. Where the
/// arguments name no document the settings are the defaults, whatever
/// `document` holds; where they name one, the settings are read from its
/// lines.
pub fn build_config(args: &Args, document: &Vec<ConfigEntry>) -> (r: Result<Config, ConfigError>)
    ensures
        loaded_view(r) == match args.config {
            Some(_) => entries_applied(ConfigView::default_spec(), document@),
            None => Ok(ConfigView::default_spec()),
        },
{
    match args.config {
        Some(_) => load_entries(document),
        None => Ok(Config::default()),
    }
}

} // verus!
