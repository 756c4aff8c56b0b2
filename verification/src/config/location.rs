//! Where the configuration is kept: one fixed file below the user's home
//! directory.

use vstd::prelude::*;
use vstd::string::StringExecFns;
use crate::config::error::ConfigError;
use crate::config::error::ConfigErrorView;
use crate::text::joined;
use crate::text::text_of;

verus! {

/// The directory of the configuration file, `<home>/.config/ostt`, or the
/// `NotFound` error of an unknown home directory.
pub open spec fn spec_config_dir(home: Option<Seq<char>>) -> Result<Seq<char>, ConfigErrorView> {
    match home {
        Some(home) => Ok(home + "/.config/ostt"@),
        None => Err(ConfigErrorView::NotFound("Could not find home directory"@)),
    }
}

/// The configuration file, `ostt.toml` in the configuration directory.
pub open spec fn spec_config_path(home: Option<Seq<char>>) -> Result<Seq<char>, ConfigErrorView> {
    match spec_config_dir(home) {
        Ok(dir) => Ok(dir + "/ostt.toml"@),
        Err(error) => Err(error),
    }
}

/// The view of a path that may have failed to resolve.
pub open spec fn located_view(located: Result<String, ConfigError>) -> Result<
    Seq<char>,
    ConfigErrorView,
> {
    match located {
        Ok(path) => Ok(path@),
        Err(error) => Err(error@),
    }
}

/// The directory that holds the configuration file:
/// `<home>/.config/ostt`. Fails with `NotFound` exactly when the home
/// directory is unknown.
pub fn config_dir(home: &Option<String>) -> (located: Result<String, ConfigError>)
    ensures
        located_view(located) == spec_config_dir(text_of(*home)),
{
    match home {
        Some(home) => Ok(joined(home.as_str(), "/.config/ostt")),
        None => Err(ConfigError::NotFound(String::from_str("Could not find home directory"))),
    }
}

/// The configuration file: `<home>/.config/ostt/ostt.toml`. Fails with
/// `NotFound` exactly when the home directory is unknown.
pub fn config_path(home: &Option<String>) -> (located: Result<String, ConfigError>)
    ensures
        located_view(located) == spec_config_path(text_of(*home)),
{
    match config_dir(home) {
        Ok(dir) => Ok(joined(dir.as_str(), "/ostt.toml")),
        Err(error) => Err(error),
    }
}

} // verus!
