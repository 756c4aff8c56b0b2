//! Why the configuration could not be loaded or saved.

use vstd::prelude::*;

verus! {

/// Why the configuration could not be loaded or saved. Every variant
/// carries a message fit for display.
#[derive(Debug, Clone, PartialEq, Eq)]
pub enum ConfigError {
    /// The home directory could not be found.
    NotFound(String),
    /// The file or its directory could not be read, written or created.
    Io(String),
    /// The text is malformed or does not fit the schema.
    Parse(String),
}

/// Mathematical model of [`ConfigError`].
pub enum ConfigErrorView {
    NotFound(Seq<char>),
    Io(Seq<char>),
    Parse(Seq<char>),
}

impl View for ConfigError {
    type V = ConfigErrorView;

    open spec fn view(&self) -> ConfigErrorView {
        match self {
            ConfigError::NotFound(m) => ConfigErrorView::NotFound(m@),
            ConfigError::Io(m) => ConfigErrorView::Io(m@),
            ConfigError::Parse(m) => ConfigErrorView::Parse(m@),
        }
    }
}

impl ConfigErrorView {
    /// The message of the error.
    pub open spec fn message(self) -> Seq<char> {
        match self {
            ConfigErrorView::NotFound(m) => m,
            ConfigErrorView::Io(m) => m,
            ConfigErrorView::Parse(m) => m,
        }
    }
}

impl ConfigError {
    /// The message of the error, fit for display.
    pub fn message(&self) -> (text: String)
        ensures
            text@ == self@.message(),
    {
        match self {
            ConfigError::NotFound(m) => m.clone(),
            ConfigError::Io(m) => m.clone(),
            ConfigError::Parse(m) => m.clone(),
        }
    }
}

} // verus!
