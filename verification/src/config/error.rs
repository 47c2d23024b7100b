//! The error of the configuration as a whole.

use vstd::prelude::*;
use vstd::string::StringExecFns;
use vstd::std_specs::convert::FromSpecImpl;
use crate::accessor::AccessorParseError;
use crate::object::ConfigObjectAccessError;
use crate::source::SourceError;

verus! {

/// What can go wrong when a configuration is built, reloaded or read.
#[derive(Debug)]
pub enum ConfigError {
    /// The text of a path could not be parsed.
    AccessorParseError(AccessorParseError),
    /// A path did not fit the tree of a layer.
    ConfigObjectAccessError(ConfigObjectAccessError),
    /// A source could not be loaded.
    SourceError(SourceError),
    InternalRwLockPoisioned,
    NotLoaded,
}

impl From<AccessorParseError> for ConfigError {
    fn from(error: AccessorParseError) -> (e: Self) {
        ConfigError::AccessorParseError(error)
    }
}

impl FromSpecImpl<AccessorParseError> for ConfigError {
    open spec fn obeys_from_spec() -> bool {
        true
    }

    open spec fn from_spec(error: AccessorParseError) -> Self {
        ConfigError::AccessorParseError(error)
    }
}

impl From<ConfigObjectAccessError> for ConfigError {
    fn from(error: ConfigObjectAccessError) -> (e: Self) {
        ConfigError::ConfigObjectAccessError(error)
    }
}

impl FromSpecImpl<ConfigObjectAccessError> for ConfigError {
    open spec fn obeys_from_spec() -> bool {
        true
    }

    open spec fn from_spec(error: ConfigObjectAccessError) -> Self {
        ConfigError::ConfigObjectAccessError(error)
    }
}

impl From<SourceError> for ConfigError {
    fn from(error: SourceError) -> (e: Self) {
        ConfigError::SourceError(error)
    }
}

impl FromSpecImpl<SourceError> for ConfigError {
    open spec fn obeys_from_spec() -> bool {
        true
    }

    open spec fn from_spec(error: SourceError) -> Self {
        ConfigError::SourceError(error)
    }
}

impl ConfigError {
    /// What the message of this error says.
    pub open spec fn message_text(&self) -> Seq<char> {
        match self {
            ConfigError::AccessorParseError(_) => "Accessor parser error"@,
            ConfigError::ConfigObjectAccessError(_) => "Config object access error"@,
            ConfigError::SourceError(_) => "Error loading Source"@,
            ConfigError::InternalRwLockPoisioned => "RwLock poisoned"@,
            ConfigError::NotLoaded => "Configuration is not loaded"@,
        }
    }

    /// The message of this error for a reader.
    pub fn message(&self) -> (message: String)
        ensures
            message@ == self.message_text(),
    {
        match self {
            ConfigError::AccessorParseError(_) => String::from_str("Accessor parser error"),
            ConfigError::ConfigObjectAccessError(_) => String::from_str(
                "Config object access error",
            ),
            ConfigError::SourceError(_) => String::from_str("Error loading Source"),
            ConfigError::InternalRwLockPoisioned => String::from_str("RwLock poisoned"),
            ConfigError::NotLoaded => String::from_str("Configuration is not loaded"),
        }
    }
}

} // verus!
