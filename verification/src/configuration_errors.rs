//! Why settings could not be loaded or saved.
use vstd::prelude::*;

verus! {

/// Why settings could not be loaded.
#[derive(Debug, Clone, PartialEq, Eq)]
pub enum ConfigurationLoadError {
    /// Reading the settings failed.
    Io(String),
    /// The settings were not UTF-8 text.
    Utf8(String),
    /// The settings text could not be parsed.
    Toml(String),
}

/// Why settings could not be saved.
#[derive(Debug, Clone, PartialEq, Eq)]
pub enum ConfigurationPersistError {
    /// Writing the settings failed.
    Io(String),
    /// The settings path has no parent directory.
    Path(String),
    /// The settings could not be written as text.
    Toml(String),
}

/// Why settings could not be loaded or saved.
#[derive(Debug, Clone, PartialEq, Eq)]
pub enum ConfigurationError {
    Load(ConfigurationLoadError),
    Persist(ConfigurationPersistError),
}

} // verus!
