//! Where settings are loaded from and saved to.
use vstd::prelude::*;

use crate::configuration_errors::{ConfigurationLoadError, ConfigurationPersistError};

verus! {

/// A place settings of type `T` are loaded from and saved to, such as a
/// file. `loaded` and `persisted` say what a load can give and what a save
/// of given settings can answer; each implementation gives its own, and the
/// defaults (which say nothing) only let implementations outside verified
/// code leave them out.
pub trait ConfigurationSource<T> {
    /// Whether `result` is what a load from this source gave.
    open spec fn loaded(&self, result: Result<Option<T>, ConfigurationLoadError>) -> bool {
        true
    }

    /// Whether `result` is what saving `configuration` to this source
    /// answered.
    open spec fn persisted(&self, configuration: T, result: Result<(), ConfigurationPersistError>) -> bool {
        true
    }

    /// The saved settings, or `None` if none were saved yet.
    fn load(&self) -> (r: Result<Option<T>, ConfigurationLoadError>)
        ensures
            self.loaded(r),
    ;

    /// Saves `configuration`.
    fn persist(&self, configuration: &T) -> (r: Result<(), ConfigurationPersistError>)
        ensures
            self.persisted(*configuration, r),
    ;
}

} // verus!
