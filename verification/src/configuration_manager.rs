//! The settings in use, kept in step with where they are saved.
use vstd::prelude::*;

use crate::configuration::{
    apply_change, default_configuration, ConfigurationChange, ConfigurationModel,
    PassivateConfiguration,
};
use crate::configuration_errors::{ConfigurationLoadError, ConfigurationPersistError};
use crate::configuration_source::ConfigurationSource;

verus! {

/// The settings in use and, if they came from one, the source they are saved to.
pub struct ConfigurationManager<TSource: ConfigurationSource<PassivateConfiguration>> {
    configuration: PassivateConfiguration,
    source: Option<TSource>,
}

/// The settings a manager starts with, given what its source's load gave:
/// the loaded settings, the defaults if none were saved, or the load error.
pub open spec fn loaded_configuration(
    loaded: Result<Option<PassivateConfiguration>, ConfigurationLoadError>,
) -> Result<ConfigurationModel, ConfigurationLoadError> {
    match loaded {
        Ok(Some(c)) => Ok(c@),
        Ok(None) => Ok(default_configuration()),
        Err(e) => Err(e),
    }
}

/// Whether `r` is the manager (or the error) made for `source` from what its
/// load gave, `loaded`: the loaded settings, the defaults if none were saved,
/// or the load error.
pub open spec fn managed_from<TSource: ConfigurationSource<PassivateConfiguration>>(
    source: TSource,
    loaded: Result<Option<PassivateConfiguration>, ConfigurationLoadError>,
    r: Result<ConfigurationManager<TSource>, ConfigurationLoadError>,
) -> bool {
    match loaded_configuration(loaded) {
        Ok(c) => r matches Ok(m) && m.configuration_view() == c && m.source_view() == Some(source),
        Err(e) => r == Err::<ConfigurationManager<TSource>, ConfigurationLoadError>(e),
    }
}

impl<TSource: ConfigurationSource<PassivateConfiguration>> ConfigurationManager<TSource> {
    /// The settings in use.
    pub closed spec fn configuration_view(&self) -> ConfigurationModel {
        self.configuration@
    }

    /// The source the settings are saved to, if any.
    pub closed spec fn source_view(&self) -> Option<TSource> {
        self.source
    }

    /// A manager of `configuration` that saves nowhere.
    pub fn new(configuration: PassivateConfiguration) -> (r: Self)
        ensures
            r.configuration_view() == configuration@,
            r.source_view() is None,
    {
        ConfigurationManager { configuration, source: None }
    }

    /// A manager of the settings that `source` loads (the defaults if it
    /// holds none), saving changes back to `source`; a load error is
    /// returned as it is.
    pub fn from_source(source: TSource) -> (r: Result<Self, ConfigurationLoadError>)
        ensures
            exists|loaded: Result<Option<PassivateConfiguration>, ConfigurationLoadError>|
                #[trigger] source.loaded(loaded) && managed_from(source, loaded, r),
    {
        let loaded = source.load();
        let ghost l = loaded;
        let r = Self::from_loaded(source, loaded);
        assert(source.loaded(l) && managed_from(source, l, r));
        r
    }

    /// A manager saving to `source`, given what `source`'s load gave.
    pub fn from_loaded(
        source: TSource,
        loaded: Result<Option<PassivateConfiguration>, ConfigurationLoadError>,
    ) -> (r: Result<Self, ConfigurationLoadError>)
        ensures
            managed_from(source, loaded, r),
    {
        match loaded {
            Ok(Some(configuration)) => Ok(ConfigurationManager { configuration, source: Some(source) }),
            Ok(None) => Ok(
                ConfigurationManager {
                    configuration: PassivateConfiguration::default(),
                    source: Some(source),
                },
            ),
            Err(e) => Err(e),
        }
    }

    /// Applies `change` and, if there is a source, saves the changed
    /// settings to it. The change stays applied even if saving fails; the
    /// save's error is returned. Without a source this always succeeds.
    pub fn change(&mut self, change: ConfigurationChange) -> (r: Result<(), ConfigurationPersistError>)
        ensures
            final(self).configuration_view() == apply_change(old(self).configuration_view(), change@),
            final(self).source_view() == old(self).source_view(),
            old(self).source_view() is None ==> r is Ok,
            old(self).source_view() matches Some(s) ==> s.persisted(
                final(self).configuration_ref_view(),
                r,
            ),
    {
        self.configuration.change(change);
        match &self.source {
            Some(source) => source.persist(&self.configuration),
            None => Ok(()),
        }
    }

    /// What `get` computes from the settings in use.
    pub fn get<TValue, TGet: Fn(&PassivateConfiguration) -> TValue>(&self, get: TGet) -> (r: TValue)
        requires
            get.requires((&self.configuration_ref_view(),)),
        ensures
            get.ensures((&self.configuration_ref_view(),), r),
    {
        get(&self.configuration)
    }

    /// The settings in use, as held.
    pub closed spec fn configuration_ref_view(&self) -> PassivateConfiguration {
        self.configuration
    }

    /// The settings in use, as held, have as their view the settings in use.
    pub proof fn lemma_held_settings(&self)
        ensures
            self.configuration_ref_view()@ == self.configuration_view(),
    {
    }

    /// The settings in use.
    pub fn acquire(&self) -> (r: &PassivateConfiguration)
        ensures
            *r == self.configuration_ref_view(),
            r@ == self.configuration_view(),
    {
        &self.configuration
    }
}

impl<TSource: ConfigurationSource<PassivateConfiguration>> Default for ConfigurationManager<TSource> {
    fn default() -> (r: Self)
        ensures
            r.configuration_view() == default_configuration(),
            r.source_view() is None,
    {
        Self::new(PassivateConfiguration::default())
    }
}

} // verus!
