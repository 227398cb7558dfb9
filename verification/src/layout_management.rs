//! The docking layout in use, loaded from and saved to a source.
use vstd::prelude::*;

use crate::configuration_errors::{ConfigurationLoadError, ConfigurationPersistError};
use crate::configuration_source::ConfigurationSource;

verus! {

/// The docking layout in use, and the source it came from and is saved to.
#[derive(Debug)]
pub struct LayoutManagement<TLayout, TSource: ConfigurationSource<TLayout>> {
    current_layout: TLayout,
    source: TSource,
}

/// Whether `r` is the layout management (or the error) made for `source`
/// from what its load gave, `loaded`: the loaded layout, one that `default`
/// makes if none was saved, or the load error.
pub open spec fn managed_layout<TLayout, TSource: ConfigurationSource<TLayout>, FDefault: FnOnce() -> TLayout>(
    source: TSource,
    loaded: Result<Option<TLayout>, ConfigurationLoadError>,
    default: FDefault,
    r: Result<LayoutManagement<TLayout, TSource>, ConfigurationLoadError>,
) -> bool {
    match loaded {
        Ok(Some(layout)) => r matches Ok(m) && m.layout_view() == layout && m.source_view() == source,
        Ok(None) => r matches Ok(m) && default.ensures((), m.layout_view()) && m.source_view()
            == source,
        Err(e) => r matches Err(e2) && e2 == e,
    }
}

impl<TLayout, TSource: ConfigurationSource<TLayout>> LayoutManagement<TLayout, TSource> {
    /// The layout in use.
    pub closed spec fn layout_view(&self) -> TLayout {
        self.current_layout
    }

    /// The source of the layout.
    pub closed spec fn source_view(&self) -> TSource {
        self.source
    }

    /// The layout `source` holds, or the one `default` makes if it holds
    /// none; a load error is returned as it is.
    pub fn from_source_or_default<FDefault: FnOnce() -> TLayout>(source: TSource, default: FDefault) -> (r: Result<Self, ConfigurationLoadError>)
        requires
            default.requires(()),
        ensures
            exists|loaded: Result<Option<TLayout>, ConfigurationLoadError>|
                #[trigger] source.loaded(loaded) && managed_layout(source, loaded, default, r),
    {
        let loaded = source.load();
        let ghost l = loaded;
        let r = Self::from_loaded(source, loaded, default);
        assert(source.loaded(l) && managed_layout(source, l, default, r));
        r
    }

    /// The layout management for `source`, given what its load gave.
    pub fn from_loaded<FDefault: FnOnce() -> TLayout>(
        source: TSource,
        loaded: Result<Option<TLayout>, ConfigurationLoadError>,
        default: FDefault,
    ) -> (r: Result<Self, ConfigurationLoadError>)
        requires
            default.requires(()),
        ensures
            managed_layout(source, loaded, default, r),
    {
        match loaded {
            Ok(Some(layout)) => Ok(LayoutManagement { current_layout: layout, source }),
            Ok(None) => Ok(LayoutManagement { current_layout: default(), source }),
            Err(e) => Err(e),
        }
    }

    /// The layout in use, to change in place.
    pub fn get_current(&mut self) -> (r: &mut TLayout)
        ensures
            *r == old(self).layout_view(),
            final(self).layout_view() == *final(r),
            final(self).source_view() == old(self).source_view(),
    {
        &mut self.current_layout
    }

    /// Saves the layout in use to its source (done when the layout
    /// management is dropped).
    pub fn persist(&self) -> (r: Result<(), ConfigurationPersistError>)
        ensures
            self.source_view().persisted(self.layout_view(), r),
    {
        self.source.persist(&self.current_layout)
    }
}

} // verus!
