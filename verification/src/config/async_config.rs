//! A configuration whose loading is left to the caller.

use vstd::prelude::*;
use crate::config::async_builder::AsyncConfigBuilder;
use crate::config::error::ConfigError;
use crate::config::layers::Layers;
use crate::object::ConfigObject;
use crate::source::SourceError;

verus! {

/// A configuration whose sources are loaded outside of this crate: the
/// sources and the layers that were last handed in for them.
pub struct AsyncConfig<S> {
    builder: AsyncConfigBuilder<S>,
    layers: Layers,
}

impl<S> AsyncConfig<S> {
    /// The layers of this configuration, the most overriding one last.
    pub closed spec fn stack(&self) -> Seq<ConfigObject> {
        self.layers@
    }

    /// The sources of this configuration.
    pub closed spec fn sources(&self) -> AsyncConfigBuilder<S> {
        self.builder
    }

    /// A builder without sources.
    pub fn builder() -> (builder: AsyncConfigBuilder<S>)
        ensures
            builder.layer_sources() == Seq::<S>::empty(),
            builder.default_sources() == Seq::<S>::empty(),
            builder.overwrite_sources() == Seq::<S>::empty(),
    {
        AsyncConfigBuilder::new()
    }

    /// The configuration of `builder` with the layers that loading its
    /// sources came to, or the error of that loading.
    pub fn build_from_builder(
        builder: AsyncConfigBuilder<S>,
        loaded: Result<Layers, SourceError>,
    ) -> (built: Result<Self, ConfigError>)
        ensures
            match loaded {
                Ok(layers) => built matches Ok(config) && config.stack() == layers@
                    && config.sources() == builder,
                Err(error) => built matches Err(ConfigError::SourceError(e)) && e == error,
            },
    {
        match loaded {
            Ok(layers) => Ok(Self { layers, builder }),
            Err(error) => Err(ConfigError::SourceError(error)),
        }
    }

    /// Puts the layers that a new loading of the sources came to in the
    /// place of the old ones, all of them at once. Where the loading failed,
    /// the configuration stays as it was and the error is handed on.
    pub fn reload(&mut self, loaded: Result<Layers, SourceError>) -> (reloaded: Result<
        (),
        ConfigError,
    >)
        ensures
            final(self).sources() == old(self).sources(),
            match loaded {
                Ok(layers) => reloaded is Ok && final(self).stack() == layers@,
                Err(error) => reloaded matches Err(ConfigError::SourceError(e)) && e == error
                    && final(self).stack() == old(self).stack(),
            },
    {
        match loaded {
            Ok(layers) => {
                self.layers = layers;
                Ok(())
            },
            Err(error) => Err(ConfigError::SourceError(error)),
        }
    }

    /// The sources of this configuration, for the caller to load.
    pub fn sources_to_load(&self) -> (builder: &AsyncConfigBuilder<S>)
        ensures
            *builder == self.sources(),
    {
        &self.builder
    }

    /// The layers of this configuration.
    pub fn layers(&self) -> (layers: &Layers)
        ensures
            layers@ == self.stack(),
    {
        &self.layers
    }
}

} // verus!
