//! A configuration that can be reloaded.

use vstd::prelude::*;
use crate::accessor::ParsableAccessor;
use crate::config::builder::failed_in;
use crate::config::builder::loaded_in_order;
use crate::config::builder::ConfigBuilder;
use crate::config::error::ConfigError;
use crate::config::layers::agrees;
use crate::config::layers::found;
use crate::config::layers::Layers;
use crate::element::ConfigElement;
use crate::object::ConfigObject;
use crate::source::ConfigSource;
use crate::source::SourceError;

verus! {

/// A configuration: its sources and the layers that were loaded from them.
pub struct Config {
    builder: ConfigBuilder,
    layers: Layers,
}

impl Config {
    /// The sources of this configuration, in the order in which they are
    /// loaded.
    pub closed spec fn sources(&self) -> Seq<Box<dyn ConfigSource>> {
        self.builder.sources()
    }

    /// The layers of this configuration, the most overriding one last.
    pub closed spec fn stack(&self) -> Seq<ConfigObject> {
        self.layers@
    }

    /// A builder without sources.
    pub fn builder() -> (builder: ConfigBuilder)
        ensures
            builder.sources() == Seq::<Box<dyn ConfigSource>>::empty(),
    {
        ConfigBuilder::new()
    }

    /// Loads every source of `builder` and keeps the builder for later
    /// reloads.
    pub fn build_from_builder(builder: ConfigBuilder) -> (built: Result<Self, ConfigError>)
        ensures
            match built {
                Ok(config) => config.sources() == builder.sources() && loaded_in_order(
                    builder.sources(),
                    config.stack(),
                ),
                Err(error) => error matches ConfigError::SourceError(failure) && failed_in(
                    builder.sources(),
                    failure,
                ),
            },
    {
        let loaded = builder.reload();
        Config::from_loaded(builder, loaded)
    }

    /// The configuration of `builder` with the layers that loading its
    /// sources came to, or the error of that loading.
    pub fn from_loaded(builder: ConfigBuilder, loaded: Result<Layers, SourceError>) -> (built:
        Result<Self, ConfigError>)
        ensures
            match loaded {
                Ok(layers) => built matches Ok(config) && config.stack() == layers@
                    && config.sources() == builder.sources(),
                Err(error) => built matches Err(ConfigError::SourceError(e)) && e == error,
            },
    {
        match loaded {
            Ok(layers) => Ok(Config { layers, builder }),
            Err(error) => Err(ConfigError::SourceError(error)),
        }
    }

    /// Loads every source anew and puts what was loaded in the place of the
    /// layers with [`Config::replace_layers`]. No layer of the old stack
    /// stays: every layer is then one that its source loaded in this reload.
    /// Where a source fails, the configuration stays as it was.
    pub fn reload(&mut self) -> (reloaded: Result<(), ConfigError>)
        ensures
            final(self).sources() == old(self).sources(),
            match reloaded {
                Ok(_) => loaded_in_order(final(self).sources(), final(self).stack()),
                Err(error) => error matches ConfigError::SourceError(failure) && failed_in(
                    old(self).sources(),
                    failure,
                ) && final(self).stack() == old(self).stack(),
            },
    {
        let loaded = self.builder.reload();
        self.replace_layers(loaded)
    }

    /// Puts the layers that a new loading of the sources came to in the
    /// place of the old ones, all of them at once: nothing of the old stack
    /// stays. Where the loading failed, the configuration stays as it was
    /// and the error is handed on.
    pub fn replace_layers(&mut self, loaded: Result<Layers, SourceError>) -> (replaced: Result<
        (),
        ConfigError,
    >)
        ensures
            final(self).sources() == old(self).sources(),
            match loaded {
                Ok(layers) => replaced is Ok && final(self).stack() == layers@,
                Err(error) => replaced matches Err(ConfigError::SourceError(e)) && e == error
                    && final(self).stack() == old(self).stack(),
            },
    {
        match loaded {
            Ok(layers) => {
                self.layers = layers;
                Ok(())
            },
            Err(error) => Err(ConfigError::SourceError(error)),
        }
    }

    /// The layers of this configuration.
    pub fn layers(&self) -> (layers: &Layers)
        ensures
            layers@ == self.stack(),
    {
        &self.layers
    }

    /// Parses `accessor` and looks the path up in the layers.
    pub fn get<A: ParsableAccessor>(&self, accessor: A) -> (outcome: Result<
        Option<&ConfigElement>,
        ConfigError,
    >)
        ensures
            match accessor.denotes() {
                Some(path) => agrees(outcome, found(self.stack(), path, None)),
                None => outcome matches Err(ConfigError::AccessorParseError(_)),
            },
    {
        self.layers.get(accessor)
    }
}

} // verus!
