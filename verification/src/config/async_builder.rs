//! The sources of a configuration whose loading is left to the caller.

use vstd::prelude::*;
use crate::config::layers::gathered;
use crate::config::layers::Layers;
use crate::config::layers::Loaded;
use crate::source::SourceError;

verus! {

/// The sources of a configuration that is loaded outside of this crate, for
/// one by tasks that run side by side: the ordinary sources, the defaults
/// and the overwrites. `S` is the type of a source; this crate only keeps
/// the sources in order and stacks what the caller loaded from them.
pub struct AsyncConfigBuilder<S> {
    layers_builders: Vec<S>,
    defaults_builders: Vec<S>,
    overwrites_builders: Vec<S>,
}

impl<S> AsyncConfigBuilder<S> {
    /// The ordinary sources, in the order in which they were added.
    pub closed spec fn layer_sources(&self) -> Seq<S> {
        self.layers_builders@
    }

    /// The sources of defaults, in the order in which they were added.
    pub closed spec fn default_sources(&self) -> Seq<S> {
        self.defaults_builders@
    }

    /// The sources of overwrites, in the order in which they were added.
    pub closed spec fn overwrite_sources(&self) -> Seq<S> {
        self.overwrites_builders@
    }

    /// A builder without sources.
    pub fn new() -> (builder: Self)
        ensures
            builder.layer_sources() == Seq::<S>::empty(),
            builder.default_sources() == Seq::<S>::empty(),
            builder.overwrite_sources() == Seq::<S>::empty(),
    {
        Self {
            layers_builders: Vec::new(),
            defaults_builders: Vec::new(),
            overwrites_builders: Vec::new(),
        }
    }

    /// Adds `source` behind the ordinary sources.
    pub fn load(self, source: S) -> (builder: Self)
        ensures
            builder.layer_sources() == self.layer_sources().push(source),
            builder.default_sources() == self.default_sources(),
            builder.overwrite_sources() == self.overwrite_sources(),
    {
        let mut builder = self;
        builder.layers_builders.push(source);
        builder
    }

    /// Adds `source` behind the sources of defaults.
    pub fn load_default(self, source: S) -> (builder: Self)
        ensures
            builder.layer_sources() == self.layer_sources(),
            builder.default_sources() == self.default_sources().push(source),
            builder.overwrite_sources() == self.overwrite_sources(),
    {
        let mut builder = self;
        builder.defaults_builders.push(source);
        builder
    }

    /// Adds `source` behind the sources of overwrites.
    pub fn load_overwrite(self, source: S) -> (builder: Self)
        ensures
            builder.layer_sources() == self.layer_sources(),
            builder.default_sources() == self.default_sources(),
            builder.overwrite_sources() == self.overwrite_sources().push(source),
    {
        let mut builder = self;
        builder.overwrites_builders.push(source);
        builder
    }

    /// The ordinary sources, for the caller to load.
    pub fn layers(&self) -> (sources: &Vec<S>)
        ensures
            sources@ == self.layer_sources(),
    {
        &self.layers_builders
    }

    /// The sources of defaults, for the caller to load.
    pub fn defaults(&self) -> (sources: &Vec<S>)
        ensures
            sources@ == self.default_sources(),
    {
        &self.defaults_builders
    }

    /// The sources of overwrites, for the caller to load.
    pub fn overwrites(&self) -> (sources: &Vec<S>)
        ensures
            sources@ == self.overwrite_sources(),
    {
        &self.overwrites_builders
    }

    /// Stacks what the caller loaded: the results for the overwrites, then
    /// those for the ordinary sources, then those for the defaults, each
    /// group in the order given. The first failure in that order is the
    /// outcome; where nothing failed, the outcome is the stack of all
    /// objects in that order.
    pub fn reload(overrides: Vec<Loaded>, layers: Vec<Loaded>, defaults: Vec<Loaded>) -> (stacked:
        Result<Layers, SourceError>)
        ensures
            match gathered(overrides@ + layers@ + defaults@) {
                Ok(objects) => stacked matches Ok(stack) && stack@ == objects,
                Err(error) => stacked == Err::<Layers, _>(error),
            },
    {
        Layers::from_loaded(overrides, layers, defaults)
    }
}

} // verus!
