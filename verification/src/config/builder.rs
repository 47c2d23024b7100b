//! The sources of a configuration.

use vstd::prelude::*;
use crate::config::config::Config;
use crate::config::error::ConfigError;
use crate::config::layers::first_failure;
use crate::config::layers::lemma_first_failure;
use crate::config::layers::lemma_first_failure_in_a_row;
use crate::config::layers::objects_of;
use crate::config::layers::Layers;
use crate::config::layers::Loaded;
use crate::object::ConfigObject;
use crate::source::ConfigSource;
use crate::source::SourceError;

verus! {

/// The sources of a configuration, in three groups: the ordinary sources,
/// the defaults and the overwrites.
pub struct ConfigBuilder {
    layers_builders: Vec<Box<dyn ConfigSource>>,
    defaults_builders: Vec<Box<dyn ConfigSource>>,
    overwrites_builders: Vec<Box<dyn ConfigSource>>,
}

/// Whether `objects` is what loading every source of `sources` in turn can
/// give: as many objects as there are sources, each one loaded by the source
/// at its place.
pub open spec fn loaded_in_order(
    sources: Seq<Box<dyn ConfigSource>>,
    objects: Seq<ConfigObject>,
) -> bool {
    &&& objects.len() == sources.len()
    &&& forall|i: int| 0 <= i < sources.len() ==> (#[trigger] sources[i]).yields(Ok(objects[i]))
}

/// Whether a load of the source at position `i` of `sources` can give an
/// object.
pub open spec fn can_load(sources: Seq<Box<dyn ConfigSource>>, i: int) -> bool {
    exists|object: ConfigObject| #[trigger] sources[i].yields(Ok(object))
}

/// Whether loading the sources of `sources` in turn can end with `error`:
/// one of the sources can fail with it, and every source before that one can
/// give an object.
pub open spec fn failed_in(sources: Seq<Box<dyn ConfigSource>>, error: SourceError) -> bool {
    exists|i: int|
        0 <= i < sources.len() && (#[trigger] sources[i]).yields(Err(error)) && forall|j: int|
            0 <= j < i ==> #[trigger] can_load(sources, j)
}

/// Where every source gave its object, every source can give one.
proof fn lemma_loaded_sources_can_load(
    sources: Seq<Box<dyn ConfigSource>>,
    objects: Seq<ConfigObject>,
)
    requires
        loaded_in_order(sources, objects),
    ensures
        forall|j: int| 0 <= j < sources.len() ==> #[trigger] can_load(sources, j),
{
    assert forall|j: int| 0 <= j < sources.len() implies #[trigger] can_load(sources, j) by {
        assert(sources[j].yields(Ok(objects[j])));
    }
}

/// A failure of the second of two groups of sources, all of the first of
/// which can give an object, is a failure of the two groups in a row.
proof fn lemma_failure_in_a_row(
    first: Seq<Box<dyn ConfigSource>>,
    second: Seq<Box<dyn ConfigSource>>,
    error: SourceError,
)
    requires
        forall|j: int| 0 <= j < first.len() ==> #[trigger] can_load(first, j),
        failed_in(second, error),
    ensures
        failed_in(first + second, error),
{
    let both = first + second;
    let i = choose|i: int|
        0 <= i < second.len() && (#[trigger] second[i]).yields(Err(error)) && forall|j: int|
            0 <= j < i ==> #[trigger] can_load(second, j);
    let k = first.len() + i;
    assert(both[k] == second[i]);
    assert forall|j: int| 0 <= j < k implies #[trigger] can_load(both, j) by {
        if j < first.len() {
            assert(can_load(first, j));
            let object = choose|object: ConfigObject| #[trigger] first[j].yields(Ok(object));
            assert(both[j].yields(Ok(object)));
        } else {
            assert(can_load(second, j - first.len()));
            let object = choose|object: ConfigObject|
                #[trigger] second[j - first.len()].yields(Ok(object));
            assert(both[j].yields(Ok(object)));
        }
    }
}

/// A failure of a group of sources is a failure of the group with more
/// sources behind it.
proof fn lemma_failure_before_more(
    first: Seq<Box<dyn ConfigSource>>,
    more: Seq<Box<dyn ConfigSource>>,
    error: SourceError,
)
    requires
        failed_in(first, error),
    ensures
        failed_in(first + more, error),
{
    let both = first + more;
    let i = choose|i: int|
        0 <= i < first.len() && (#[trigger] first[i]).yields(Err(error)) && forall|j: int|
            0 <= j < i ==> #[trigger] can_load(first, j);
    assert(both[i] == first[i]);
    assert forall|j: int| 0 <= j < i implies #[trigger] can_load(both, j) by {
        assert(can_load(first, j));
        let object = choose|object: ConfigObject| #[trigger] first[j].yields(Ok(object));
        assert(both[j].yields(Ok(object)));
    }
}

/// Two groups of sources that were each loaded in order were loaded in order
/// as one group.
proof fn lemma_loaded_in_a_row(
    first: Seq<Box<dyn ConfigSource>>,
    second: Seq<Box<dyn ConfigSource>>,
    loaded_first: Seq<Loaded>,
    loaded_second: Seq<Loaded>,
)
    requires
        loaded_in_order(first, objects_of(loaded_first)),
        loaded_in_order(second, objects_of(loaded_second)),
    ensures
        loaded_in_order(first + second, objects_of(loaded_first + loaded_second)),
{
    let sources = first + second;
    let objects = objects_of(loaded_first + loaded_second);
    assert forall|i: int| 0 <= i < sources.len() implies (#[trigger] sources[i]).yields(
        Ok(objects[i]),
    ) by {
        if i < first.len() {
            assert(first[i].yields(Ok(objects_of(loaded_first)[i])));
        } else {
            assert(second[i - first.len()].yields(Ok(objects_of(loaded_second)[i - first.len()])));
        }
    }
}

/// Loads the sources of `sources` in order, up to the first that fails, and
/// hands out what every load came to, in order; a failure is the last of
/// them. Tells whether every source was loaded.
fn load_group(sources: &Vec<Box<dyn ConfigSource>>) -> (loaded: (Vec<Loaded>, bool))
    ensures
        loaded.0@.len() <= sources@.len(),
        forall|i: int|
            0 <= i < loaded.0@.len() ==> (#[trigger] sources@[i]).yields(loaded.0@[i]),
        loaded.1 == first_failure(loaded.0@) is None,
        match first_failure(loaded.0@) {
            None => loaded.0@.len() == sources@.len() && loaded_in_order(
                sources@,
                objects_of(loaded.0@),
            ),
            Some(i) => i == loaded.0@.len() - 1 && failed_in(sources@, loaded.0@[i]->Err_0),
        },
{
    let mut results: Vec<Loaded> = Vec::new();
    let mut i: usize = 0;
    while i < sources.len()
        invariant
            i <= sources.len(),
            results@.len() == i,
            forall|j: int| 0 <= j < i ==> (#[trigger] sources@[j]).yields(results@[j]),
            forall|j: int| 0 <= j < i ==> (#[trigger] results@[j]) is Ok,
        decreases sources.len() - i,
    {
        let result = sources[i].load();
        let failed = result.is_err();
        let ghost before = results@;
        results.push(result);
        proof {
            assert forall|j: int| 0 <= j < i implies (#[trigger] results@[j]) is Ok
                && sources@[j].yields(results@[j]) by {
                assert(results@[j] == before[j]);
            }
        }
        if failed {
            proof {
                assert(results@[i as int] is Err);
                lemma_first_failure(results@);
                let k = first_failure(results@)->0;
                assert(k == i) by {
                    if k < i {
                        assert(results@[k] is Ok);
                    }
                }
                assert forall|j: int| 0 <= j < i implies #[trigger] can_load(sources@, j) by {
                    assert(results@[j] is Ok);
                    assert(sources@[j].yields(Ok(results@[j]->Ok_0)));
                }
                assert(sources@[i as int].yields(Err(results@[i as int]->Err_0)));
            }
            return (results, false);
        }
        i += 1;
    }
    proof {
        lemma_first_failure(results@);
        assert forall|j: int| 0 <= j < sources@.len() implies (#[trigger] sources@[j]).yields(
            Ok(objects_of(results@)[j]),
        ) by {
            assert(sources@[j].yields(results@[j]));
        }
    }
    (results, true)
}

impl ConfigBuilder {
    /// The ordinary sources, in the order in which they were added.
    pub closed spec fn layer_sources(&self) -> Seq<Box<dyn ConfigSource>> {
        self.layers_builders@
    }

    /// The sources of defaults, in the order in which they were added.
    pub closed spec fn default_sources(&self) -> Seq<Box<dyn ConfigSource>> {
        self.defaults_builders@
    }

    /// The sources of overwrites, in the order in which they were added.
    pub closed spec fn overwrite_sources(&self) -> Seq<Box<dyn ConfigSource>> {
        self.overwrites_builders@
    }

    /// All sources in the order in which they are loaded and stacked: the
    /// overwrites, then the ordinary sources, then the defaults.
    pub open spec fn sources(&self) -> Seq<Box<dyn ConfigSource>> {
        self.overwrite_sources() + self.layer_sources() + self.default_sources()
    }

    /// A builder without sources.
    pub fn new() -> (builder: Self)
        ensures
            builder.layer_sources() == Seq::<Box<dyn ConfigSource>>::empty(),
            builder.default_sources() == Seq::<Box<dyn ConfigSource>>::empty(),
            builder.overwrite_sources() == Seq::<Box<dyn ConfigSource>>::empty(),
    {
        ConfigBuilder {
            layers_builders: Vec::new(),
            defaults_builders: Vec::new(),
            overwrites_builders: Vec::new(),
        }
    }

    /// Adds `source` behind the ordinary sources.
    pub fn load(self, source: Box<dyn ConfigSource>) -> (builder: Self)
        ensures
            builder.layer_sources() == self.layer_sources().push(source),
            builder.default_sources() == self.default_sources(),
            builder.overwrite_sources() == self.overwrite_sources(),
    {
        let mut builder = self;
        builder.layers_builders.push(source);
        builder
    }

    /// Adds `source` behind the sources of defaults.
    pub fn load_default(self, source: Box<dyn ConfigSource>) -> (builder: Self)
        ensures
            builder.layer_sources() == self.layer_sources(),
            builder.default_sources() == self.default_sources().push(source),
            builder.overwrite_sources() == self.overwrite_sources(),
    {
        let mut builder = self;
        builder.defaults_builders.push(source);
        builder
    }

    /// Adds `source` behind the sources of overwrites.
    pub fn load_overwrite(self, source: Box<dyn ConfigSource>) -> (builder: Self)
        ensures
            builder.layer_sources() == self.layer_sources(),
            builder.default_sources() == self.default_sources(),
            builder.overwrite_sources() == self.overwrite_sources().push(source),
    {
        let mut builder = self;
        builder.overwrites_builders.push(source);
        builder
    }

    /// Loads every source and makes the configuration of what was loaded.
    pub fn build(self) -> (built: Result<Config, ConfigError>)
        ensures
            match built {
                Ok(config) => config.sources() == self.sources() && loaded_in_order(
                    self.sources(),
                    config.stack(),
                ),
                Err(error) => error matches ConfigError::SourceError(failure) && failed_in(
                    self.sources(),
                    failure,
                ),
            },
    {
        Config::build_from_builder(self)
    }

    /// Loads every source anew, in the order of `sources`, up to the first
    /// that fails, and stacks what the loads came to with
    /// [`Layers::from_loaded`]: all objects in that order, or the error of
    /// the source that failed.
    pub fn reload(&self) -> (loaded: Result<Layers, SourceError>)
        ensures
            match loaded {
                Ok(layers) => loaded_in_order(self.sources(), layers@),
                Err(error) => failed_in(self.sources(), error),
            },
    {
        let ghost overwrites = self.overwrites_builders@;
        let ghost ordinary = self.layers_builders@;
        let ghost defaults = self.defaults_builders@;
        let (first, complete) = load_group(&self.overwrites_builders);
        if !complete {
            proof {
                lemma_first_failure_in_a_row(first@, Seq::empty());
                lemma_first_failure_in_a_row(first@ + Seq::empty(), Seq::empty());
                lemma_first_failure(first@);
                lemma_failure_before_more(
                    overwrites,
                    ordinary + defaults,
                    first@[first@.len() - 1]->Err_0,
                );
                assert(overwrites + (ordinary + defaults) =~= self.sources());
            }
            return Layers::from_loaded(first, Vec::new(), Vec::new());
        }
        proof {
            lemma_loaded_sources_can_load(overwrites, objects_of(first@));
        }
        let (second, complete) = load_group(&self.layers_builders);
        if !complete {
            proof {
                lemma_first_failure_in_a_row(first@, second@);
                lemma_first_failure_in_a_row(first@ + second@, Seq::empty());
                lemma_first_failure(second@);
                let error = second@[second@.len() - 1]->Err_0;
                lemma_failure_in_a_row(overwrites, ordinary, error);
                lemma_failure_before_more(overwrites + ordinary, defaults, error);
            }
            return Layers::from_loaded(first, second, Vec::new());
        }
        proof {
            lemma_loaded_in_a_row(overwrites, ordinary, first@, second@);
            lemma_loaded_sources_can_load(overwrites + ordinary, objects_of(first@ + second@));
        }
        let (third, complete) = load_group(&self.defaults_builders);
        proof {
            lemma_first_failure_in_a_row(first@, second@);
            lemma_first_failure_in_a_row(first@ + second@, third@);
            if complete {
                lemma_loaded_in_a_row(overwrites + ordinary, defaults, first@ + second@, third@);
            } else {
                lemma_first_failure(third@);
                lemma_failure_in_a_row(
                    overwrites + ordinary,
                    defaults,
                    third@[third@.len() - 1]->Err_0,
                );
            }
        }
        Layers::from_loaded(first, second, third)
    }
}

} // verus!

