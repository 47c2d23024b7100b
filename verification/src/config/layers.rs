//! The stack of layers and the lookup across it.

use vstd::prelude::*;
use crate::accessor::Segment;
use crate::accessor::Accessor;
use crate::accessor::ParsableAccessor;
use crate::config::error::ConfigError;
use crate::element::access::Resolved;
use crate::description::ElementFormat;
use crate::description::FormatTag;
use crate::element::ConfigElement;
use crate::object::AccessFailure;
use crate::object::ConfigObject;
use crate::object::ConfigObjectAccessError;
use crate::object::ConfigView;
use crate::source::SourceError;

verus! {

/// The layers of a configuration, in the order in which they were loaded. A
/// later layer overrides an earlier one.
#[derive(Debug)]
pub struct Layers(Vec<ConfigObject>);

/// The layer that answers a lookup of `path` for a value of the
/// representation `want`, or for any value where `want` is `None`.
///
/// The layers are asked from the last to the first, each from the first
/// segment of the path. The first layer of the representation that holds a
/// value at the path answers. A layer that holds nothing there, or that was
/// read from another format, is passed over. A layer that the path does not
/// fit ends the lookup with its error, whatever its format and whatever the
/// layers before it hold.
pub open spec fn answering(
    layers: Seq<ConfigObject>,
    path: Seq<Segment>,
    want: Option<FormatTag>,
) -> Result<Option<int>, AccessFailure>
    decreases layers.len(),
{
    if layers.len() == 0 {
        Ok(None)
    } else {
        match layers.last().root().resolve(path) {
            Ok(Some(_)) => if accepted(layers.last(), want) {
                Ok(Some(layers.len() - 1))
            } else {
                answering(layers.drop_last(), path, want)
            },
            Ok(None) => answering(layers.drop_last(), path, want),
            Err(failure) => Err(failure),
        }
    }
}

/// Whether a lookup for `want` takes the values of `layer`.
pub open spec fn accepted(layer: ConfigObject, want: Option<FormatTag>) -> bool {
    match want {
        Some(format) => layer.format()@ == format,
        None => true,
    }
}

/// The value that a lookup of `path` for `want` finds in `layers`.
pub open spec fn found(
    layers: Seq<ConfigObject>,
    path: Seq<Segment>,
    want: Option<FormatTag>,
) -> Resolved {
    match answering(layers, path, want) {
        Ok(Some(i)) => layers[i].root().resolve(path),
        Ok(None) => Ok(None),
        Err(failure) => Err(failure),
    }
}

impl View for Layers {
    type V = Seq<ConfigObject>;

    closed spec fn view(&self) -> Seq<ConfigObject> {
        self.0@
    }
}

/// What loading one source came to.
pub type Loaded = Result<ConfigObject, SourceError>;

/// The position of the first failure in `results`, if one of them is a
/// failure.
pub open spec fn first_failure(results: Seq<Loaded>) -> Option<int>
    decreases results.len(),
{
    if results.len() == 0 {
        None
    } else if results[0] is Err {
        Some(0)
    } else {
        match first_failure(results.skip(1)) {
            Some(i) => Some(i + 1),
            None => None,
        }
    }
}

/// The objects of `results`, in order; meant for results without a failure.
pub open spec fn objects_of(results: Seq<Loaded>) -> Seq<ConfigObject> {
    results.map_values(|result: Loaded| result->Ok_0)
}

/// What a list of results comes to: the error of the first failure, or the
/// objects in order where nothing failed.
pub open spec fn gathered(results: Seq<Loaded>) -> Result<Seq<ConfigObject>, SourceError> {
    match first_failure(results) {
        Some(i) => Err(results[i]->Err_0),
        None => Ok(objects_of(results)),
    }
}

/// The first failure is a failure, and nothing before it is one; where there
/// is none, nothing is a failure.
pub proof fn lemma_first_failure(results: Seq<Loaded>)
    ensures
        match first_failure(results) {
            Some(i) => 0 <= i < results.len() && results[i] is Err && forall|j: int|
                0 <= j < i ==> (#[trigger] results[j]) is Ok,
            None => forall|j: int| 0 <= j < results.len() ==> (#[trigger] results[j]) is Ok,
        },
    decreases results.len(),
{
    if results.len() > 0 && results[0] is Ok {
        let rest = results.skip(1);
        lemma_first_failure(rest);
        match first_failure(rest) {
            Some(i) => {
                assert forall|j: int| 0 <= j < i + 1 implies (#[trigger] results[j]) is Ok by {
                    if j > 0 {
                        assert(rest[j - 1] == results[j]);
                    }
                }
            },
            None => {
                assert forall|j: int| 0 <= j < results.len() implies (#[trigger] results[j])
                    is Ok by {
                    if j > 0 {
                        assert(rest[j - 1] == results[j]);
                    }
                }
            },
        }
    }
}

/// The first failure of two lists in a row is that of the first list, or
/// else that of the second.
pub proof fn lemma_first_failure_in_a_row(first: Seq<Loaded>, second: Seq<Loaded>)
    ensures
        first_failure(first + second) == match first_failure(first) {
            Some(i) => Some(i),
            None => match first_failure(second) {
                Some(i) => Some(first.len() + i),
                None => None,
            },
        },
    decreases first.len(),
{
    if first.len() > 0 {
        assert((first + second).skip(1) =~= first.skip(1) + second);
        lemma_first_failure_in_a_row(first.skip(1), second);
    }
}

/// Takes the results of `results` in order and adds their objects to
/// `objects`, up to the first failure.
fn take_objects(results: Vec<Loaded>, objects: &mut Vec<ConfigObject>) -> (failed: Option<
    SourceError,
>)
    ensures
        match first_failure(results@) {
            Some(i) => failed == Some(results@[i]->Err_0),
            None => failed is None && final(objects)@ == old(objects)@ + objects_of(results@),
        },
{
    let mut rest = results;
    let ghost before = objects@;
    let ghost mut taken: int = 0;
    while rest.len() > 0
        invariant
            0 <= taken <= results@.len(),
            rest@ == results@.skip(taken),
            forall|j: int| 0 <= j < taken ==> (#[trigger] results@[j]) is Ok,
            objects@ == before + objects_of(results@.take(taken)),
        decreases rest@.len(),
    {
        let result = rest.remove(0);
        match result {
            Ok(object) => {
                objects.push(object);
                proof {
                    assert(objects@ =~= before + objects_of(results@.take(taken + 1))) by {
                        assert(results@.take(taken + 1) =~= results@.take(taken).push(
                            results@[taken],
                        ));
                    }
                    taken = taken + 1;
                }
            },
            Err(error) => {
                proof {
                    lemma_first_failure(results@);
                }
                return Some(error);
            },
        }
    }
    proof {
        lemma_first_failure(results@);
    }
    None
}

/// What a lookup asks for: the format that it was given, if it was given
/// one.
pub open spec fn tag_of(want: Option<&ElementFormat>) -> Option<FormatTag> {
    match want {
        Some(format) => Some(format@),
        None => None,
    }
}

/// Whether `layer` holds `element` at `path`.
pub open spec fn holds(layer: ConfigObject, path: Seq<Segment>, element: ConfigElement) -> bool {
    layer.root().resolve(path) == Ok::<_, AccessFailure>(Some(element))
}

/// Whether `outcome` is what a lookup that came to `expected` hands out.
pub open spec fn agrees(
    outcome: Result<Option<&ConfigElement>, ConfigError>,
    expected: Resolved,
) -> bool {
    match expected {
        Ok(Some(element)) => outcome matches Ok(Some(value)) && *value == element,
        Ok(None) => outcome matches Ok(None),
        Err(failure) => outcome matches Err(ConfigError::ConfigObjectAccessError(error))
            && error@ == failure,
    }
}

/// Whether `outcome` is what a lookup of `path` for any value in `layers`
/// hands out, where it is asked for the source of the value too.
pub open spec fn agrees_with_source(
    outcome: Result<Option<ConfigView<'_>>, ConfigError>,
    layers: Seq<ConfigObject>,
    path: Seq<Segment>,
) -> bool {
    match answering(layers, path, None) {
        Ok(Some(i)) => outcome matches Ok(Some(view)) && holds(layers[i], path, view.element())
            && view.source() == layers[i].source(),
        Ok(None) => outcome matches Ok(None),
        Err(failure) => outcome matches Err(ConfigError::ConfigObjectAccessError(error))
            && error@ == failure,
    }
}

impl Layers {
    /// The stack that holds `objects`, the last of them on top.
    pub fn from_iter(objects: Vec<ConfigObject>) -> (layers: Self)
        ensures
            layers@ == objects@,
    {
        Layers(objects)
    }

    /// Stacks what loading the sources came to: the results for the
    /// overwrites, then those for the ordinary sources, then those for the
    /// defaults, each group in the order given. The first failure in that
    /// order is the outcome; where nothing failed, the outcome is the stack
    /// of all objects in that order.
    pub fn from_loaded(
        overrides: Vec<Loaded>,
        layers: Vec<Loaded>,
        defaults: Vec<Loaded>,
    ) -> (stacked: Result<Self, SourceError>)
        ensures
            match gathered(overrides@ + layers@ + defaults@) {
                Ok(objects) => stacked matches Ok(stack) && stack@ == objects,
                Err(error) => stacked == Err::<Layers, _>(error),
            },
    {
        proof {
            lemma_first_failure_in_a_row(overrides@ + layers@, defaults@);
            lemma_first_failure_in_a_row(overrides@, layers@);
            lemma_first_failure(overrides@);
            lemma_first_failure(layers@);
            lemma_first_failure(defaults@);
        }
        let mut objects: Vec<ConfigObject> = Vec::new();
        if let Some(error) = take_objects(overrides, &mut objects) {
            return Err(error);
        }
        if let Some(error) = take_objects(layers, &mut objects) {
            return Err(error);
        }
        if let Some(error) = take_objects(defaults, &mut objects) {
            return Err(error);
        }
        Ok(Layers::from_iter(objects))
    }

    /// The number of layers.
    pub fn len(&self) -> (n: usize)
        ensures
            n == self@.len(),
    {
        self.0.len()
    }

    /// Asks the layers from the last to the first, each from the first
    /// segment of the path of `accessor`, and hands out the first value of
    /// the representation with the position of its layer.
    fn scan(&self, accessor: Accessor, want: Option<&ElementFormat>) -> (outcome: Result<
        Option<(usize, &ConfigElement)>,
        ConfigObjectAccessError,
    >)
        ensures
            match answering(self@, accessor.path(), tag_of(want)) {
                Ok(Some(i)) => outcome matches Ok(Some(hit)) && hit.0 == i && holds(
                    self@[i],
                    accessor.path(),
                    *hit.1,
                ),
                Ok(None) => outcome matches Ok(None),
                Err(failure) => outcome matches Err(error) && error@ == failure,
            },
            outcome matches Ok(Some(hit)) ==> hit.0 < self@.len(),
    {
        let ghost path = accessor.path();
        let mut cursor = accessor;
        let mut i: usize = self.0.len();
        assert(self@.take(i as int) =~= self@);
        while i > 0
            invariant
                i <= self.0.len(),
                cursor.path() == path,
                accessor.path() == path,
                answering(self@, path, tag_of(want)) == answering(
                    self@.take(i as int),
                    path,
                    tag_of(want),
                ),
            decreases i,
        {
            i -= 1;
            cursor.rewind();
            assert(cursor.remaining() =~= path);
            let ghost upper = self@.take(i + 1);
            assert(upper.drop_last() =~= self@.take(i as int));
            match self.0[i].get(&mut cursor) {
                Ok(Some(value)) => {
                    let taken = match want {
                        Some(format) => self.0[i].representation().same(format),
                        None => true,
                    };
                    if taken {
                        return Ok(Some((i, value)));
                    }
                },
                Ok(None) => {},
                Err(error) => {
                    return Err(error);
                },
            }
        }
        Ok(None)
    }

    /// Looks `accessor` up in the layers, from the last to the first, each
    /// from the first segment of the path, wherever the cursor stands.
    pub fn get_with_accessor(&self, accessor: Accessor) -> (outcome: Result<
        Option<&ConfigElement>,
        ConfigError,
    >)
        ensures
            agrees(outcome, found(self@, accessor.path(), None)),
    {
        match self.scan(accessor, None) {
            Ok(Some(hit)) => Ok(Some(hit.1)),
            Ok(None) => Ok(None),
            Err(error) => Err(ConfigError::ConfigObjectAccessError(error)),
        }
    }

    /// As `get_with_accessor`, and hands the value out together with the
    /// description of the source of the layer that held it.
    pub fn get_view_with_accessor(&self, accessor: Accessor) -> (outcome: Result<
        Option<ConfigView<'_>>,
        ConfigError,
    >)
        ensures
            agrees_with_source(outcome, self@, accessor.path()),
    {
        match self.scan(accessor, None) {
            Ok(Some(hit)) => Ok(Some(ConfigView::new(hit.1, self.0[hit.0].description()))),
            Ok(None) => Ok(None),
            Err(error) => Err(ConfigError::ConfigObjectAccessError(error)),
        }
    }

    /// Looks `accessor` up for a value of the representation `format`: the
    /// first layer, from the last, that was read from this format and holds
    /// a value at the path answers. A layer of another format that holds a
    /// value there is passed over like one that holds nothing.
    pub fn get_with_accessor_as(&self, accessor: Accessor, format: &ElementFormat) -> (outcome:
        Result<Option<&ConfigElement>, ConfigError>)
        ensures
            agrees(outcome, found(self@, accessor.path(), Some(format@))),
    {
        match self.scan(accessor, Some(format)) {
            Ok(Some(hit)) => Ok(Some(hit.1)),
            Ok(None) => Ok(None),
            Err(error) => Err(ConfigError::ConfigObjectAccessError(error)),
        }
    }

    /// Parses `accessor` and looks the path up in the layers.
    pub fn get<A: ParsableAccessor>(&self, accessor: A) -> (outcome: Result<
        Option<&ConfigElement>,
        ConfigError,
    >)
        ensures
            match accessor.denotes() {
                Some(path) => agrees(outcome, found(self@, path, None)),
                None => outcome matches Err(ConfigError::AccessorParseError(_)),
            },
    {
        match accessor.parse() {
            Ok(parsed) => self.get_with_accessor(parsed),
            Err(error) => Err(ConfigError::AccessorParseError(error)),
        }
    }

    /// Parses `accessor` and looks the path up in the layers, handing the
    /// value out together with the description of its source.
    pub fn get_view<A: ParsableAccessor>(&self, accessor: A) -> (outcome: Result<
        Option<ConfigView<'_>>,
        ConfigError,
    >)
        ensures
            match accessor.denotes() {
                Some(path) => agrees_with_source(outcome, self@, path),
                None => outcome matches Err(ConfigError::AccessorParseError(_)),
            },
    {
        match accessor.parse() {
            Ok(parsed) => self.get_view_with_accessor(parsed),
            Err(error) => Err(ConfigError::AccessorParseError(error)),
        }
    }

    /// Parses `accessor` and looks the path up for a value of the
    /// representation `format`.
    pub fn get_as<A: ParsableAccessor>(&self, accessor: A, format: &ElementFormat) -> (outcome:
        Result<Option<&ConfigElement>, ConfigError>)
        ensures
            match accessor.denotes() {
                Some(path) => agrees(outcome, found(self@, path, Some(format@))),
                None => outcome matches Err(ConfigError::AccessorParseError(_)),
            },
    {
        match accessor.parse() {
            Ok(parsed) => self.get_with_accessor_as(parsed, format),
            Err(error) => Err(ConfigError::AccessorParseError(error)),
        }
    }
}

} // verus!
