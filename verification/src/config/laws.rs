//! What holds of every lookup.

use vstd::prelude::*;
use crate::accessor::Segment;
use crate::config::layers::accepted;
use crate::config::layers::answering;
use crate::config::layers::found;
use crate::config::layers::holds;
use crate::description::FormatTag;
use crate::element::kind::integer_kind;
use crate::element::kind::ConfigElementType;
use crate::element::ConfigElement;
use crate::object::AccessFailure;
use crate::object::ConfigObject;

verus! {

/// Whether a lookup of `path` for `want` passes `layer` over: the layer
/// holds nothing at the path, or was read from another format.
pub open spec fn passed_over(
    layer: ConfigObject,
    path: Seq<Segment>,
    want: Option<FormatTag>,
) -> bool {
    match layer.root().resolve(path) {
        Ok(Some(_)) => !accepted(layer, want),
        Ok(None) => true,
        Err(_) => false,
    }
}

/// The layer that answers is the last one that is not passed over: where it
/// is of the representation and holds a value, the lookup finds that value,
/// whatever the layers before it hold.
pub proof fn lemma_last_holder_answers(
    layers: Seq<ConfigObject>,
    path: Seq<Segment>,
    want: Option<FormatTag>,
    i: int,
    element: ConfigElement,
)
    requires
        0 <= i < layers.len(),
        holds(layers[i], path, element),
        accepted(layers[i], want),
        forall|j: int| i < j < layers.len() ==> passed_over(#[trigger] layers[j], path, want),
    ensures
        answering(layers, path, want) == Ok::<_, AccessFailure>(Some(i)),
        found(layers, path, want) == Ok::<_, AccessFailure>(Some(element)),
    decreases layers.len(),
{
    if i < layers.len() - 1 {
        let below = layers.drop_last();
        lemma_last_holder_answers(below, path, want, i, element);
    }
}

/// A layer that the path does not fit ends the lookup with its error, unless
/// a later layer answers: the layers before it are not asked, whatever they
/// hold.
pub proof fn lemma_mismatch_aborts(
    layers: Seq<ConfigObject>,
    path: Seq<Segment>,
    want: Option<FormatTag>,
    i: int,
    failure: AccessFailure,
)
    requires
        0 <= i < layers.len(),
        layers[i].root().resolve(path) == Err::<Option<ConfigElement>, _>(failure),
        forall|j: int| i < j < layers.len() ==> passed_over(#[trigger] layers[j], path, want),
    ensures
        answering(layers, path, want) == Err::<Option<int>, _>(failure),
        found(layers, path, want) == Err::<Option<ConfigElement>, _>(failure),
    decreases layers.len(),
{
    if i < layers.len() - 1 {
        let below = layers.drop_last();
        lemma_mismatch_aborts(below, path, want, i, failure);
    }
}

/// Where every layer is passed over, the lookup finds nothing, and that is
/// no error. So a path that no layer holds a value at is simply not found.
pub proof fn lemma_absent_everywhere(
    layers: Seq<ConfigObject>,
    path: Seq<Segment>,
    want: Option<FormatTag>,
)
    requires
        forall|j: int| 0 <= j < layers.len() ==> passed_over(#[trigger] layers[j], path, want),
    ensures
        answering(layers, path, want) == Ok::<Option<int>, AccessFailure>(None),
        found(layers, path, want) == Ok::<Option<ConfigElement>, AccessFailure>(None),
    decreases layers.len(),
{
    if layers.len() > 0 {
        let below = layers.drop_last();
        lemma_absent_everywhere(below, path, want);
    }
}

/// Of two layers that both hold a value at a path, the later one gives the
/// value of the lookup.
pub proof fn lemma_later_layer_wins(
    earlier: ConfigObject,
    later: ConfigObject,
    path: Seq<Segment>,
    in_earlier: ConfigElement,
    in_later: ConfigElement,
)
    requires
        holds(earlier, path, in_earlier),
        holds(later, path, in_later),
    ensures
        found(seq![earlier, later], path, None) == Ok::<_, AccessFailure>(Some(in_later)),
{
    lemma_last_holder_answers(seq![earlier, later], path, None, 1, in_later);
}

/// A value that only one layer holds is found wherever that layer lies in
/// the stack.
pub proof fn lemma_single_holder_is_found(
    layers: Seq<ConfigObject>,
    path: Seq<Segment>,
    i: int,
    element: ConfigElement,
)
    requires
        0 <= i < layers.len(),
        holds(layers[i], path, element),
        forall|j: int|
            0 <= j < layers.len() && j != i ==> (#[trigger] layers[j]).root().resolve(path) == Ok::<
                Option<ConfigElement>,
                AccessFailure,
            >(None),
    ensures
        found(layers, path, None) == Ok::<_, AccessFailure>(Some(element)),
{
    assert forall|j: int| i < j < layers.len() implies passed_over(
        #[trigger] layers[j],
        path,
        None,
    ) by {}
    lemma_last_holder_answers(layers, path, None, i, element);
}

/// A mismatch in the last layer is the outcome of the lookup, even where an
/// earlier layer holds a value at the path.
pub proof fn lemma_mismatch_hides_earlier_value(
    earlier: ConfigObject,
    later: ConfigObject,
    path: Seq<Segment>,
    in_earlier: ConfigElement,
    failure: AccessFailure,
)
    requires
        holds(earlier, path, in_earlier),
        later.root().resolve(path) == Err::<Option<ConfigElement>, _>(failure),
    ensures
        found(seq![earlier, later], path, None) == Err::<Option<ConfigElement>, _>(failure),
{
    lemma_mismatch_aborts(seq![earlier, later], path, None, 1, failure);
}

/// A lookup for a representation in one layer finds a value exactly where
/// the layer holds a value at the path and was read from that format.
pub proof fn lemma_typed_lookup_in_one_layer(
    layer: ConfigObject,
    path: Seq<Segment>,
    format: FormatTag,
    element: ConfigElement,
)
    ensures
        found(seq![layer], path, Some(format)) == Ok::<_, AccessFailure>(Some(element)) <==> holds(
            layer,
            path,
            element,
        ) && layer.format()@ == format,
{
    let layers = seq![layer];
    assert(layers.last() == layer);
    assert(answering(layers.drop_last(), path, Some(format)) == Ok::<Option<int>, AccessFailure>(
        None,
    ));
}

/// Two layers of different formats that both hold a value at one path can
/// each be reached by asking for its format: the later one does not hide
/// the earlier one from a lookup for the format of the earlier one.
pub proof fn lemma_formats_are_addressed_apart(
    earlier: ConfigObject,
    later: ConfigObject,
    path: Seq<Segment>,
    in_earlier: ConfigElement,
    in_later: ConfigElement,
)
    requires
        holds(earlier, path, in_earlier),
        holds(later, path, in_later),
        earlier.format()@ != later.format()@,
    ensures
        found(seq![earlier, later], path, Some(earlier.format()@)) == Ok::<_, AccessFailure>(
            Some(in_earlier),
        ),
        found(seq![earlier, later], path, Some(later.format()@)) == Ok::<_, AccessFailure>(
            Some(in_later),
        ),
        found(seq![earlier, later], path, None) == Ok::<_, AccessFailure>(Some(in_later)),
{
    let layers = seq![earlier, later];
    lemma_last_holder_answers(layers, path, Some(earlier.format()@), 0, in_earlier);
    lemma_last_holder_answers(layers, path, Some(later.format()@), 1, in_later);
    lemma_last_holder_answers(layers, path, None, 1, in_later);
}

/// A lookup for a representation finds nothing, and that is no error, where
/// every layer is passed over: where the path fits every layer and no layer
/// that holds a value at the path was read from that format.
pub proof fn lemma_other_format_finds_nothing(
    layers: Seq<ConfigObject>,
    path: Seq<Segment>,
    format: FormatTag,
)
    requires
        forall|j: int|
            0 <= j < layers.len() ==> passed_over(#[trigger] layers[j], path, Some(format)),
    ensures
        found(layers, path, Some(format)) == Ok::<Option<ConfigElement>, AccessFailure>(None),
{
    lemma_absent_everywhere(layers, path, Some(format));
}

/// A path in two parts is descended part by part: what lies at the whole
/// path is what lies at the second part below what lies at the first.
pub proof fn lemma_resolve_in_parts(
    element: ConfigElement,
    first: Seq<Segment>,
    second: Seq<Segment>,
)
    requires
        first.len() > 0,
        second.len() > 0,
    ensures
        element.resolve(first + second) == match element.resolve(first) {
            Ok(Some(child)) => child.resolve(second),
            Ok(None) => Ok(None),
            Err(failure) => Err(failure),
        },
    decreases first.len(),
{
    let whole = first + second;
    if first.len() == 1 {
        assert(whole.skip(1) =~= second);
    } else {
        assert(whole.skip(1) =~= first.skip(1) + second);
        match element.step(first[0]) {
            Ok(Some(child)) => {
                lemma_resolve_in_parts(child, first.skip(1), second);
            },
            _ => {},
        }
    }
}

/// A key fits a map only and an index a list only: on any other element the
/// descent fails with an error that names the kind of the element and the
/// key or index, however the path goes on.
pub proof fn lemma_misfit_is_an_error(element: ConfigElement, path: Seq<Segment>)
    requires
        path.len() > 0,
    ensures
        path[0] matches Segment::Key(key) ==> !(element is Dict) ==> element.resolve(path) == Err::<
            Option<ConfigElement>,
            _,
        >(AccessFailure::KeyOn(element.kind(), key)),
        path[0] matches Segment::Index(index) ==> !(element is List) ==> element.resolve(path)
            == Err::<Option<ConfigElement>, _>(AccessFailure::IndexOn(element.kind(), index)),
        element is Str ==> element.kind() == ConfigElementType::Str,
        element is List ==> element.kind() == ConfigElementType::List,
{
}

/// Every element is of exactly the kind that `kind` names: it can be read as
/// that kind, and as no kind that comes before it in the order of the
/// kinds.
pub proof fn lemma_kind_is_first_match(element: ConfigElement)
    ensures
        element.is_kind(element.kind()),
        forall|other: ConfigElementType|
            kind_rank(other) < kind_rank(element.kind()) ==> !element.is_kind(other),
{
    assert forall|other: ConfigElementType|
        kind_rank(other) < kind_rank(element.kind()) implies !element.is_kind(other) by {
        match other {
            ConfigElementType::Null => {},
            ConfigElementType::Bool => {},
            ConfigElementType::I8 => {},
            ConfigElementType::I16 => {},
            ConfigElementType::I32 => {},
            ConfigElementType::I64 => {},
            ConfigElementType::U8 => {},
            ConfigElementType::U16 => {},
            ConfigElementType::U32 => {},
            ConfigElementType::U64 => {},
            ConfigElementType::F32 => {},
            ConfigElementType::F64 => {},
            ConfigElementType::Str => {},
            ConfigElementType::List => {},
            ConfigElementType::Dict => {},
        }
    }
}

/// An integer is of the kind `u64` exactly where it lies above the largest
/// `i64`, and never of a narrower unsigned kind: the signed kinds come first
/// in the order and hold every smaller integer. An integer that is not
/// negative can still be read as every unsigned kind that holds it, and two
/// elements that hold the same integer are of the same kind.
pub proof fn lemma_unsigned_kind(element: ConfigElement)
    ensures
        element.kind() != ConfigElementType::U8,
        element.kind() != ConfigElementType::U16,
        element.kind() != ConfigElementType::U32,
        element.kind() == ConfigElementType::U64 <==> (element.integer() matches Some(i) && i
            > i64::MAX),
        element.integer() matches Some(i) ==> (element.is_kind(ConfigElementType::U64) <==> 0
            <= i) && (element.is_kind(ConfigElementType::U8) <==> 0 <= i <= u8::MAX)
            && element.kind() == integer_kind(i),
{
}

/// The place of a kind in the order in which the kinds are tried.
pub open spec fn kind_rank(kind: ConfigElementType) -> nat {
    match kind {
        ConfigElementType::Null => 0,
        ConfigElementType::Bool => 1,
        ConfigElementType::I8 => 2,
        ConfigElementType::I16 => 3,
        ConfigElementType::I32 => 4,
        ConfigElementType::I64 => 5,
        ConfigElementType::U8 => 6,
        ConfigElementType::U16 => 7,
        ConfigElementType::U32 => 8,
        ConfigElementType::U64 => 9,
        ConfigElementType::F32 => 10,
        ConfigElementType::F64 => 11,
        ConfigElementType::Str => 12,
        ConfigElementType::List => 13,
        ConfigElementType::Dict => 14,
    }
}

} // verus!
