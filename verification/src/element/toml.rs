//! Trees read from TOML by `toml`.

use vstd::prelude::*;
use crate::element::ConfigElement;
use crate::element::ConfigElementMap;
use crate::element::nesting::nesting;
use crate::element::Node;

verus! {

/// A TOML value of `toml`. Nothing of its inside is known here; what it
/// holds is named by [`toml_node`].
#[verifier::external_type_specification]
#[verifier::external_body]
pub struct ExTomlValue(::toml::Value);

/// The map of a TOML table of `toml`. What it holds is named by
/// [`toml_pairs`].
#[verifier::external_type_specification]
#[verifier::external_body]
#[verifier::reject_recursive_types(K)]
#[verifier::reject_recursive_types(V)]
pub struct ExTomlMap<K, V>(::toml::map::Map<K, V>);

/// The parse error of `toml`, carried through as it is.
#[verifier::external_type_specification]
#[verifier::external_body]
pub struct ExTomlError(::toml::de::Error);

/// The content of a TOML value of `toml`: a boolean, an integer, a string,
/// an array and a table as they are, and a float as its bits. A datetime has
/// no counterpart among the elements of a configuration: its content is the
/// string that `toml` writes it as. No TOML value has the content `Null`.
pub uninterp spec fn toml_node(value: ::toml::Value) -> Node;

/// Whether a TOML value of `toml` is a datetime.
pub uninterp spec fn toml_is_datetime(value: ::toml::Value) -> bool;

/// The keys of a TOML table of `toml` with the content of their values, in
/// the order in which the map is walked.
pub uninterp spec fn toml_pairs(map: ::toml::map::Map<String, ::toml::Value>) -> Seq<
    (Seq<char>, Node),
>;

/// The content of the TOML document that `toml` reads from `bytes`, or
/// nothing where it does not accept them.
pub uninterp spec fn toml_document(bytes: Seq<u8>) -> Option<Node>;

/// The deepest nesting with which a text is handed to the parser.
pub const TOML_NESTING_LIMIT: usize = 128;

/// `toml::from_slice`, read as a `toml::Value`. Reading depends on the bytes
/// alone: it succeeds exactly where `toml_document` names a content, and the
/// value then holds that content.
///
/// The parser descends by recursion into nested arrays and inline tables,
/// into the parts of a dotted key and into the parts of the name of a table,
/// as deep as the text nests them, and has no limit of its own: a text that
/// nests deeper than the limit is kept from it. Brackets and dots are tokens
/// only outside of strings and comments, a key ends at its equals sign and
/// the name of a table at its line, and `nesting` never counts fewer open
/// brackets, or fewer parts of the keys and names that lie around a value,
/// than there are: the dots of a key count from its equals sign to the end
/// of its value.
#[verifier::external_body]
pub(crate) fn toml_from_slice(bytes: &[u8]) -> (parsed: Result<
    ::toml::Value,
    ::toml::de::Error,
>)
    requires
        nesting(bytes@) <= TOML_NESTING_LIMIT,
    ensures
        match parsed {
            Ok(value) => toml_document(bytes@) == Some(toml_node(value)),
            Err(_) => toml_document(bytes@) is None,
        },
{
    ::toml::from_slice::<::toml::Value>(bytes)
}

/// `toml::Value::as_bool`: the boolean of a boolean value, nothing for any
/// other value.
#[verifier::external_body]
pub(crate) fn toml_as_bool(value: &::toml::Value) -> (b: Option<bool>)
    ensures
        b == match toml_node(*value) {
            Node::Bool(held) => Some(held),
            _ => None,
        },
{
    value.as_bool()
}

/// `toml::Value::as_integer`: the integer of an integer value, nothing for
/// any other value.
#[verifier::external_body]
pub(crate) fn toml_as_integer(value: &::toml::Value) -> (i: Option<i64>)
    ensures
        match toml_node(*value) {
            Node::Integer(held) => i64::MIN <= held <= i64::MAX && i == Some(held as i64),
            _ => i is None,
        },
{
    value.as_integer()
}

/// `toml::Value::as_float`, handed out as the bit pattern of the number: the
/// number of a float value, nothing for any other value.
#[verifier::external_body]
pub(crate) fn toml_as_float_bits(value: &::toml::Value) -> (bits: Option<u64>)
    ensures
        bits == match toml_node(*value) {
            Node::Float(held) => Some(held),
            _ => None,
        },
{
    value.as_float().map(|number| number.to_bits())
}

/// `toml::Value::as_str`: the text of a string value, nothing for any other
/// value, a datetime among them.
#[verifier::external_body]
pub(crate) fn toml_as_str(value: &::toml::Value) -> (s: Option<&str>)
    ensures
        match toml_node(*value) {
            Node::Str(held) => if toml_is_datetime(*value) {
                s is None
            } else {
                s is Some && s->0@ == held
            },
            _ => s is None,
        },
{
    value.as_str()
}

/// `toml::Value::as_datetime`, written out by the `Display` of the datetime:
/// the text of a datetime value, nothing for any other value.
#[verifier::external_body]
pub(crate) fn toml_datetime_text(value: &::toml::Value) -> (text: Option<String>)
    ensures
        match toml_node(*value) {
            Node::Str(held) => if toml_is_datetime(*value) {
                text is Some && text->0@ == held
            } else {
                text is None
            },
            _ => text is None,
        },
{
    value.as_datetime().map(|datetime| datetime.to_string())
}

/// `toml::Value::as_array`: the elements of an array value, nothing for any
/// other value.
#[verifier::external_body]
pub(crate) fn toml_as_array(value: &::toml::Value) -> (items: Option<&Vec<::toml::Value>>)
    ensures
        match toml_node(*value) {
            Node::List(held) => items is Some && items->0@.len() == held.len() && forall|i: int|
                0 <= i < held.len() ==> toml_node(#[trigger] items->0@[i]) == held[i],
            _ => items is None,
        },
{
    value.as_array()
}

/// `toml::Value::as_table`: the map of a table value, nothing for any other
/// value.
#[verifier::external_body]
pub(crate) fn toml_as_table(value: &::toml::Value) -> (map: Option<
    &::toml::map::Map<String, ::toml::Value>,
>)
    ensures
        match toml_node(*value) {
            Node::Dict(held) => map is Some && toml_pairs(*map->0) == held,
            _ => map is None,
        },
{
    value.as_table()
}

/// `toml::map::Map::iter`, collected: every key of the map with its value,
/// in the order in which the map is walked.
#[verifier::external_body]
pub(crate) fn toml_map_iter(map: &::toml::map::Map<String, ::toml::Value>) -> (pairs: Vec<
    (&String, &::toml::Value),
>)
    ensures
        pairs@.len() == toml_pairs(*map).len(),
        forall|i: int|
            0 <= i < pairs@.len() ==> (#[trigger] pairs@[i]).0@ == toml_pairs(*map)[i].0
                && toml_node(*pairs@[i].1) == toml_pairs(*map)[i].1,
{
    map.iter().collect()
}

/// The element that holds what the TOML value `value` holds. A datetime
/// becomes the string that it is written as.
pub fn element_from_toml(value: &::toml::Value) -> (element: ConfigElement)
    ensures
        element@ == toml_node(*value),
    decreases toml_node(*value),
{
    if let Some(b) = toml_as_bool(value) {
        return ConfigElement::Bool(b);
    }
    if let Some(i) = toml_as_integer(value) {
        return ConfigElement::Integer(i);
    }
    if let Some(bits) = toml_as_float_bits(value) {
        return ConfigElement::Float(bits);
    }
    if let Some(s) = toml_as_str(value) {
        return ConfigElement::Str(s.to_owned());
    }
    if let Some(text) = toml_datetime_text(value) {
        return ConfigElement::Str(text);
    }
    if let Some(items) = toml_as_array(value) {
        let ghost held = toml_node(*value)->List_0;
        let mut list: Vec<ConfigElement> = Vec::new();
        let mut i: usize = 0;
        while i < items.len()
            invariant
                i <= items.len(),
                toml_node(*value) == Node::List(held),
                items@.len() == held.len(),
                forall|j: int| 0 <= j < held.len() ==> toml_node(#[trigger] items@[j]) == held[j],
                list@.len() == i,
                forall|j: int| 0 <= j < i ==> (#[trigger] list@[j])@ == held[j],
            decreases items.len() - i,
        {
            assert(decreases_to!(toml_node(*value) => toml_node(*value)->List_0));
            let converted = element_from_toml(&items[i]);
            list.push(converted);
            i += 1;
        }
        let element = ConfigElement::List(list);
        assert(element@->List_0 =~= held);
        return element;
    }
    if let Some(map) = toml_as_table(value) {
        let ghost held = toml_node(*value)->Dict_0;
        let pairs = toml_map_iter(map);
        let mut entries: Vec<(String, ConfigElement)> = Vec::new();
        let mut i: usize = 0;
        while i < pairs.len()
            invariant
                i <= pairs.len(),
                toml_node(*value) == Node::Dict(held),
                pairs@.len() == held.len(),
                forall|j: int|
                    0 <= j < held.len() ==> (#[trigger] pairs@[j]).0@ == held[j].0 && toml_node(
                        *pairs@[j].1,
                    ) == held[j].1,
                entries@.len() == i,
                forall|j: int|
                    0 <= j < i ==> (#[trigger] entries@[j]).0@ == held[j].0 && entries@[j].1@
                        == held[j].1,
            decreases pairs.len() - i,
        {
            assert(decreases_to!(toml_node(*value) => toml_node(*value)->Dict_0));
            let converted = element_from_toml(pairs[i].1);
            entries.push((pairs[i].0.clone(), converted));
            i += 1;
        }
        let element = ConfigElement::Dict(ConfigElementMap { entries });
        assert(element@->Dict_0 =~= held);
        return element;
    }
    ConfigElement::Null
}

} // verus!
