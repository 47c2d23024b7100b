//! Trees read from JSON by `serde_json`.

use vstd::prelude::*;
use crate::element::ConfigElement;
use crate::element::ConfigElementMap;
use crate::element::Node;

verus! {

/// A JSON value of `serde_json`. Nothing of its inside is known here; what
/// it holds is named by [`json_node`].
#[verifier::external_type_specification]
#[verifier::external_body]
pub struct ExJsonValue(serde_json::Value);

/// The map of a JSON object of `serde_json`. What it holds is named by
/// [`json_pairs`].
#[verifier::external_type_specification]
#[verifier::external_body]
#[verifier::reject_recursive_types(K)]
#[verifier::reject_recursive_types(V)]
pub struct ExJsonMap<K, V>(serde_json::Map<K, V>);

/// The parse error of `serde_json`, carried through as it is.
#[verifier::external_type_specification]
#[verifier::external_body]
pub struct ExJsonError(serde_json::Error);

/// The content of a JSON value of `serde_json`: `null`, a boolean, a string,
/// an array and an object as they are; a number that `serde_json` can hand
/// out as an `i64` or as a `u64` as that integer, and any other number as
/// the bits of the `f64` that `serde_json` hands out for it.
pub uninterp spec fn json_node(value: serde_json::Value) -> Node;

/// The keys of a JSON object of `serde_json` with the content of their
/// values, in the order in which the map is walked.
pub uninterp spec fn json_pairs(map: serde_json::Map<String, serde_json::Value>) -> Seq<
    (Seq<char>, Node),
>;

/// The content of the JSON document that `serde_json` reads from `bytes`, or
/// nothing where it does not accept them.
pub uninterp spec fn json_document(bytes: Seq<u8>) -> Option<Node>;

/// `serde_json::from_slice`, read as a `serde_json::Value`. Reading depends
/// on the bytes alone: it succeeds exactly where `json_document` names a
/// content, and the value then holds that content.
#[verifier::external_body]
pub(crate) fn json_from_slice(bytes: &[u8]) -> (parsed: Result<
    serde_json::Value,
    serde_json::Error,
>)
    ensures
        match parsed {
            Ok(value) => json_document(bytes@) == Some(json_node(value)),
            Err(_) => json_document(bytes@) is None,
        },
{
    serde_json::from_slice::<serde_json::Value>(bytes)
}

/// `serde_json::Value::as_bool`: the boolean of a boolean value, nothing for
/// any other value.
#[verifier::external_body]
pub(crate) fn json_as_bool(value: &serde_json::Value) -> (b: Option<bool>)
    ensures
        b == match json_node(*value) {
            Node::Bool(held) => Some(held),
            _ => None,
        },
{
    value.as_bool()
}

/// `serde_json::Value::as_i64`: the integer of a number that is an integer
/// in the range of `i64`, nothing for any other value. An integer that
/// `serde_json` holds lies in the range of `i64` or in that of `u64`.
#[verifier::external_body]
pub(crate) fn json_as_i64(value: &serde_json::Value) -> (i: Option<i64>)
    ensures
        match json_node(*value) {
            Node::Integer(held) => i64::MIN <= held <= u64::MAX && i == if held <= i64::MAX {
                Some(held as i64)
            } else {
                None
            },
            _ => i is None,
        },
{
    value.as_i64()
}

/// `serde_json::Value::as_u64`: the integer of a number that is an integer
/// in the range of `u64`, nothing for any other value.
#[verifier::external_body]
pub(crate) fn json_as_u64(value: &serde_json::Value) -> (u: Option<u64>)
    ensures
        u == match json_node(*value) {
            Node::Integer(held) => if 0 <= held <= u64::MAX {
                Some(held as u64)
            } else {
                None
            },
            _ => None,
        },
{
    value.as_u64()
}

/// `serde_json::Value::as_f64`, handed out as the bit pattern of the number:
/// the number of any number value, nothing for a value that is no number.
#[verifier::external_body]
pub(crate) fn json_as_f64_bits(value: &serde_json::Value) -> (bits: Option<u64>)
    ensures
        match json_node(*value) {
            Node::Float(held) => bits == Some(held),
            Node::Integer(_) => bits is Some,
            _ => bits is None,
        },
{
    value.as_f64().map(|number| number.to_bits())
}

/// `serde_json::Value::as_str`: the text of a string value, nothing for any
/// other value.
#[verifier::external_body]
pub(crate) fn json_as_str(value: &serde_json::Value) -> (s: Option<&str>)
    ensures
        match json_node(*value) {
            Node::Str(held) => s is Some && s->0@ == held,
            _ => s is None,
        },
{
    value.as_str()
}

/// `serde_json::Value::as_array`: the elements of an array value, nothing
/// for any other value.
#[verifier::external_body]
pub(crate) fn json_as_array(value: &serde_json::Value) -> (items: Option<&Vec<serde_json::Value>>)
    ensures
        match json_node(*value) {
            Node::List(held) => items is Some && items->0@.len() == held.len() && forall|i: int|
                0 <= i < held.len() ==> json_node(#[trigger] items->0@[i]) == held[i],
            _ => items is None,
        },
{
    value.as_array()
}

/// `serde_json::Value::as_object`: the map of an object value, nothing for
/// any other value.
#[verifier::external_body]
pub(crate) fn json_as_object(value: &serde_json::Value) -> (map: Option<
    &serde_json::Map<String, serde_json::Value>,
>)
    ensures
        match json_node(*value) {
            Node::Dict(held) => map is Some && json_pairs(*map->0) == held,
            _ => map is None,
        },
{
    value.as_object()
}

/// `serde_json::Map::iter`, collected: every key of the map with its value,
/// in the order in which the map is walked.
#[verifier::external_body]
pub(crate) fn json_map_iter(map: &serde_json::Map<String, serde_json::Value>) -> (pairs: Vec<
    (&String, &serde_json::Value),
>)
    ensures
        pairs@.len() == json_pairs(*map).len(),
        forall|i: int|
            0 <= i < pairs@.len() ==> (#[trigger] pairs@[i]).0@ == json_pairs(*map)[i].0
                && json_node(*pairs@[i].1) == json_pairs(*map)[i].1,
{
    map.iter().collect()
}

/// The element that holds what the JSON value `value` holds.
pub fn element_from_json(value: &serde_json::Value) -> (element: ConfigElement)
    ensures
        element@ == json_node(*value),
    decreases json_node(*value),
{
    if let Some(b) = json_as_bool(value) {
        return ConfigElement::Bool(b);
    }
    if let Some(i) = json_as_i64(value) {
        return ConfigElement::Integer(i);
    }
    if let Some(u) = json_as_u64(value) {
        return ConfigElement::Unsigned(u);
    }
    if let Some(bits) = json_as_f64_bits(value) {
        return ConfigElement::Float(bits);
    }
    if let Some(s) = json_as_str(value) {
        return ConfigElement::Str(s.to_owned());
    }
    if let Some(items) = json_as_array(value) {
        let ghost held = json_node(*value)->List_0;
        let mut list: Vec<ConfigElement> = Vec::new();
        let mut i: usize = 0;
        while i < items.len()
            invariant
                i <= items.len(),
                json_node(*value) == Node::List(held),
                items@.len() == held.len(),
                forall|j: int| 0 <= j < held.len() ==> json_node(#[trigger] items@[j]) == held[j],
                list@.len() == i,
                forall|j: int| 0 <= j < i ==> (#[trigger] list@[j])@ == held[j],
            decreases items.len() - i,
        {
            assert(decreases_to!(json_node(*value) => json_node(*value)->List_0));
            let converted = element_from_json(&items[i]);
            list.push(converted);
            i += 1;
        }
        let element = ConfigElement::List(list);
        assert(element@->List_0 =~= held);
        return element;
    }
    if let Some(map) = json_as_object(value) {
        let ghost held = json_node(*value)->Dict_0;
        let pairs = json_map_iter(map);
        let mut entries: Vec<(String, ConfigElement)> = Vec::new();
        let mut i: usize = 0;
        while i < pairs.len()
            invariant
                i <= pairs.len(),
                json_node(*value) == Node::Dict(held),
                pairs@.len() == held.len(),
                forall|j: int|
                    0 <= j < held.len() ==> (#[trigger] pairs@[j]).0@ == held[j].0 && json_node(
                        *pairs@[j].1,
                    ) == held[j].1,
                entries@.len() == i,
                forall|j: int|
                    0 <= j < i ==> (#[trigger] entries@[j]).0@ == held[j].0 && entries@[j].1@
                        == held[j].1,
            decreases pairs.len() - i,
        {
            assert(decreases_to!(json_node(*value) => json_node(*value)->Dict_0));
            let converted = element_from_json(pairs[i].1);
            entries.push((pairs[i].0.clone(), converted));
            i += 1;
        }
        let element = ConfigElement::Dict(ConfigElementMap { entries });
        assert(element@->Dict_0 =~= held);
        return element;
    }
    ConfigElement::Null
}

} // verus!
