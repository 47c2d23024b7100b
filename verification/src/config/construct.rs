//! Reading elements as values of Rust types.

use std::collections::BTreeMap;
use std::collections::HashMap;
use vstd::prelude::*;
use vstd::string::StringExecFns;
use vstd::std_specs::convert::FromSpecImpl;
use crate::config::error::ConfigError;
use crate::accessor::parse_path;
use crate::config::layers::found;
use crate::config::layers::Layers;
use crate::element::kind::ConfigElementType;
use crate::element::lookup;
use crate::element::ConfigElement;
use crate::element::ConfigElementListType;
use crate::element::ConfigElementMap;
use crate::element::ConfigElementMapType;

verus! {

/// A type whose values can be made from the layers of a configuration.
pub trait ConfigConstructor: Sized {
    type Error;

    fn construct_from(layers: &Layers) -> Result<Self, Self::Error>;
}

/// A type whose values can be read from an element.
pub trait FromConfigElement: Sized {
    type Error;

    /// Whether `outcome` is what reading `element` as a value of this type
    /// gives. An implementation states it; where it does not, nothing is
    /// known of it.
    open spec fn reads(element: ConfigElement, outcome: Result<Self, Self::Error>) -> bool {
        arbitrary()
    }

    fn from_config_element(element: &ConfigElement) -> (outcome: Result<Self, Self::Error>)
        ensures
            Self::reads(*element, outcome),
    ;
}

/// Why an element could not be read as a value of a type.
#[derive(Debug)]
pub enum FromConfigElementError {
    /// An error of a custom reader, as text.
    Custom(String),
    /// The element is of another kind than the type asks for.
    TypeError { expected: &'static str, found: &'static str },
    /// A member of a structure has no element.
    NoElement { name: String, ty: String },
    /// The lookup of the element failed.
    ConfigError(ConfigError),
}

impl From<ConfigError> for FromConfigElementError {
    fn from(error: ConfigError) -> (e: Self) {
        FromConfigElementError::ConfigError(error)
    }
}

impl FromSpecImpl<ConfigError> for FromConfigElementError {
    open spec fn obeys_from_spec() -> bool {
        true
    }

    open spec fn from_spec(error: ConfigError) -> Self {
        FromConfigElementError::ConfigError(error)
    }
}

impl FromConfigElementError {
    /// What the message of this error says.
    pub open spec fn message_text(&self) -> Seq<char> {
        match self {
            FromConfigElementError::Custom(text) => text@,
            FromConfigElementError::TypeError { expected, found } => "Type error. Expected '"@
                + expected@ + "', got '"@ + found@ + "'"@,
            FromConfigElementError::NoElement { name, ty } => "Element for member "@ + name@
                + ": "@ + ty@ + " not found"@,
            FromConfigElementError::ConfigError(error) => error.message_text(),
        }
    }

    /// The message of this error for a reader.
    pub fn message(&self) -> (message: String)
        ensures
            message@ == self.message_text(),
    {
        match self {
            FromConfigElementError::Custom(text) => text.clone(),
            FromConfigElementError::TypeError { expected, found } => {
                let mut message = String::from_str("Type error. Expected '");
                message.append(expected);
                message.append("', got '");
                message.append(found);
                message.append("'");
                message
            },
            FromConfigElementError::NoElement { name, ty } => {
                let mut message = String::from_str("Element for member ");
                message.append(name.as_str());
                message.append(": ");
                message.append(ty.as_str());
                message.append(" not found");
                message
            },
            FromConfigElementError::ConfigError(error) => error.message(),
        }
    }
}

/// Whether `error` says that a value of the kind named `expected` was asked
/// for and `element` is of another kind, which it names.
pub open spec fn is_type_error(
    error: FromConfigElementError,
    expected: Seq<char>,
    element: ConfigElement,
) -> bool {
    error matches FromConfigElementError::TypeError { expected: wanted, found } && wanted@
        == expected && found@ == element.kind().name_text()
}

impl ConfigElementType {
    /// The name of this kind as it is written in messages.
    pub open spec fn name_text(&self) -> Seq<char> {
        match self {
            ConfigElementType::Null => "null"@,
            ConfigElementType::Bool => "bool"@,
            ConfigElementType::I8 => "i8"@,
            ConfigElementType::I16 => "i16"@,
            ConfigElementType::I32 => "i32"@,
            ConfigElementType::I64 => "i64"@,
            ConfigElementType::U8 => "u8"@,
            ConfigElementType::U16 => "u16"@,
            ConfigElementType::U32 => "u32"@,
            ConfigElementType::U64 => "u64"@,
            ConfigElementType::F32 => "f32"@,
            ConfigElementType::F64 => "f64"@,
            ConfigElementType::Str => "str"@,
            ConfigElementType::List => "list"@,
            ConfigElementType::Dict => "map"@,
        }
    }

    /// The name of this kind as it is written in messages.
    pub fn name(&self) -> (name: &'static str)
        ensures
            name@ == self.name_text(),
    {
        match self {
            ConfigElementType::Null => "null",
            ConfigElementType::Bool => "bool",
            ConfigElementType::I8 => "i8",
            ConfigElementType::I16 => "i16",
            ConfigElementType::I32 => "i32",
            ConfigElementType::I64 => "i64",
            ConfigElementType::U8 => "u8",
            ConfigElementType::U16 => "u16",
            ConfigElementType::U32 => "u32",
            ConfigElementType::U64 => "u64",
            ConfigElementType::F32 => "f32",
            ConfigElementType::F64 => "f64",
            ConfigElementType::Str => "str",
            ConfigElementType::List => "list",
            ConfigElementType::Dict => "map",
        }
    }
}

/// The error of finding `element` where a value of the kind named
/// `expected` was asked for.
fn type_error(expected: &'static str, element: &ConfigElement) -> (error: FromConfigElementError)
    ensures
        is_type_error(error, expected@, *element),
{
    let found = element.get_type().name();
    FromConfigElementError::TypeError { expected, found }
}

impl FromConfigElement for bool {
    type Error = FromConfigElementError;

    open spec fn reads(element: ConfigElement, outcome: Result<Self, Self::Error>) -> bool {
        match element {
            ConfigElement::Bool(b) => outcome == Ok::<bool, FromConfigElementError>(b),
            _ => outcome matches Err(error) && is_type_error(error, "bool"@, element),
        }
    }

    fn from_config_element(element: &ConfigElement) -> (outcome: Result<Self, Self::Error>) {
        match element.as_bool() {
            Some(b) => Ok(b),
            None => Err(type_error("bool", element)),
        }
    }
}

impl FromConfigElement for i8 {
    type Error = FromConfigElementError;

    open spec fn reads(element: ConfigElement, outcome: Result<Self, Self::Error>) -> bool {
        match element.integer_within(i8::MIN as int, i8::MAX as int) {
            Some(i) => outcome == Ok::<i8, FromConfigElementError>(i as i8),
            None => outcome matches Err(error) && is_type_error(error, "i8"@, element),
        }
    }

    fn from_config_element(element: &ConfigElement) -> (outcome: Result<Self, Self::Error>) {
        match element.as_i8() {
            Some(i) => Ok(i),
            None => Err(type_error("i8", element)),
        }
    }
}

impl FromConfigElement for i16 {
    type Error = FromConfigElementError;

    open spec fn reads(element: ConfigElement, outcome: Result<Self, Self::Error>) -> bool {
        match element.integer_within(i16::MIN as int, i16::MAX as int) {
            Some(i) => outcome == Ok::<i16, FromConfigElementError>(i as i16),
            None => outcome matches Err(error) && is_type_error(error, "i16"@, element),
        }
    }

    fn from_config_element(element: &ConfigElement) -> (outcome: Result<Self, Self::Error>) {
        match element.as_i16() {
            Some(i) => Ok(i),
            None => Err(type_error("i16", element)),
        }
    }
}

impl FromConfigElement for i32 {
    type Error = FromConfigElementError;

    open spec fn reads(element: ConfigElement, outcome: Result<Self, Self::Error>) -> bool {
        match element.integer_within(i32::MIN as int, i32::MAX as int) {
            Some(i) => outcome == Ok::<i32, FromConfigElementError>(i as i32),
            None => outcome matches Err(error) && is_type_error(error, "i32"@, element),
        }
    }

    fn from_config_element(element: &ConfigElement) -> (outcome: Result<Self, Self::Error>) {
        match element.as_i32() {
            Some(i) => Ok(i),
            None => Err(type_error("i32", element)),
        }
    }
}

impl FromConfigElement for i64 {
    type Error = FromConfigElementError;

    open spec fn reads(element: ConfigElement, outcome: Result<Self, Self::Error>) -> bool {
        match element.integer_within(i64::MIN as int, i64::MAX as int) {
            Some(i) => outcome == Ok::<i64, FromConfigElementError>(i as i64),
            None => outcome matches Err(error) && is_type_error(error, "i64"@, element),
        }
    }

    fn from_config_element(element: &ConfigElement) -> (outcome: Result<Self, Self::Error>) {
        match element.as_i64() {
            Some(i) => Ok(i),
            None => Err(type_error("i64", element)),
        }
    }
}

impl FromConfigElement for u8 {
    type Error = FromConfigElementError;

    open spec fn reads(element: ConfigElement, outcome: Result<Self, Self::Error>) -> bool {
        match element.integer_within(0, u8::MAX as int) {
            Some(i) => outcome == Ok::<u8, FromConfigElementError>(i as u8),
            None => outcome matches Err(error) && is_type_error(error, "u8"@, element),
        }
    }

    fn from_config_element(element: &ConfigElement) -> (outcome: Result<Self, Self::Error>) {
        match element.as_u8() {
            Some(i) => Ok(i),
            None => Err(type_error("u8", element)),
        }
    }
}

impl FromConfigElement for u16 {
    type Error = FromConfigElementError;

    open spec fn reads(element: ConfigElement, outcome: Result<Self, Self::Error>) -> bool {
        match element.integer_within(0, u16::MAX as int) {
            Some(i) => outcome == Ok::<u16, FromConfigElementError>(i as u16),
            None => outcome matches Err(error) && is_type_error(error, "u16"@, element),
        }
    }

    fn from_config_element(element: &ConfigElement) -> (outcome: Result<Self, Self::Error>) {
        match element.as_u16() {
            Some(i) => Ok(i),
            None => Err(type_error("u16", element)),
        }
    }
}

impl FromConfigElement for u32 {
    type Error = FromConfigElementError;

    open spec fn reads(element: ConfigElement, outcome: Result<Self, Self::Error>) -> bool {
        match element.integer_within(0, u32::MAX as int) {
            Some(i) => outcome == Ok::<u32, FromConfigElementError>(i as u32),
            None => outcome matches Err(error) && is_type_error(error, "u32"@, element),
        }
    }

    fn from_config_element(element: &ConfigElement) -> (outcome: Result<Self, Self::Error>) {
        match element.as_u32() {
            Some(i) => Ok(i),
            None => Err(type_error("u32", element)),
        }
    }
}

impl FromConfigElement for u64 {
    type Error = FromConfigElementError;

    open spec fn reads(element: ConfigElement, outcome: Result<Self, Self::Error>) -> bool {
        match element.integer_within(0, u64::MAX as int) {
            Some(i) => outcome == Ok::<u64, FromConfigElementError>(i as u64),
            None => outcome matches Err(error) && is_type_error(error, "u64"@, element),
        }
    }

    fn from_config_element(element: &ConfigElement) -> (outcome: Result<Self, Self::Error>) {
        match element.as_u64() {
            Some(i) => Ok(i),
            None => Err(type_error("u64", element)),
        }
    }
}

impl FromConfigElement for String {
    type Error = FromConfigElementError;

    open spec fn reads(element: ConfigElement, outcome: Result<Self, Self::Error>) -> bool {
        match element {
            ConfigElement::Str(s) => outcome matches Ok(text) && text@ == s@,
            _ => outcome matches Err(error) && is_type_error(error, "str"@, element),
        }
    }

    fn from_config_element(element: &ConfigElement) -> (outcome: Result<Self, Self::Error>) {
        match element.as_str() {
            Some(s) => Ok(s.to_owned()),
            None => Err(type_error("str", element)),
        }
    }
}

impl<T> FromConfigElement for Option<T> where T: FromConfigElement<Error = FromConfigElementError> {
    type Error = FromConfigElementError;

    /// `Null` reads as no value; any other element reads as `T` reads it.
    open spec fn reads(element: ConfigElement, outcome: Result<Self, Self::Error>) -> bool {
        if element is Null {
            outcome matches Ok(None)
        } else {
            match outcome {
                Ok(Some(value)) => T::reads(element, Ok(value)),
                Ok(None) => false,
                Err(error) => T::reads(element, Err(error)),
            }
        }
    }

    fn from_config_element(element: &ConfigElement) -> (outcome: Result<Self, Self::Error>) {
        if element.is_null() {
            Ok(None)
        } else {
            match T::from_config_element(element) {
                Ok(value) => Ok(Some(value)),
                Err(error) => Err(error),
            }
        }
    }
}

/// Whether `element` can be read as a value of `T`.
pub open spec fn readable<T>(element: ConfigElement) -> bool where
    T: FromConfigElement<Error = FromConfigElementError>,
 {
    exists|value: T| T::reads(element, Ok(value))
}

/// Whether reading the elements of `items` in turn as values of `T` ends at
/// position `i` with `error`: the element there fails with it, and every
/// element before it can be read.
pub open spec fn fails_first_at<T>(
    items: Seq<ConfigElement>,
    i: int,
    error: FromConfigElementError,
) -> bool where T: FromConfigElement<Error = FromConfigElementError> {
    &&& 0 <= i < items.len()
    &&& T::reads(items[i], Err(error))
    &&& forall|j: int| 0 <= j < i ==> readable::<T>(#[trigger] items[j])
}

/// Whether reading the elements of `items` in turn as values of `T` ends
/// with `error`, the error of the first element that cannot be read.
pub open spec fn fails_first<T>(
    items: Seq<ConfigElement>,
    error: FromConfigElementError,
) -> bool where T: FromConfigElement<Error = FromConfigElementError> {
    exists|i: int| fails_first_at::<T>(items, i, error)
}

/// The values of the entries `entries`, in order.
pub open spec fn values_of(entries: Seq<(String, ConfigElement)>) -> Seq<ConfigElement> {
    Seq::new(entries.len(), |i: int| entries[i].1)
}

impl<T> FromConfigElement for Vec<T> where T: FromConfigElement<Error = FromConfigElementError> {
    type Error = FromConfigElementError;

    /// A list reads as the values that its elements read as, in order, and
    /// fails with the error of the first element that cannot be read.
    /// Anything but a list is of the wrong kind.
    open spec fn reads(element: ConfigElement, outcome: Result<Self, Self::Error>) -> bool {
        match element {
            ConfigElement::List(items) => match outcome {
                Ok(values) => values@.len() == items@.len() && forall|i: int|
                    0 <= i < items@.len() ==> T::reads(#[trigger] items@[i], Ok(values@[i])),
                Err(error) => fails_first::<T>(items@, error),
            },
            _ => outcome matches Err(error) && is_type_error(error, "list"@, element),
        }
    }

    fn from_config_element(element: &ConfigElement) -> (outcome: Result<Self, Self::Error>) {
        let list = match element.as_list() {
            Some(list) => list,
            None => {
                return Err(type_error("list", element));
            },
        };
        let mut values: Vec<T> = Vec::new();
        let mut index: usize = 0;
        while index < list.len()
            invariant
                index <= list@.len(),
                *element == ConfigElement::List(*list),
                values@.len() == index,
                forall|i: int| 0 <= i < index ==> T::reads(#[trigger] list@[i], Ok(values@[i])),
            decreases list@.len() - index,
        {
            match list.at_index(index) {
                Some(item) => match T::from_config_element(item) {
                    Ok(value) => values.push(value),
                    Err(error) => {
                        proof {
                            assert forall|j: int| 0 <= j < index implies readable::<T>(
                                #[trigger] list@[j],
                            ) by {
                                assert(T::reads(list@[j], Ok(values@[j])));
                            }
                            assert(fails_first_at::<T>(list@, index as int, error));
                        }
                        return Err(error);
                    },
                },
                None => {},
            }
            index += 1;
        }
        Ok(values)
    }
}

/// Reads a map as its keys with the values that its elements read as, in
/// the order of the map. Fails with the error of the first element that
/// cannot be read, and with a type error on anything but a map.
pub fn entries_from_config_element<T>(element: &ConfigElement) -> (outcome: Result<
    Vec<(String, T)>,
    FromConfigElementError,
>) where T: FromConfigElement<Error = FromConfigElementError>
    ensures
        match *element {
            ConfigElement::Dict(map) => match outcome {
                Ok(pairs) => pairs@.len() == map.entries@.len() && forall|i: int|
                    0 <= i < pairs@.len() ==> (#[trigger] pairs@[i]).0@ == map.entries@[i].0@
                        && T::reads(map.entries@[i].1, Ok(pairs@[i].1)),
                Err(error) => fails_first::<T>(values_of(map.entries@), error),
            },
            _ => outcome matches Err(error) && is_type_error(error, "map"@, *element),
        },
{
    let map = match element.as_map() {
        Some(map) => map,
        None => {
            return Err(type_error("map", element));
        },
    };
    let mut pairs: Vec<(String, T)> = Vec::new();
    let mut index: usize = 0;
    while index < map.entries.len()
        invariant
            index <= map.entries@.len(),
            *element == ConfigElement::Dict(*map),
            pairs@.len() == index,
            forall|i: int|
                0 <= i < index ==> (#[trigger] pairs@[i]).0@ == map.entries@[i].0@ && T::reads(
                    map.entries@[i].1,
                    Ok(pairs@[i].1),
                ),
        decreases map.entries@.len() - index,
    {
        match T::from_config_element(&map.entries[index].1) {
            Ok(value) => pairs.push((map.entries[index].0.clone(), value)),
            Err(error) => {
                proof {
                    let items = values_of(map.entries@);
                    assert forall|j: int| 0 <= j < index implies readable::<T>(
                        #[trigger] items[j],
                    ) by {
                        assert(T::reads(map.entries@[j].1, Ok(pairs@[j].1)));
                    }
                    assert(fails_first_at::<T>(items, index as int, error));
                }
                return Err(error);
            },
        }
        index += 1;
    }
    Ok(pairs)
}

/// Whether `map` holds `value` under a key with the text `key`.
pub open spec fn holds_under<T>(map: Map<String, T>, key: Seq<char>, value: T) -> bool {
    exists|held: String| #[trigger] map.contains_key(held) && held@ == key && map[held] == value
}

/// Whether `map` is what the entries `entries` of a map element read as: it
/// holds a value under exactly the keys of the entries, one value under each,
/// and the value under a key is what the first entry with that key reads as.
pub open spec fn reads_entries<T>(
    entries: Seq<(String, ConfigElement)>,
    map: Map<String, T>,
) -> bool where T: FromConfigElement<Error = FromConfigElementError> {
    &&& forall|key: Seq<char>, value: T| #[trigger]
        holds_under(map, key, value) ==> (lookup(entries, key) matches Some(element) && T::reads(
            element,
            Ok(value),
        ))
    &&& forall|key: Seq<char>| #[trigger]
        lookup(entries, key) is Some ==> exists|value: T| holds_under(map, key, value)
    &&& forall|key: Seq<char>, one: T, other: T|
        #![trigger holds_under(map, key, one), holds_under(map, key, other)]
        holds_under(map, key, one) && holds_under(map, key, other) ==> one == other
}

/// Reads the member `name` of a structure from the layers: looks the name up
/// as a path and reads what is found as a `T`. Where no layer holds a value
/// there, the member has no element; `ty` is the name of its type for the
/// message. An error of the lookup is handed on.
pub fn member_from_layers<T>(layers: &Layers, name: &str, ty: &str) -> (outcome: Result<
    T,
    FromConfigElementError,
>) where T: FromConfigElement<Error = FromConfigElementError>
    ensures
        match found(layers@, parse_path(name@), None) {
            Ok(Some(element)) => T::reads(element, outcome),
            Ok(None) => outcome matches Err(FromConfigElementError::NoElement { name: n, ty: t })
                && n@ == name@ && t@ == ty@,
            Err(failure) => outcome matches Err(
                FromConfigElementError::ConfigError(ConfigError::ConfigObjectAccessError(error)),
            ) && error@ == failure,
        },
{
    match layers.get(name) {
        Ok(Some(element)) => T::from_config_element(element),
        Ok(None) => Err(
            FromConfigElementError::NoElement { name: name.to_owned(), ty: ty.to_owned() },
        ),
        Err(error) => Err(FromConfigElementError::ConfigError(error)),
    }
}

/// Reads the member `name` of a structure from a map: reads the value under
/// the key `name` as a `T`. Where the map has no such key, the member has no
/// element; `ty` is the name of its type for the message.
pub fn member_from_map<T>(map: &ConfigElementMap, name: &str, ty: &str) -> (outcome: Result<
    T,
    FromConfigElementError,
>) where T: FromConfigElement<Error = FromConfigElementError>
    ensures
        match lookup(map.entries@, name@) {
            Some(element) => T::reads(element, outcome),
            None => outcome matches Err(FromConfigElementError::NoElement { name: n, ty: t })
                && n@ == name@ && t@ == ty@,
        },
{
    match map.get(name) {
        Some(element) => T::from_config_element(element),
        None => Err(
            FromConfigElementError::NoElement { name: name.to_owned(), ty: ty.to_owned() },
        ),
    }
}

/// Whether `outcome` is what reading `element` as a map from keys to values
/// of `T` comes to, where `held` is what the map of an `Ok` holds: the map
/// that the entries read as, the error of the first value that cannot be read
/// otherwise, and a type error on anything but a map.
pub open spec fn reads_as_map<T>(
    element: ConfigElement,
    held: Option<Map<String, T>>,
    failure: Option<FromConfigElementError>,
) -> bool where T: FromConfigElement<Error = FromConfigElementError> {
    match element {
        ConfigElement::Dict(map) => match failure {
            None => held matches Some(held) && reads_entries::<T>(map.entries@, held),
            Some(error) => fails_first::<T>(values_of(map.entries@), error),
        },
        _ => failure matches Some(error) && is_type_error(error, "map"@, element),
    }
}

/// What a map holds after the pairs `pairs` were put into it from the last
/// to the first: under every key the value of the first pair with that key.
pub open spec fn first_wins<T>(pairs: Seq<(String, T)>) -> Map<Seq<char>, T>
    decreases pairs.len(),
{
    if pairs.len() == 0 {
        Map::empty()
    } else {
        first_wins(pairs.skip(1)).insert(pairs[0].0@, pairs[0].1)
    }
}

/// Whether `map` holds under the texts of its keys what `content` holds.
pub open spec fn holds_content<T>(map: Map<String, T>, content: Map<Seq<char>, T>) -> bool {
    forall|key: Seq<char>, value: T| #[trigger]
        holds_under(map, key, value) <==> content.contains_key(key) && content[key] == value
}

/// Pairs that were read from entries one by one give, put into a map from
/// the last to the first, the map that the entries read as.
proof fn lemma_first_wins<T>(entries: Seq<(String, ConfigElement)>, pairs: Seq<(String, T)>) where
    T: FromConfigElement<Error = FromConfigElementError>,

    requires
        pairs.len() == entries.len(),
        forall|i: int|
            0 <= i < pairs.len() ==> (#[trigger] pairs[i]).0@ == entries[i].0@ && T::reads(
                entries[i].1,
                Ok(pairs[i].1),
            ),
    ensures
        forall|key: Seq<char>|
            match #[trigger] lookup(entries, key) {
                Some(element) => first_wins(pairs).contains_key(key) && T::reads(
                    element,
                    Ok(first_wins(pairs)[key]),
                ),
                None => !first_wins(pairs).contains_key(key),
            },
    decreases pairs.len(),
{
    if pairs.len() > 0 {
        let fewer = entries.skip(1);
        let rest = pairs.skip(1);
        assert forall|i: int| 0 <= i < rest.len() implies (#[trigger] rest[i]).0@ == fewer[i].0@
            && T::reads(fewer[i].1, Ok(rest[i].1)) by {
            assert(pairs[i + 1] == rest[i]);
        }
        lemma_first_wins(fewer, rest);
        assert(pairs[0].0@ == entries[0].0@);
        assert forall|key: Seq<char>|
            match #[trigger] lookup(entries, key) {
                Some(element) => first_wins(pairs).contains_key(key) && T::reads(
                    element,
                    Ok(first_wins(pairs)[key]),
                ),
                None => !first_wins(pairs).contains_key(key),
            } by {
            if entries[0].0@ != key {
                assert(lookup(entries, key) == lookup(fewer, key));
            }
        }
    }
}

/// A map that holds the content that pairs read from entries come to is the
/// map that the entries read as.
proof fn lemma_filled_reads_entries<T>(
    entries: Seq<(String, ConfigElement)>,
    pairs: Seq<(String, T)>,
    map: Map<String, T>,
) where T: FromConfigElement<Error = FromConfigElementError>
    requires
        pairs.len() == entries.len(),
        forall|i: int|
            0 <= i < pairs.len() ==> (#[trigger] pairs[i]).0@ == entries[i].0@ && T::reads(
                entries[i].1,
                Ok(pairs[i].1),
            ),
        holds_content(map, first_wins(pairs)),
    ensures
        reads_entries::<T>(entries, map),
{
    lemma_first_wins(entries, pairs);
    let content = first_wins(pairs);
    assert forall|key: Seq<char>| #[trigger] lookup(entries, key) is Some implies exists|value: T|
        holds_under(map, key, value) by {
        assert(holds_under(map, key, content[key]));
    }
}

/// `HashMap::insert` with a `String` as key: the map then holds `value`
/// under the key, whatever it held there before, and under every other key
/// what it held before. Keys are the same where their texts are the same.
#[verifier::external_body]
fn hash_map_insert<T>(map: &mut HashMap<String, T>, key: String, value: T)
    ensures
        forall|text: Seq<char>, held: T| #[trigger]
            holds_under(final(map)@, text, held) <==> if text == key@ {
                held == value
            } else {
                holds_under(old(map)@, text, held)
            },
{
    map.insert(key, value);
}

impl<T> FromConfigElement for HashMap<String, T> where
    T: FromConfigElement<Error = FromConfigElementError>,
 {
    type Error = FromConfigElementError;

    /// A map element reads as the map that holds, under every key of the
    /// element, what the first entry with that key reads as, and fails with
    /// the error of the first value that cannot be read. Anything but a map
    /// is of the wrong kind.
    open spec fn reads(element: ConfigElement, outcome: Result<Self, Self::Error>) -> bool {
        match outcome {
            Ok(map) => reads_as_map::<T>(element, Some(map@), None),
            Err(error) => reads_as_map::<T>(element, None, Some(error)),
        }
    }

    fn from_config_element(element: &ConfigElement) -> (outcome: Result<Self, Self::Error>) {
        match entries_from_config_element::<T>(element) {
            Ok(pairs) => {
                let ghost all = pairs@;
                let ghost entries = (*element)->Dict_0.entries@;
                let mut rest = pairs;
                let mut filled: HashMap<String, T> = HashMap::new();
                assert(all.skip(all.len() as int) =~= Seq::<(String, T)>::empty());
                while rest.len() > 0
                    invariant
                        rest@ == all.take(rest@.len() as int),
                        rest@.len() <= all.len(),
                        holds_content(filled@, first_wins(all.skip(rest@.len() as int))),
                    decreases rest@.len(),
                {
                    let ghost before = rest@.len();
                    if let Some(pair) = rest.pop() {
                        assert(pair == all[before - 1]);
                        assert(all.skip(before - 1).skip(1) =~= all.skip(before as int));
                        assert(rest@ =~= all.take(before - 1));
                        hash_map_insert(&mut filled, pair.0, pair.1);
                    }
                }
                proof {
                    assert(all.skip(0) =~= all);
                    lemma_filled_reads_entries(entries, all, filled@);
                }
                Ok(filled)
            },
            Err(error) => Err(error),
        }
    }
}

/// `BTreeMap::insert` with a `String` as key: the map then holds `value`
/// under the key, whatever it held there before, and under every other key
/// what it held before. Keys are the same where their texts are the same.
#[verifier::external_body]
fn tree_map_insert<T>(map: &mut BTreeMap<String, T>, key: String, value: T)
    ensures
        forall|text: Seq<char>, held: T| #[trigger]
            holds_under(final(map)@, text, held) <==> if text == key@ {
                held == value
            } else {
                holds_under(old(map)@, text, held)
            },
{
    map.insert(key, value);
}

impl<T> FromConfigElement for BTreeMap<String, T> where
    T: FromConfigElement<Error = FromConfigElementError>,
 {
    type Error = FromConfigElementError;

    /// A map element reads as the map that holds, under every key of the
    /// element, what the first entry with that key reads as, and fails with
    /// the error of the first value that cannot be read. Anything but a map
    /// is of the wrong kind.
    open spec fn reads(element: ConfigElement, outcome: Result<Self, Self::Error>) -> bool {
        match outcome {
            Ok(map) => reads_as_map::<T>(element, Some(map@), None),
            Err(error) => reads_as_map::<T>(element, None, Some(error)),
        }
    }

    fn from_config_element(element: &ConfigElement) -> (outcome: Result<Self, Self::Error>) {
        match entries_from_config_element::<T>(element) {
            Ok(pairs) => {
                let ghost all = pairs@;
                let ghost entries = (*element)->Dict_0.entries@;
                let mut rest = pairs;
                let mut filled: BTreeMap<String, T> = BTreeMap::new();
                assert(all.skip(all.len() as int) =~= Seq::<(String, T)>::empty());
                while rest.len() > 0
                    invariant
                        rest@ == all.take(rest@.len() as int),
                        rest@.len() <= all.len(),
                        holds_content(filled@, first_wins(all.skip(rest@.len() as int))),
                    decreases rest@.len(),
                {
                    let ghost before = rest@.len();
                    if let Some(pair) = rest.pop() {
                        assert(pair == all[before - 1]);
                        assert(all.skip(before - 1).skip(1) =~= all.skip(before as int));
                        assert(rest@ =~= all.take(before - 1));
                        tree_map_insert(&mut filled, pair.0, pair.1);
                    }
                }
                proof {
                    assert(all.skip(0) =~= all);
                    lemma_filled_reads_entries(entries, all, filled@);
                }
                Ok(filled)
            },
            Err(error) => Err(error),
        }
    }
}

} // verus!
