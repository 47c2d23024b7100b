//! One loaded configuration tree and the errors of descending into it.

use vstd::prelude::*;
use vstd::string::StringExecFns;
use crate::text::decimal;
use crate::text::decimal_text;
use crate::accessor::Accessor;
use crate::description::ConfigSourceDescription;
use crate::description::ElementFormat;
use crate::element::access::outcome_of;
use crate::element::kind::ConfigElementType;
use crate::element::ConfigElement;

verus! {

/// One layer: a configuration tree and the description of its source.
#[derive(Debug)]
pub struct ConfigObject {
    element: ConfigElement,
    source: ConfigSourceDescription,
    format: ElementFormat,
}

/// A value that a lookup found, with the description of the source of the
/// layer that held it.
#[derive(Debug)]
pub struct ConfigView<'a> {
    element: &'a ConfigElement,
    desc: &'a ConfigSourceDescription,
}

impl ConfigObject {
    /// The tree of this layer.
    pub closed spec fn root(&self) -> ConfigElement {
        self.element
    }

    /// The description of the source of this layer.
    pub closed spec fn source(&self) -> ConfigSourceDescription {
        self.source
    }

    /// What the tree of this layer was read from.
    pub closed spec fn format(&self) -> ElementFormat {
        self.format
    }

    pub fn new(
        element: ConfigElement,
        source: ConfigSourceDescription,
        format: ElementFormat,
    ) -> (object: Self)
        ensures
            object.root() == element,
            object.source() == source,
            object.format() == format,
    {
        Self { element, source, format }
    }

    /// What the tree of this layer was read from.
    pub fn representation(&self) -> (format: &ElementFormat)
        ensures
            *format == self.format(),
    {
        &self.format
    }

    /// Descends from the root of this layer along the segments at and behind
    /// the cursor of `accessor`.
    pub fn get<'a>(&'a self, accessor: &mut Accessor) -> (outcome: Result<
        Option<&'a ConfigElement>,
        ConfigObjectAccessError,
    >)
        ensures
            outcome_of(outcome) == self.root().resolve(old(accessor).remaining()),
            final(accessor).path() == old(accessor).path(),
            final(accessor).position() == old(accessor).position() + self.root().descended(
                old(accessor).remaining(),
            ),
    {
        self.element.access(accessor)
    }

    /// As `get`, but for the values of one representation: where this
    /// layer was read from another format than `format`, a value that it
    /// holds counts as not found. An error of the descent is handed on
    /// whatever the format.
    pub fn get_as<'a>(&'a self, accessor: &mut Accessor, format: &ElementFormat) -> (outcome:
        Result<Option<&'a ConfigElement>, ConfigObjectAccessError>)
        ensures
            outcome_of(outcome) == match self.root().resolve(old(accessor).remaining()) {
                Ok(Some(element)) => if self.format()@ == format@ {
                    Ok(Some(element))
                } else {
                    Ok(None)
                },
                other => other,
            },
            final(accessor).path() == old(accessor).path(),
            final(accessor).position() == old(accessor).position() + self.root().descended(
                old(accessor).remaining(),
            ),
    {
        match self.get(accessor) {
            Ok(Some(element)) => if self.format.same(format) {
                Ok(Some(element))
            } else {
                Ok(None)
            },
            Ok(None) => Ok(None),
            Err(error) => Err(error),
        }
    }

    /// As `get`, and hands the value out together with the description of
    /// the source of this layer.
    pub fn get_with_description<'a>(&'a self, accessor: &mut Accessor) -> (outcome: Result<
        Option<ConfigView<'a>>,
        ConfigObjectAccessError,
    >)
        ensures
            match self.root().resolve(old(accessor).remaining()) {
                Ok(Some(element)) => outcome matches Ok(Some(view)) && view.element() == element
                    && view.source() == self.source(),
                Ok(None) => outcome matches Ok(None),
                Err(failure) => outcome matches Err(error) && error@ == failure,
            },
            final(accessor).path() == old(accessor).path(),
            final(accessor).position() == old(accessor).position() + self.root().descended(
                old(accessor).remaining(),
            ),
    {
        match self.get(accessor) {
            Ok(Some(element)) => Ok(Some(ConfigView { element, desc: &self.source })),
            Ok(None) => Ok(None),
            Err(error) => Err(error),
        }
    }

    /// The description of the source of this layer.
    pub fn description(&self) -> (description: &ConfigSourceDescription)
        ensures
            *description == self.source(),
    {
        &self.source
    }
}

impl<'a> ConfigView<'a> {
    /// The value that was found.
    pub closed spec fn element(&self) -> ConfigElement {
        *self.element
    }

    /// The description of the source of the layer that held the value.
    pub closed spec fn source(&self) -> ConfigSourceDescription {
        *self.desc
    }

    /// The view of `element` as a value from the source `desc`.
    pub fn new(element: &'a ConfigElement, desc: &'a ConfigSourceDescription) -> (view: Self)
        ensures
            view.element() == *element,
            view.source() == *desc,
    {
        ConfigView { element, desc }
    }

    pub fn value(&self) -> (element: &ConfigElement)
        ensures
            *element == self.element(),
    {
        self.element
    }

    pub fn description(&self) -> (description: &ConfigSourceDescription)
        ensures
            *description == self.source(),
    {
        self.desc
    }
}

/// Why a descent into a configuration tree failed.
///
/// Every variant but `NoAccessor` names the kind of value that was met and
/// carries the key or index that was used on it.
#[derive(Debug)]
pub enum ConfigObjectAccessError {
    NoAccessor,
    AccessWithKeyOnNull(String),
    AccessWithKeyOnBool(String),
    AccessWithKeyOnI8(String),
    AccessWithKeyOnI16(String),
    AccessWithKeyOnI32(String),
    AccessWithKeyOnI64(String),
    AccessWithKeyOnU8(String),
    AccessWithKeyOnU16(String),
    AccessWithKeyOnU32(String),
    AccessWithKeyOnU64(String),
    AccessWithKeyOnF32(String),
    AccessWithKeyOnF64(String),
    AccessWithKeyOnStr(String),
    AccessWithKeyOnList(String),
    AccessWithIndexOnNull(usize),
    AccessWithIndexOnBool(usize),
    AccessWithIndexOnI8(usize),
    AccessWithIndexOnI16(usize),
    AccessWithIndexOnI32(usize),
    AccessWithIndexOnI64(usize),
    AccessWithIndexOnU8(usize),
    AccessWithIndexOnU16(usize),
    AccessWithIndexOnU32(usize),
    AccessWithIndexOnU64(usize),
    AccessWithIndexOnF32(usize),
    AccessWithIndexOnF64(usize),
    AccessWithIndexOnStr(usize),
    AccessWithIndexOnMap(usize),
}

/// What a [`ConfigObjectAccessError`] says: which kind of value was met, and
/// the key or index that was used on it.
pub enum AccessFailure {
    /// The path has no segment to descend by.
    NoAccessor,
    /// A key was used on a value that is not a map.
    KeyOn(ConfigElementType, Seq<char>),
    /// An index was used on a value that is not a list.
    IndexOn(ConfigElementType, nat),
}

impl View for ConfigObjectAccessError {
    type V = AccessFailure;

    open spec fn view(&self) -> AccessFailure {
        match self {
            ConfigObjectAccessError::NoAccessor => AccessFailure::NoAccessor,
            ConfigObjectAccessError::AccessWithKeyOnNull(key) => AccessFailure::KeyOn(
                ConfigElementType::Null,
                key@,
            ),
            ConfigObjectAccessError::AccessWithKeyOnBool(key) => AccessFailure::KeyOn(
                ConfigElementType::Bool,
                key@,
            ),
            ConfigObjectAccessError::AccessWithKeyOnI8(key) => AccessFailure::KeyOn(
                ConfigElementType::I8,
                key@,
            ),
            ConfigObjectAccessError::AccessWithKeyOnI16(key) => AccessFailure::KeyOn(
                ConfigElementType::I16,
                key@,
            ),
            ConfigObjectAccessError::AccessWithKeyOnI32(key) => AccessFailure::KeyOn(
                ConfigElementType::I32,
                key@,
            ),
            ConfigObjectAccessError::AccessWithKeyOnI64(key) => AccessFailure::KeyOn(
                ConfigElementType::I64,
                key@,
            ),
            ConfigObjectAccessError::AccessWithKeyOnU8(key) => AccessFailure::KeyOn(
                ConfigElementType::U8,
                key@,
            ),
            ConfigObjectAccessError::AccessWithKeyOnU16(key) => AccessFailure::KeyOn(
                ConfigElementType::U16,
                key@,
            ),
            ConfigObjectAccessError::AccessWithKeyOnU32(key) => AccessFailure::KeyOn(
                ConfigElementType::U32,
                key@,
            ),
            ConfigObjectAccessError::AccessWithKeyOnU64(key) => AccessFailure::KeyOn(
                ConfigElementType::U64,
                key@,
            ),
            ConfigObjectAccessError::AccessWithKeyOnF32(key) => AccessFailure::KeyOn(
                ConfigElementType::F32,
                key@,
            ),
            ConfigObjectAccessError::AccessWithKeyOnF64(key) => AccessFailure::KeyOn(
                ConfigElementType::F64,
                key@,
            ),
            ConfigObjectAccessError::AccessWithKeyOnStr(key) => AccessFailure::KeyOn(
                ConfigElementType::Str,
                key@,
            ),
            ConfigObjectAccessError::AccessWithKeyOnList(key) => AccessFailure::KeyOn(
                ConfigElementType::List,
                key@,
            ),
            ConfigObjectAccessError::AccessWithIndexOnNull(index) => AccessFailure::IndexOn(
                ConfigElementType::Null,
                *index as nat,
            ),
            ConfigObjectAccessError::AccessWithIndexOnBool(index) => AccessFailure::IndexOn(
                ConfigElementType::Bool,
                *index as nat,
            ),
            ConfigObjectAccessError::AccessWithIndexOnI8(index) => AccessFailure::IndexOn(
                ConfigElementType::I8,
                *index as nat,
            ),
            ConfigObjectAccessError::AccessWithIndexOnI16(index) => AccessFailure::IndexOn(
                ConfigElementType::I16,
                *index as nat,
            ),
            ConfigObjectAccessError::AccessWithIndexOnI32(index) => AccessFailure::IndexOn(
                ConfigElementType::I32,
                *index as nat,
            ),
            ConfigObjectAccessError::AccessWithIndexOnI64(index) => AccessFailure::IndexOn(
                ConfigElementType::I64,
                *index as nat,
            ),
            ConfigObjectAccessError::AccessWithIndexOnU8(index) => AccessFailure::IndexOn(
                ConfigElementType::U8,
                *index as nat,
            ),
            ConfigObjectAccessError::AccessWithIndexOnU16(index) => AccessFailure::IndexOn(
                ConfigElementType::U16,
                *index as nat,
            ),
            ConfigObjectAccessError::AccessWithIndexOnU32(index) => AccessFailure::IndexOn(
                ConfigElementType::U32,
                *index as nat,
            ),
            ConfigObjectAccessError::AccessWithIndexOnU64(index) => AccessFailure::IndexOn(
                ConfigElementType::U64,
                *index as nat,
            ),
            ConfigObjectAccessError::AccessWithIndexOnF32(index) => AccessFailure::IndexOn(
                ConfigElementType::F32,
                *index as nat,
            ),
            ConfigObjectAccessError::AccessWithIndexOnF64(index) => AccessFailure::IndexOn(
                ConfigElementType::F64,
                *index as nat,
            ),
            ConfigObjectAccessError::AccessWithIndexOnStr(index) => AccessFailure::IndexOn(
                ConfigElementType::Str,
                *index as nat,
            ),
            ConfigObjectAccessError::AccessWithIndexOnMap(index) => AccessFailure::IndexOn(
                ConfigElementType::Dict,
                *index as nat,
            ),
        }
    }
}

impl ConfigElementType {
    /// The name of this kind as it is written in the message of a failed
    /// descent.
    pub open spec fn title_text(&self) -> Seq<char> {
        match self {
            ConfigElementType::Null => "Null"@,
            ConfigElementType::Bool => "Bool"@,
            ConfigElementType::I8 => "i8"@,
            ConfigElementType::I16 => "i16"@,
            ConfigElementType::I32 => "i32"@,
            ConfigElementType::I64 => "i64"@,
            ConfigElementType::U8 => "u8"@,
            ConfigElementType::U16 => "u16"@,
            ConfigElementType::U32 => "u32"@,
            ConfigElementType::U64 => "u64"@,
            ConfigElementType::F32 => "f32"@,
            ConfigElementType::F64 => "f64"@,
            ConfigElementType::Str => "String"@,
            ConfigElementType::List => "List"@,
            ConfigElementType::Dict => "Map"@,
        }
    }

    /// The name of this kind as it is written in the message of a failed
    /// descent.
    pub fn title(&self) -> (title: &'static str)
        ensures
            title@ == self.title_text(),
    {
        match self {
            ConfigElementType::Null => "Null",
            ConfigElementType::Bool => "Bool",
            ConfigElementType::I8 => "i8",
            ConfigElementType::I16 => "i16",
            ConfigElementType::I32 => "i32",
            ConfigElementType::I64 => "i64",
            ConfigElementType::U8 => "u8",
            ConfigElementType::U16 => "u16",
            ConfigElementType::U32 => "u32",
            ConfigElementType::U64 => "u64",
            ConfigElementType::F32 => "f32",
            ConfigElementType::F64 => "f64",
            ConfigElementType::Str => "String",
            ConfigElementType::List => "List",
            ConfigElementType::Dict => "Map",
        }
    }
}

impl AccessFailure {
    /// The message of this failure for a reader: which kind of value was
    /// used with which key or index.
    pub open spec fn message_text(&self) -> Seq<char> {
        match self {
            AccessFailure::NoAccessor => "Tried to access with no accessor"@,
            AccessFailure::KeyOn(kind, key) => "Accessed "@ + kind.title_text() + " with key '"@
                + *key + "'"@,
            AccessFailure::IndexOn(kind, index) => "Accessed "@ + kind.title_text()
                + " with index '"@ + decimal_text(*index) + "'"@,
        }
    }
}

/// The message of using the key `key` on a value of kind `kind`.
fn with_key(kind: ConfigElementType, key: &String) -> (message: String)
    ensures
        message@ == AccessFailure::KeyOn(kind, key@).message_text(),
{
    let mut message = String::from_str("Accessed ");
    message.append(kind.title());
    message.append(" with key '");
    message.append(key.as_str());
    message.append("'");
    message
}

/// The message of using the index `index` on a value of kind `kind`.
fn with_index(kind: ConfigElementType, index: usize) -> (message: String)
    ensures
        message@ == AccessFailure::IndexOn(kind, index as nat).message_text(),
{
    let mut message = String::from_str("Accessed ");
    message.append(kind.title());
    message.append(" with index '");
    message.append(decimal(index).as_str());
    message.append("'");
    message
}

impl ConfigObjectAccessError {
    /// The message of this error for a reader.
    pub fn message(&self) -> (message: String)
        ensures
            message@ == self@.message_text(),
    {
        match self {
            ConfigObjectAccessError::NoAccessor => String::from_str(
                "Tried to access with no accessor",
            ),
            ConfigObjectAccessError::AccessWithKeyOnNull(key) => with_key(
                ConfigElementType::Null,
                key,
            ),
            ConfigObjectAccessError::AccessWithKeyOnBool(key) => with_key(
                ConfigElementType::Bool,
                key,
            ),
            ConfigObjectAccessError::AccessWithKeyOnI8(key) => with_key(
                ConfigElementType::I8,
                key,
            ),
            ConfigObjectAccessError::AccessWithKeyOnI16(key) => with_key(
                ConfigElementType::I16,
                key,
            ),
            ConfigObjectAccessError::AccessWithKeyOnI32(key) => with_key(
                ConfigElementType::I32,
                key,
            ),
            ConfigObjectAccessError::AccessWithKeyOnI64(key) => with_key(
                ConfigElementType::I64,
                key,
            ),
            ConfigObjectAccessError::AccessWithKeyOnU8(key) => with_key(
                ConfigElementType::U8,
                key,
            ),
            ConfigObjectAccessError::AccessWithKeyOnU16(key) => with_key(
                ConfigElementType::U16,
                key,
            ),
            ConfigObjectAccessError::AccessWithKeyOnU32(key) => with_key(
                ConfigElementType::U32,
                key,
            ),
            ConfigObjectAccessError::AccessWithKeyOnU64(key) => with_key(
                ConfigElementType::U64,
                key,
            ),
            ConfigObjectAccessError::AccessWithKeyOnF32(key) => with_key(
                ConfigElementType::F32,
                key,
            ),
            ConfigObjectAccessError::AccessWithKeyOnF64(key) => with_key(
                ConfigElementType::F64,
                key,
            ),
            ConfigObjectAccessError::AccessWithKeyOnStr(key) => with_key(
                ConfigElementType::Str,
                key,
            ),
            ConfigObjectAccessError::AccessWithKeyOnList(key) => with_key(
                ConfigElementType::List,
                key,
            ),
            ConfigObjectAccessError::AccessWithIndexOnNull(index) => with_index(
                ConfigElementType::Null,
                *index,
            ),
            ConfigObjectAccessError::AccessWithIndexOnBool(index) => with_index(
                ConfigElementType::Bool,
                *index,
            ),
            ConfigObjectAccessError::AccessWithIndexOnI8(index) => with_index(
                ConfigElementType::I8,
                *index,
            ),
            ConfigObjectAccessError::AccessWithIndexOnI16(index) => with_index(
                ConfigElementType::I16,
                *index,
            ),
            ConfigObjectAccessError::AccessWithIndexOnI32(index) => with_index(
                ConfigElementType::I32,
                *index,
            ),
            ConfigObjectAccessError::AccessWithIndexOnI64(index) => with_index(
                ConfigElementType::I64,
                *index,
            ),
            ConfigObjectAccessError::AccessWithIndexOnU8(index) => with_index(
                ConfigElementType::U8,
                *index,
            ),
            ConfigObjectAccessError::AccessWithIndexOnU16(index) => with_index(
                ConfigElementType::U16,
                *index,
            ),
            ConfigObjectAccessError::AccessWithIndexOnU32(index) => with_index(
                ConfigElementType::U32,
                *index,
            ),
            ConfigObjectAccessError::AccessWithIndexOnU64(index) => with_index(
                ConfigElementType::U64,
                *index,
            ),
            ConfigObjectAccessError::AccessWithIndexOnF32(index) => with_index(
                ConfigElementType::F32,
                *index,
            ),
            ConfigObjectAccessError::AccessWithIndexOnF64(index) => with_index(
                ConfigElementType::F64,
                *index,
            ),
            ConfigObjectAccessError::AccessWithIndexOnStr(index) => with_index(
                ConfigElementType::Str,
                *index,
            ),
            ConfigObjectAccessError::AccessWithIndexOnMap(index) => with_index(
                ConfigElementType::Dict,
                *index,
            ),
        }
    }
}

} // verus!
