//! Layered configuration access.
//!
//! Configuration values come from several ordered sources, each read into a
//! tree of [`ConfigElement`]s. A dotted path such as `"foo.5.bar"` is parsed
//! into an [`Accessor`]: every segment that reads as a number is a position in
//! a list, every other segment is a key of a map. [`Layers`] resolves an
//! accessor against the stored trees from the most overriding layer down and
//! hands back the first value it finds.
//!
//! A missing key or an index past the end of a list is not an error: the layer
//! simply has no value there and the next layer is asked. Using a key on
//! something that is not a map, or an index on something that is not a list,
//! is an error and ends the whole lookup.
//!
//! # Sources and formats
//!
//! A [`ConfigSource`] is anything that a tree can be loaded from, any number
//! of times. [`StringSource`] is a text in memory in some format. A format is
//! a [`FormatParser`]: [`JsonFormatParser`] and [`TomlFormatParser`] come with
//! the crate, and a format of one's own is added by implementing the trait.
//! Whatever the format, the tree is held as [`ConfigElement`]s, so that layers
//! of different formats can be stacked.
//!
//! A [`Config`] keeps its sources and loads all of them anew on
//! [`Config::reload`]; the new layers take the place of the old ones as a
//! whole. [`AsyncConfig`] is the same for sources that the caller loads by
//! other means and hands in.
//!
//! # Reading values
//!
//! An element answers for every kind of value whether it can be read as that
//! kind (`is_i8`, `is_str`, ...) and hands the value out (`as_i8`, `as_str`,
//! ...). An integer is held by its value and a floating-point number in double
//! precision; the kinds are answered by range. [`FromConfigElement`] reads an
//! element as a value of a Rust type.
//!
//! Every layer keeps the [`ElementFormat`] that its tree was read from.
//! [`Layers::get_as`] looks a path up for the values of one format only and
//! passes the layers of the other formats over, so that values of different
//! formats at one path can each be reached.
//!
//! # What is proved
//!
//! Every function states what it returns, and the statements are proved. The
//! module [`config::laws`] holds what follows for lookups as a whole: that a
//! later layer wins, that a value of a single layer is found wherever the
//! layer lies, that absence is no error, and that a mismatch ends the lookup.

pub mod accessor;
pub mod config;
pub mod description;
pub mod element;
pub mod object;
pub mod source;
pub mod text;

pub use crate::accessor::AccessType;
pub use crate::accessor::Accessor;
pub use crate::accessor::AccessorParseError;
pub use crate::accessor::ParsableAccessor;
pub use crate::config::async_builder::AsyncConfigBuilder;
pub use crate::config::async_config::AsyncConfig;
pub use crate::config::builder::ConfigBuilder;
pub use crate::config::config::Config;
pub use crate::config::construct::ConfigConstructor;
pub use crate::config::construct::FromConfigElement;
pub use crate::config::construct::FromConfigElementError;
pub use crate::config::error::ConfigError;
pub use crate::config::layers::Layers;
pub use crate::description::ConfigSourceDescription;
pub use crate::description::ElementFormat;
pub use crate::element::kind::ConfigElementType;
pub use crate::element::ConfigElement;
pub use crate::element::ConfigElementListType;
pub use crate::element::ConfigElementMap;
pub use crate::element::ConfigElementMapType;
pub use crate::object::ConfigObject;
pub use crate::object::ConfigObjectAccessError;
pub use crate::object::ConfigView;
pub use crate::source::format::FormatParser;
pub use crate::source::format::JsonFormatParser;
pub use crate::source::format::TomlFormatParser;
pub use crate::source::string::StringSource;
pub use crate::source::ConfigSource;
pub use crate::source::SourceError;
