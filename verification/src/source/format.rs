//! The formats that a source can be written in.

use vstd::prelude::*;
use crate::description::ElementFormat;
use crate::description::FormatTag;
use crate::element::json::element_from_json;
use crate::element::json::json_document;
use crate::element::json::json_from_slice;
use crate::element::nesting::measure_nesting;
use crate::element::nesting::nesting;
use crate::element::toml::element_from_toml;
use crate::element::toml::toml_document;
use crate::element::toml::toml_from_slice;
use crate::element::toml::TOML_NESTING_LIMIT;
use crate::element::ConfigElement;
use crate::element::Node;
use crate::source::SourceError;

verus! {

/// A format: how the bytes of a source are read into a tree, and what the
/// layers that are read in it are called.
///
/// A format of one's own is added by implementing this trait, with an
/// [`ElementFormat::Custom`] of its own name as its `format`.
pub trait FormatParser {
    /// The content of the tree that the format reads from `buffer`, or
    /// nothing where it does not accept the bytes. An implementation states
    /// it; where it does not, nothing is known of it.
    open spec fn document(buffer: Seq<u8>) -> Option<Node> {
        arbitrary()
    }

    fn parse(buffer: Vec<u8>) -> (parsed: Result<ConfigElement, SourceError>)
        ensures
            match Self::document(buffer@) {
                Some(node) => parsed matches Ok(element) && element@ == node,
                None => parsed is Err,
            },
    ;

    /// What the format is, as the layers that are read in it say it. An
    /// implementation states it; where it does not, nothing is known of it.
    open spec fn representation() -> FormatTag {
        arbitrary()
    }

    /// What the format is: the representation of the layers that are read in
    /// it, by which a lookup can ask for their values.
    fn format() -> (format: ElementFormat)
        ensures
            format@ == Self::representation(),
    ;
}

/// JSON, read by `serde_json`.
#[derive(Debug)]
pub struct JsonFormatParser;

impl FormatParser for JsonFormatParser {
    open spec fn document(buffer: Seq<u8>) -> Option<Node> {
        json_document(buffer)
    }

    fn parse(buffer: Vec<u8>) -> (parsed: Result<ConfigElement, SourceError>)
        ensures
            parsed is Err ==> parsed->Err_0 is JsonParserError,
    {
        match json_from_slice(buffer.as_slice()) {
            Ok(value) => Ok(element_from_json(&value)),
            Err(error) => Err(SourceError::JsonParserError(error)),
        }
    }

    open spec fn representation() -> FormatTag {
        FormatTag::Json
    }

    fn format() -> (format: ElementFormat) {
        ElementFormat::Json
    }
}

/// TOML, read by `toml`. A datetime is read as the string that it is
/// written as.
///
/// A text that nests deeper than [`TOML_NESTING_LIMIT`] is refused: brackets
/// within brackets, the parts of dotted keys and the parts of the name of a
/// table count together, as far as they lie around one place of the text.
/// The depth is measured by [`nesting`], which is an upper bound.
#[derive(Debug)]
pub struct TomlFormatParser;

impl FormatParser for TomlFormatParser {
    open spec fn document(buffer: Seq<u8>) -> Option<Node> {
        if nesting(buffer) <= TOML_NESTING_LIMIT {
            toml_document(buffer)
        } else {
            None
        }
    }

    fn parse(buffer: Vec<u8>) -> (parsed: Result<ConfigElement, SourceError>)
        ensures
            parsed matches Err(error) ==> if nesting(buffer@) <= TOML_NESTING_LIMIT {
                error is TomlParserError
            } else {
                error matches SourceError::Custom(text) && text@
                    == "TOML text is nested too deeply"@
            },
    {
        if measure_nesting(buffer.as_slice()) > TOML_NESTING_LIMIT {
            return Err(SourceError::Custom("TOML text is nested too deeply".to_owned()));
        }
        match toml_from_slice(buffer.as_slice()) {
            Ok(value) => Ok(element_from_toml(&value)),
            Err(error) => Err(SourceError::TomlParserError(error)),
        }
    }

    open spec fn representation() -> FormatTag {
        FormatTag::Toml
    }

    fn format() -> (format: ElementFormat) {
        ElementFormat::Toml
    }
}

} // verus!
