//! A source that is a text in memory.

use vstd::prelude::*;
use vstd::string::StrSliceExecFns;
use crate::description::ConfigSourceDescription;
use crate::object::ConfigObject;
use crate::source::format::FormatParser;
use crate::source::ConfigSource;
use crate::source::SourceError;

verus! {

/// A text in the format `P`.
pub struct StringSource<P: FormatParser> {
    source: String,
    _pd: std::marker::PhantomData<P>,
}

/// Whether `outcome` is what loading a text with the bytes `bytes` in the
/// format `P` comes to: where the format accepts the bytes, a tree with the
/// content that it reads from them, of the representation of the format and
/// described as coming from a string; an error where it does not.
pub open spec fn loaded_from_text<P: FormatParser>(
    bytes: Seq<u8>,
    outcome: Result<ConfigObject, SourceError>,
) -> bool {
    match P::document(bytes) {
        Some(node) => {
            &&& outcome matches Ok(object)
            &&& object.root()@ == node
            &&& object.source() matches ConfigSourceDescription::Custom(label)
            &&& label@ == "String"@
            &&& object.format()@ == P::representation()
        },
        None => outcome is Err,
    }
}

impl<P: FormatParser> StringSource<P> {
    /// The text of this source.
    pub closed spec fn text(&self) -> Seq<char> {
        self.source@
    }

    /// The bytes of the text of this source: its UTF-8 encoding.
    pub open spec fn bytes(&self) -> Seq<u8> {
        vstd::utf8::encode_utf8(self.text())
    }

    /// The source that holds `source`. The text is not read before the
    /// source is loaded, so this does not fail.
    pub fn new(source: String) -> (made: Result<Self, SourceError>)
        ensures
            made matches Ok(it) && it.text() == source@,
    {
        Ok(StringSource { source, _pd: std::marker::PhantomData })
    }
}

impl<P: FormatParser> ConfigSource for StringSource<P> {
    open spec fn yields(&self, outcome: Result<ConfigObject, SourceError>) -> bool {
        loaded_from_text::<P>(self.bytes(), outcome)
    }

    /// Reads the text in the format `P`.
    fn load(&self) -> (loaded: Result<ConfigObject, SourceError>) {
        match P::parse(self.source.as_str().as_bytes_vec()) {
            Ok(element) => {
                let desc = ConfigSourceDescription::Custom("String".to_owned());
                Ok(ConfigObject::new(element, desc, P::format()))
            },
            Err(error) => Err(error),
        }
    }
}

} // verus!
