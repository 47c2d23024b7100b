//! Where configuration trees are loaded from.

use vstd::prelude::*;
use vstd::string::StringExecFns;
use crate::object::ConfigObject;

pub mod format;
pub mod string;

verus! {

/// The error of `std::io`, carried through as it is.
#[verifier::external_type_specification]
#[verifier::external_body]
pub struct ExIoError(std::io::Error);

/// The error of turning bytes into a `String`, carried through as it is.
#[verifier::external_type_specification]
#[verifier::external_body]
pub struct ExFromUtf8Error(std::string::FromUtf8Error);

/// Something that a configuration tree can be loaded from, any number of
/// times. Two loads need not give the same tree.
pub trait ConfigSource {
    /// Whether `outcome` is something that a load of this source can come
    /// to. An implementation states it; where it does not, nothing is known
    /// of it.
    open spec fn yields(&self, outcome: Result<ConfigObject, SourceError>) -> bool {
        arbitrary()
    }

    fn load(&self) -> (loaded: Result<ConfigObject, SourceError>)
        ensures
            self.yields(loaded),
    ;
}

/// Why a source could not be loaded.
#[derive(Debug)]
pub enum SourceError {
    /// An error of a custom source, as text.
    Custom(String),
    Io(std::io::Error),
    JsonParserError(serde_json::Error),
    TomlParserError(toml::de::Error),
    Utf8(std::string::FromUtf8Error),
}

impl SourceError {
    /// What the message of this error says.
    pub open spec fn message_text(&self) -> Seq<char> {
        match self {
            SourceError::Custom(text) => text@,
            SourceError::Io(_) => "IO Error"@,
            SourceError::JsonParserError(_) => "JSON Parser error"@,
            SourceError::TomlParserError(_) => "TOML Parser error"@,
            SourceError::Utf8(_) => "UTF8 Error"@,
        }
    }

    /// The message of this error for a reader.
    pub fn message(&self) -> (message: String)
        ensures
            message@ == self.message_text(),
    {
        match self {
            SourceError::Custom(text) => text.clone(),
            SourceError::Io(_) => String::from_str("IO Error"),
            SourceError::JsonParserError(_) => String::from_str("JSON Parser error"),
            SourceError::TomlParserError(_) => String::from_str("TOML Parser error"),
            SourceError::Utf8(_) => String::from_str("UTF8 Error"),
        }
    }
}

} // verus!
