//! Where a configuration tree came from.

use vstd::prelude::*;

verus! {

/// A label for the source of a layer. It is kept for the reader of a value
/// and plays no part in a lookup.
#[derive(Debug)]
pub enum ConfigSourceDescription {
    /// A free-form description, such as a file name.
    Custom(String),
    /// Nothing is known of the source.
    Unknown,
}

/// What a tree was read from, kept with the layer so that a lookup can ask
/// for the values of one representation only.
#[derive(Debug)]
pub enum ElementFormat {
    Json,
    Toml,
    /// A format of one's own, by its name.
    Custom(String),
}

/// What an [`ElementFormat`] says: two custom formats are the same where
/// their names are.
pub enum FormatTag {
    Json,
    Toml,
    Custom(Seq<char>),
}

impl View for ElementFormat {
    type V = FormatTag;

    open spec fn view(&self) -> FormatTag {
        match self {
            ElementFormat::Json => FormatTag::Json,
            ElementFormat::Toml => FormatTag::Toml,
            ElementFormat::Custom(name) => FormatTag::Custom(name@),
        }
    }
}

impl ElementFormat {
    /// Whether this format and `other` are the same.
    pub fn same(&self, other: &ElementFormat) -> (b: bool)
        ensures
            b == (self@ == other@),
    {
        match (self, other) {
            (ElementFormat::Json, ElementFormat::Json) => true,
            (ElementFormat::Toml, ElementFormat::Toml) => true,
            (ElementFormat::Custom(mine), ElementFormat::Custom(theirs)) => *mine == *theirs,
            _ => false,
        }
    }
}

} // verus!
