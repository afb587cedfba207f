//! A text together with the language it is written in.

use vstd::prelude::*;

use crate::iso_639::Iso639;

verus! {

/// A text and its language.
#[derive(Debug, PartialEq, Eq)]
pub struct String {
    /// The language of the text; `None` where it is unknown.
    pub language: Option<Iso639>,
    /// The text.
    pub title: std::string::String,
}

/// A title in the language in which a work was produced, and the same title
/// in other languages.
#[derive(Debug, PartialEq, Eq)]
pub struct LocalizedString {
    /// The title in the language in which the work was produced.
    pub local: Option<String>,
    /// The title in other languages, in the order given.
    pub other: Vec<String>,
}

} // verus!
