//! The variants of the enumeration that a language table defines.

use vstd::prelude::*;
use vstd::string::StringExecFns;

use crate::index::find;
use crate::iso_compat::{ErrView, IsoCompat, IsoErr};
use crate::table::{iso639_3s, LanguageTable};

verus! {

/// One language: a variant of the enumeration, known by its ordinal, the
/// index of its row in the dataset.
#[derive(Debug, PartialEq, Eq, Clone, Copy, Hash, Structural)]
pub struct Iso639 {
    /// The index of the variant's row in the dataset.
    pub ordinal: usize,
}

impl IsoCompat for Iso639 {
    open spec fn ordinal(&self) -> nat {
        self.ordinal as nat
    }

    fn name<'a>(&self, table: &'a LanguageTable) -> (r: &'a str) {
        table.entry(*self).name.as_str()
    }

    fn iso639_3<'a>(&self, table: &'a LanguageTable) -> (r: &'a str) {
        table.entry(*self).iso639_3.as_str()
    }

    fn iso639_1<'a>(&self, table: &'a LanguageTable) -> (r: Option<&'a str>) {
        match &table.entry(*self).iso639_1 {
            Some(code) => Some(code.as_str()),
            None => None,
        }
    }

    fn autonym<'a>(&self, table: &'a LanguageTable) -> (r: Option<&'a str>) {
        match &table.entry(*self).autonym {
            Some(autonym) => Some(autonym.as_str()),
            None => None,
        }
    }

    fn from_name(table: &LanguageTable, name: &str) -> (r: Result<Self, IsoErr>) {
        match table.find_name(name) {
            Some(v) => Ok(v),
            None => Err(IsoErr::UnknownName(String::from_str(name))),
        }
    }

    fn from_iso639_3(table: &LanguageTable, code: &str) -> (r: Result<Self, IsoErr>) {
        match table.find_iso639_3(code) {
            Some(v) => Ok(v),
            None => Err(IsoErr::UnknownLanguage(String::from_str(code))),
        }
    }

    fn from_iso639_1(table: &LanguageTable, code: &str) -> (r: Result<Self, IsoErr>) {
        match table.find_iso639_1(code) {
            Some(v) => Ok(v),
            None => Err(IsoErr::UnknownIso639_1(String::from_str(code))),
        }
    }

    fn from_autonym(table: &LanguageTable, autonym: &str) -> (r: Result<Self, IsoErr>) {
        match table.find_autonym(autonym) {
            Some(v) => Ok(v),
            None => Err(IsoErr::UnknownAutonym(String::from_str(autonym))),
        }
    }
}

impl Iso639 {
    /// Parses a variant from its canonical text, the three-letter code.
    pub fn from_str(table: &LanguageTable, s: &str) -> (r: Result<Iso639, IsoErr>)
        ensures
            match r {
                Ok(v) => table.has(v) && find(iso639_3s(table@), s@) == Some(v.ordinal as int),
                Err(e) => find(iso639_3s(table@), s@) is None && e@ == ErrView::UnknownLanguage(
                    s@,
                ),
            },
    {
        Iso639::from_iso639_3(table, s)
    }
}

} // verus!
