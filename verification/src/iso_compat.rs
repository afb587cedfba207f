//! The lookup-miss error and the typed interface over a language table.

use vstd::prelude::*;
use vstd::string::StringExecFns;

use crate::entry::is_solid;
use crate::index::find;
use crate::table::{autonyms, iso639_1s, iso639_3s, names, LanguageTable};
use crate::text::lowercased;

verus! {

/// A lookup that found nothing, with the text that was looked up.
#[derive(Debug, PartialEq, Eq)]
pub enum IsoErr {
    /// No variant has this three-letter code.
    UnknownLanguage(String),
    /// No variant has this English name.
    UnknownName(String),
    /// No variant has this two-letter code.
    UnknownIso639_1(String),
    /// No variant has this autonym.
    UnknownAutonym(String),
}

/// What an [`IsoErr`] is in contracts: its kind and the characters of the input.
pub enum ErrView {
    UnknownLanguage(Seq<char>),
    UnknownName(Seq<char>),
    UnknownIso639_1(Seq<char>),
    UnknownAutonym(Seq<char>),
}

impl View for IsoErr {
    type V = ErrView;

    open spec fn view(&self) -> ErrView {
        match self {
            IsoErr::UnknownLanguage(s) => ErrView::UnknownLanguage(s@),
            IsoErr::UnknownName(s) => ErrView::UnknownName(s@),
            IsoErr::UnknownIso639_1(s) => ErrView::UnknownIso639_1(s@),
            IsoErr::UnknownAutonym(s) => ErrView::UnknownAutonym(s@),
        }
    }
}

impl ErrView {
    /// The text that was looked up.
    pub open spec fn input(self) -> Seq<char> {
        match self {
            ErrView::UnknownLanguage(s) => s,
            ErrView::UnknownName(s) => s,
            ErrView::UnknownIso639_1(s) => s,
            ErrView::UnknownAutonym(s) => s,
        }
    }

    /// The sentence that says which kind of lookup failed.
    pub open spec fn description(self) -> Seq<char> {
        match self {
            ErrView::UnknownLanguage(_) => "Unknown ISO639_3 Language code provided"@,
            ErrView::UnknownName(_) => "Unknown Language name provided"@,
            ErrView::UnknownIso639_1(_) => "Unknown ISO639_1 Language code provided"@,
            ErrView::UnknownAutonym(_) => "Unknown Autonym provided"@,
        }
    }

    /// The diagnostic line: the description, a colon and a space, the input.
    pub open spec fn message(self) -> Seq<char> {
        self.description() + ": "@ + self.input()
    }
}

impl IsoErr {
    /// The text that was looked up and not found.
    pub fn input(&self) -> (r: &str)
        ensures
            r@ == self@.input(),
    {
        match self {
            IsoErr::UnknownLanguage(s) => s.as_str(),
            IsoErr::UnknownName(s) => s.as_str(),
            IsoErr::UnknownIso639_1(s) => s.as_str(),
            IsoErr::UnknownAutonym(s) => s.as_str(),
        }
    }

    /// The diagnostic line for this error.
    pub fn message(&self) -> (r: String)
        ensures
            r@ == self@.message(),
    {
        let description = match self {
            IsoErr::UnknownLanguage(_) => "Unknown ISO639_3 Language code provided",
            IsoErr::UnknownName(_) => "Unknown Language name provided",
            IsoErr::UnknownIso639_1(_) => "Unknown ISO639_1 Language code provided",
            IsoErr::UnknownAutonym(_) => "Unknown Autonym provided",
        };
        let mut line = String::from_str(description);
        line.append(": ");
        line.append(self.input());
        line
    }
}

/// An optional text slice by the view of the text.
pub open spec fn optional_str_view(text: Option<&str>) -> Option<Seq<char>> {
    match text {
        Some(t) => Some(t@),
        None => None,
    }
}

/// The typed interface over a language table: the attributes of a variant,
/// and the variant that an attribute resolves to.
///
/// The attribute of a variant of the table is always there for the name and
/// the three-letter code, and may be absent for the two-letter code and the
/// autonym. Each reverse lookup matches its text exactly, as it is stored,
/// with no folding of case; it resolves to the first variant in dataset order
/// that has the text, and fails, with the text it was given, exactly where no
/// variant has it.
pub trait IsoCompat: Sized {
    /// The position of the variant in the enumeration.
    spec fn ordinal(&self) -> nat;

    /// The English name.
    fn name<'a>(&self, table: &'a LanguageTable) -> (r: &'a str)
        requires
            self.ordinal() < table@.len(),
        ensures
            r@ == table@[self.ordinal() as int].name,
    ;

    /// The three-letter code, in lower case.
    fn iso639_3<'a>(&self, table: &'a LanguageTable) -> (r: &'a str)
        requires
            self.ordinal() < table@.len(),
        ensures
            r@ == table@[self.ordinal() as int].iso639_3,
            lowercased(r@) == r@,
    ;

    /// The two-letter code, in lower case, where the language has one. It is
    /// never present and empty.
    fn iso639_1<'a>(&self, table: &'a LanguageTable) -> (r: Option<&'a str>)
        requires
            self.ordinal() < table@.len(),
        ensures
            optional_str_view(r) == table@[self.ordinal() as int].iso639_1,
            r matches Some(code) ==> is_solid(code@) && lowercased(code@) == code@,
    ;

    /// The autonym, where one is recorded. It is never present and empty.
    fn autonym<'a>(&self, table: &'a LanguageTable) -> (r: Option<&'a str>)
        requires
            self.ordinal() < table@.len(),
        ensures
            optional_str_view(r) == table@[self.ordinal() as int].autonym,
            r matches Some(autonym) ==> is_solid(autonym@),
    ;

    /// The variant that owns the English name `name`.
    fn from_name(table: &LanguageTable, name: &str) -> (r: Result<Self, IsoErr>)
        ensures
            match r {
                Ok(v) => v.ordinal() < table@.len() && find(names(table@), name@) == Some(
                    v.ordinal() as int,
                ),
                Err(e) => find(names(table@), name@) is None && e@ == ErrView::UnknownName(name@),
            },
    ;

    /// The variant that owns the three-letter code `code`.
    fn from_iso639_3(table: &LanguageTable, code: &str) -> (r: Result<Self, IsoErr>)
        ensures
            match r {
                Ok(v) => v.ordinal() < table@.len() && find(iso639_3s(table@), code@) == Some(
                    v.ordinal() as int,
                ),
                Err(e) => find(iso639_3s(table@), code@) is None && e@
                    == ErrView::UnknownLanguage(code@),
            },
    ;

    /// The variant that owns the two-letter code `code`.
    fn from_iso639_1(table: &LanguageTable, code: &str) -> (r: Result<Self, IsoErr>)
        ensures
            match r {
                Ok(v) => v.ordinal() < table@.len() && find(iso639_1s(table@), code@) == Some(
                    v.ordinal() as int,
                ),
                Err(e) => find(iso639_1s(table@), code@) is None && e@
                    == ErrView::UnknownIso639_1(code@),
            },
    ;

    /// The variant that owns the autonym `autonym`.
    fn from_autonym(table: &LanguageTable, autonym: &str) -> (r: Result<Self, IsoErr>)
        ensures
            match r {
                Ok(v) => v.ordinal() < table@.len() && find(autonyms(table@), autonym@) == Some(
                    v.ordinal() as int,
                ),
                Err(e) => find(autonyms(table@), autonym@) is None && e@
                    == ErrView::UnknownAutonym(autonym@),
            },
    ;
}

} // verus!
