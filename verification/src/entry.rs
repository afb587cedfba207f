//! The normalised form of a dataset row: what the table stores for one
//! variant.

use vstd::prelude::*;
use vstd::string::StringExecFns;

use crate::dataset::{LanguageRecord, RecordView};
use crate::identifier::{derive_identifier, identifier_of};
use crate::text::{
    is_blank, lemma_lowercased_shape, lemma_lowercased_twice, lemma_trimmed_ends, lowercased,
    to_ascii_lowercase, trim, trimmed,
};

verus! {

/// The attributes of one variant.
#[derive(Debug, Clone, PartialEq, Eq)]
pub struct Entry {
    /// The member name of the variant.
    pub identifier: String,
    /// The English name.
    pub name: String,
    /// The three-letter code, in lower case.
    pub iso639_3: String,
    /// The two-letter code, in lower case, where the language has one.
    pub iso639_1: Option<String>,
    /// The autonym, where one is recorded.
    pub autonym: Option<String>,
}

/// What an [`Entry`] is in contracts.
pub struct EntryView {
    pub identifier: Seq<char>,
    pub name: Seq<char>,
    pub iso639_3: Seq<char>,
    pub iso639_1: Option<Seq<char>>,
    pub autonym: Option<Seq<char>>,
}

/// An optional text by the view of the text.
pub open spec fn optional_view(text: Option<String>) -> Option<Seq<char>> {
    match text {
        Some(t) => Some(t@),
        None => None,
    }
}

impl View for Entry {
    type V = EntryView;

    open spec fn view(&self) -> EntryView {
        EntryView {
            identifier: self.identifier@,
            name: self.name@,
            iso639_3: self.iso639_3@,
            iso639_1: optional_view(self.iso639_1),
            autonym: optional_view(self.autonym),
        }
    }
}

/// The entries of a sequence, each by its view.
pub open spec fn entry_views(entries: Seq<Entry>) -> Seq<EntryView> {
    entries.map_values(|e: Entry| e@)
}

/// An optional field: absent where nothing is left of it after trimming,
/// else the trimmed text. It is never present and empty.
pub open spec fn optional(field: Seq<char>) -> Option<Seq<char>> {
    if trimmed(field).len() == 0 {
        None
    } else {
        Some(trimmed(field))
    }
}

/// The entry that a record gives.
pub open spec fn entry_of(record: RecordView) -> EntryView {
    EntryView {
        identifier: identifier_of(record.tag3),
        name: record.name,
        iso639_3: lowercased(record.tag3),
        iso639_1: match optional(record.tag1) {
            Some(code) => Some(lowercased(code)),
            None => None,
        },
        autonym: optional(record.autonym),
    }
}

/// A text that is there: not empty, with no white space at either end.
pub open spec fn is_solid(text: Seq<char>) -> bool {
    text.len() > 0 && !is_blank(text.first()) && !is_blank(text.last())
}

/// The entry is in normal form: its codes are in lower case, and an optional
/// attribute that is present is not empty and has no white space at either
/// end.
pub open spec fn is_normal(e: EntryView) -> bool {
    &&& lowercased(e.iso639_3) == e.iso639_3
    &&& e.iso639_1 matches Some(code) ==> is_solid(code) && lowercased(code) == code
    &&& e.autonym matches Some(autonym) ==> is_solid(autonym)
}

/// Every record gives an entry in normal form.
pub proof fn lemma_entry_of_normal(record: RecordView)
    ensures
        is_normal(entry_of(record)),
{
    lemma_lowercased_twice(record.tag3);
    lemma_lowercased_twice(trimmed(record.tag1));
    lemma_lowercased_shape(trimmed(record.tag1));
    lemma_trimmed_ends(record.tag1);
    lemma_trimmed_ends(record.autonym);
}

/// The entries that the records give, in the order of the records.
pub open spec fn entries_of(records: Seq<RecordView>) -> Seq<EntryView> {
    records.map_values(|r: RecordView| entry_of(r))
}

impl Entry {
    /// Normalises a record.
    pub fn from_record(record: &LanguageRecord) -> (entry: Entry)
        ensures
            entry@ == entry_of(record@),
    {
        let tag1 = trim(record.tag1.as_str());
        let autonym = trim(record.autonym.as_str());
        Entry {
            identifier: derive_identifier(record.tag3.as_str()),
            name: record.name.clone(),
            iso639_3: to_ascii_lowercase(record.tag3.as_str()),
            iso639_1: if tag1.is_empty() {
                None
            } else {
                Some(to_ascii_lowercase(tag1))
            },
            autonym: if autonym.is_empty() {
                None
            } else {
                Some(String::from_str(autonym))
            },
        }
    }
}

} // verus!
