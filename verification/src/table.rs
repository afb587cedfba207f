//! The language table: the enumeration of variants in dataset order, their
//! attributes, and the reverse lookups from each attribute.

use vstd::hash_map::StringHashMap;
use vstd::prelude::*;

use crate::dataset::{
    dataset_rows, is_first_malformed, parse_dataset, record_views, records_of, well_formed_before,
    LanguageRecord,
};
use crate::entry::{
    entries_of, entry_views, is_normal, lemma_entry_of_normal, Entry, EntryView,
};
use crate::error::BuildError;
use crate::identifier::{is_identifier, is_identifier_str};
use crate::index::{
    find, indexes, lemma_find, lemma_find_prefix, lemma_skip, lookup, register, Keys,
};
use crate::iso_639::Iso639;

verus! {

/// The member names, by ordinal.
pub open spec fn identifiers(table: Seq<EntryView>) -> Keys {
    table.map_values(|e: EntryView| Some(e.identifier))
}

/// The English names, by ordinal.
pub open spec fn names(table: Seq<EntryView>) -> Keys {
    table.map_values(|e: EntryView| Some(e.name))
}

/// The three-letter codes, by ordinal.
pub open spec fn iso639_3s(table: Seq<EntryView>) -> Keys {
    table.map_values(|e: EntryView| Some(e.iso639_3))
}

/// The two-letter codes, by ordinal.
pub open spec fn iso639_1s(table: Seq<EntryView>) -> Keys {
    table.map_values(|e: EntryView| e.iso639_1)
}

/// The autonyms, by ordinal.
pub open spec fn autonyms(table: Seq<EntryView>) -> Keys {
    table.map_values(|e: EntryView| e.autonym)
}

/// What is wrong with the member name of row `i`, if anything: it is not a
/// valid member name, or an earlier row has the same one.
pub open spec fn identifier_fault(table: Seq<EntryView>, i: int) -> Option<BuildError> {
    let first = find(identifiers(table), table[i].identifier);
    if !is_identifier(table[i].identifier) {
        Some(BuildError::InvalidIdentifier(i as usize))
    } else if first is Some && first->0 < i {
        Some(BuildError::IdentifierCollision(i as usize, first->0 as usize))
    } else {
        None
    }
}

/// No row before `n` has a fault in its member name.
pub open spec fn faultless_before(table: Seq<EntryView>, n: int) -> bool {
    forall|i: int| 0 <= i < n ==> (#[trigger] identifier_fault(table, i)) is None
}

/// The error `e` reports the first row whose member name has a fault.
pub open spec fn is_first_fault(table: Seq<EntryView>, e: BuildError) -> bool {
    &&& e.row() < table.len()
    &&& identifier_fault(table, e.row() as int) == Some(e)
    &&& faultless_before(table, e.row() as int)
}

/// The variant `r` is what the key resolves to in the column: the first
/// variant in dataset order that has the key, or none where no variant has
/// it.
pub open spec fn resolves(keys: Keys, key: Seq<char>, r: Option<Iso639>) -> bool {
    match r {
        Some(v) => find(keys, key) == Some(v.ordinal as int),
        None => find(keys, key) is None,
    }
}

/// The entries form an enumeration: every member name is valid, and no two
/// variants share one.
pub open spec fn is_enumeration(table: Seq<EntryView>) -> bool {
    faultless_before(table, table.len() as int)
}

/// What holds of the entries of every table: they form an enumeration, and
/// each of them is in normal form.
pub open spec fn is_well_formed(table: Seq<EntryView>) -> bool {
    &&& is_enumeration(table)
    &&& forall|i: int| 0 <= i < table.len() ==> is_normal(#[trigger] table[i])
}

/// The table of languages. Built once, never changed.
pub struct LanguageTable {
    entries: Vec<Entry>,
    by_identifier: StringHashMap<usize>,
    by_name: StringHashMap<usize>,
    by_iso639_3: StringHashMap<usize>,
    by_iso639_1: StringHashMap<usize>,
    by_autonym: StringHashMap<usize>,
}

impl View for LanguageTable {
    type V = Seq<EntryView>;

    /// The attributes of the variants, by ordinal.
    closed spec fn view(&self) -> Seq<EntryView> {
        entry_views(self.entries@)
    }
}

proof fn lemma_columns_push(table: Seq<EntryView>, e: EntryView)
    ensures
        identifiers(table.push(e)) == identifiers(table).push(Some(e.identifier)),
        names(table.push(e)) == names(table).push(Some(e.name)),
        iso639_3s(table.push(e)) == iso639_3s(table).push(Some(e.iso639_3)),
        iso639_1s(table.push(e)) == iso639_1s(table).push(e.iso639_1),
        autonyms(table.push(e)) == autonyms(table).push(e.autonym),
{
    assert(identifiers(table.push(e)) =~= identifiers(table).push(Some(e.identifier)));
    assert(names(table.push(e)) =~= names(table).push(Some(e.name)));
    assert(iso639_3s(table.push(e)) =~= iso639_3s(table).push(Some(e.iso639_3)));
    assert(iso639_1s(table.push(e)) =~= iso639_1s(table).push(e.iso639_1));
    assert(autonyms(table.push(e)) =~= autonyms(table).push(e.autonym));
}

impl LanguageTable {
    /// The entries are well formed, and each reverse lookup answers as the
    /// first-wins rule says over its column of the entries.
    #[verifier::type_invariant]
    closed spec fn wf(&self) -> bool {
        &&& is_well_formed(self@)
        &&& indexes(self.by_identifier@, identifiers(self@))
        &&& indexes(self.by_name@, names(self@))
        &&& indexes(self.by_iso639_3@, iso639_3s(self@))
        &&& indexes(self.by_iso639_1@, iso639_1s(self@))
        &&& indexes(self.by_autonym@, autonyms(self@))
    }

    /// Builds the table from the records of a dataset, in their order: the
    /// variant of ordinal `i` comes from record `i`. Succeeds exactly where
    /// the member names are valid and distinct; otherwise reports the first
    /// row whose member name has a fault. Where records share a name, a code
    /// or an autonym, the first of them owns it in the reverse lookup.
    pub fn build(records: &Vec<LanguageRecord>) -> (r: Result<LanguageTable, BuildError>)
        ensures
            match r {
                Ok(table) => {
                    &&& table@.len() == records.len()
                    &&& table@ == entries_of(record_views(records@))
                    &&& is_well_formed(table@)
                },
                Err(e) => is_first_fault(entries_of(record_views(records@)), e),
            },
    {
        let ghost target = entries_of(record_views(records@));
        let mut entries: Vec<Entry> = Vec::new();
        let mut by_identifier: StringHashMap<usize> = StringHashMap::new();
        let mut by_name: StringHashMap<usize> = StringHashMap::new();
        let mut by_iso639_3: StringHashMap<usize> = StringHashMap::new();
        let mut by_iso639_1: StringHashMap<usize> = StringHashMap::new();
        let mut by_autonym: StringHashMap<usize> = StringHashMap::new();
        for i in 0..records.len()
            invariant
                target == entries_of(record_views(records@)),
                target.len() == records.len(),
                entries@.len() == i,
                entry_views(entries@) == target.subrange(0, i as int),
                faultless_before(target, i as int),
                forall|j: int| 0 <= j < i ==> is_normal(#[trigger] target[j]),
                indexes(by_identifier@, identifiers(entry_views(entries@))),
                indexes(by_name@, names(entry_views(entries@))),
                indexes(by_iso639_3@, iso639_3s(entry_views(entries@))),
                indexes(by_iso639_1@, iso639_1s(entry_views(entries@))),
                indexes(by_autonym@, autonyms(entry_views(entries@))),
        {
            let ghost done = entry_views(entries@);
            let entry = Entry::from_record(&records[i]);
            proof {
                assert(entry@ == target[i as int]);
                lemma_entry_of_normal(records@[i as int]@);
                assert(identifiers(target).subrange(0, i as int) =~= identifiers(done));
                lemma_find_prefix(identifiers(target), i as int, entry@.identifier);
                lemma_columns_push(done, entry@);
                assert(entry_views(entries@.push(entry)) =~= done.push(entry@));
                assert(done.push(entry@) =~= target.subrange(0, i + 1));
            }
            if !is_identifier_str(entry.identifier.as_str()) {
                return Err(BuildError::InvalidIdentifier(i));
            }
            match lookup(&by_identifier, entry.identifier.as_str(), Ghost(identifiers(done))) {
                Some(first) => {
                    proof {
                        lemma_find(identifiers(done), entry@.identifier);
                    }
                    return Err(BuildError::IdentifierCollision(i, first));
                },
                None => {},
            }
            register(&mut by_identifier, entry.identifier.as_str(), i, Ghost(identifiers(done)));
            register(&mut by_name, entry.name.as_str(), i, Ghost(names(done)));
            register(&mut by_iso639_3, entry.iso639_3.as_str(), i, Ghost(iso639_3s(done)));
            match &entry.iso639_1 {
                Some(code) => register(&mut by_iso639_1, code.as_str(), i, Ghost(iso639_1s(done))),
                None => proof {
                    lemma_skip(by_iso639_1@, iso639_1s(done));
                },
            }
            match &entry.autonym {
                Some(autonym) => register(
                    &mut by_autonym,
                    autonym.as_str(),
                    i,
                    Ghost(autonyms(done)),
                ),
                None => proof {
                    lemma_skip(by_autonym@, autonyms(done));
                },
            }
            entries.push(entry);
        }
        proof {
            assert(target.subrange(0, records.len() as int) =~= target);
        }
        Ok(LanguageTable { entries, by_identifier, by_name, by_iso639_3, by_iso639_1, by_autonym })
    }

    /// Builds the table from the bytes of a dataset. Every row is held to
    /// the form of a record before any member name is looked at.
    pub fn from_dataset(data: &[u8]) -> (r: Result<LanguageTable, BuildError>)
        ensures
            match r {
                Ok(table) => {
                    &&& well_formed_before(dataset_rows(data@), dataset_rows(data@).len() as int)
                    &&& table@.len() == dataset_rows(data@).len()
                    &&& table@ == entries_of(records_of(dataset_rows(data@)))
                    &&& is_well_formed(table@)
                },
                Err(e) => if well_formed_before(
                    dataset_rows(data@),
                    dataset_rows(data@).len() as int,
                ) {
                    is_first_fault(entries_of(records_of(dataset_rows(data@))), e)
                } else {
                    is_first_malformed(dataset_rows(data@), e)
                },
            },
    {
        match parse_dataset(data) {
            Ok(records) => LanguageTable::build(&records),
            Err(e) => Err(e),
        }
    }

    /// The variant belongs to this table.
    pub open spec fn has(&self, v: Iso639) -> bool {
        v.ordinal < self@.len()
    }

    /// The number of variants.
    pub fn len(&self) -> (n: usize)
        ensures
            n == self@.len(),
    {
        self.entries.len()
    }

    /// Whether the variant belongs to this table.
    pub fn contains(&self, v: Iso639) -> (b: bool)
        ensures
            b == self.has(v),
    {
        v.ordinal < self.entries.len()
    }

    /// The variant of the given ordinal, if the table has that many.
    pub fn variant_at(&self, ordinal: usize) -> (r: Option<Iso639>)
        ensures
            r is Some <==> ordinal < self@.len(),
            r matches Some(v) ==> v.ordinal == ordinal,
    {
        if ordinal < self.entries.len() {
            Some(Iso639 { ordinal })
        } else {
            None
        }
    }

    /// The variant of the given member name. The entries of a table always
    /// form an enumeration, so the variant found is the only one of that
    /// name.
    pub fn variant(&self, identifier: &str) -> (r: Option<Iso639>)
        ensures
            resolves(identifiers(self@), identifier@, r),
            r matches Some(v) ==> self.has(v),
            is_well_formed(self@),
    {
        proof {
            use_type_invariant(self);
            lemma_find(identifiers(self@), identifier@);
        }
        match lookup(&self.by_identifier, identifier, Ghost(identifiers(self@))) {
            Some(ordinal) => Some(Iso639 { ordinal }),
            None => None,
        }
    }

    /// The attributes of a variant, which are in normal form.
    pub fn entry(&self, v: Iso639) -> (e: &Entry)
        requires
            self.has(v),
        ensures
            e@ == self@[v.ordinal as int],
            is_normal(e@),
            is_well_formed(self@),
    {
        proof {
            use_type_invariant(self);
            assert(is_normal(self@[v.ordinal as int]));
        }
        &self.entries[v.ordinal]
    }

    /// The variant that owns the English name `name`.
    pub fn find_name(&self, name: &str) -> (r: Option<Iso639>)
        ensures
            resolves(names(self@), name@, r),
            r matches Some(v) ==> self.has(v),
    {
        proof {
            use_type_invariant(self);
            lemma_find(names(self@), name@);
        }
        match lookup(&self.by_name, name, Ghost(names(self@))) {
            Some(ordinal) => Some(Iso639 { ordinal }),
            None => None,
        }
    }

    /// The variant that owns the three-letter code `code`.
    pub fn find_iso639_3(&self, code: &str) -> (r: Option<Iso639>)
        ensures
            resolves(iso639_3s(self@), code@, r),
            r matches Some(v) ==> self.has(v),
    {
        proof {
            use_type_invariant(self);
            lemma_find(iso639_3s(self@), code@);
        }
        match lookup(&self.by_iso639_3, code, Ghost(iso639_3s(self@))) {
            Some(ordinal) => Some(Iso639 { ordinal }),
            None => None,
        }
    }

    /// The variant that owns the two-letter code `code`.
    pub fn find_iso639_1(&self, code: &str) -> (r: Option<Iso639>)
        ensures
            resolves(iso639_1s(self@), code@, r),
            r matches Some(v) ==> self.has(v),
    {
        proof {
            use_type_invariant(self);
            lemma_find(iso639_1s(self@), code@);
        }
        match lookup(&self.by_iso639_1, code, Ghost(iso639_1s(self@))) {
            Some(ordinal) => Some(Iso639 { ordinal }),
            None => None,
        }
    }

    /// The variant that owns the autonym `autonym`.
    pub fn find_autonym(&self, autonym: &str) -> (r: Option<Iso639>)
        ensures
            resolves(autonyms(self@), autonym@, r),
            r matches Some(v) ==> self.has(v),
    {
        proof {
            use_type_invariant(self);
            lemma_find(autonyms(self@), autonym@);
        }
        match lookup(&self.by_autonym, autonym, Ghost(autonyms(self@))) {
            Some(ordinal) => Some(Iso639 { ordinal }),
            None => None,
        }
    }
}

} // verus!
