//! What holds of every table: the laws that relate the attributes of a
//! variant to the variant that each attribute resolves to.

use vstd::prelude::*;

use crate::dataset::RecordView;
use crate::entry::{entries_of, entry_of, lemma_entry_of_normal, EntryView};
use crate::identifier::identifier_of;
use crate::index::{find, first_with, lemma_find, lemma_find_at_most, Keys};
use crate::table::{
    autonyms, identifier_fault, identifiers, is_enumeration, iso639_1s, iso639_3s, names,
};
use crate::text::{is_blank_text, lemma_trimmed_empty, lowercased};

verus! {

/// First wins. The key of a variant resolves to the earliest variant in
/// dataset order that has the same key. That is the variant itself exactly
/// where no earlier variant shares the key.
pub proof fn law_first_wins(keys: Keys, v: int)
    requires
        0 <= v < keys.len(),
        keys[v] is Some,
    ensures
        find(keys, keys[v]->0) matches Some(w) && first_with(keys, keys[v]->0, w) && w <= v,
        find(keys, keys[v]->0) == Some(v) <==> forall|j: int|
            0 <= j < v ==> #[trigger] keys[j] != keys[v],
{
    let key = keys[v]->0;
    lemma_find_at_most(keys, v);
    lemma_find(keys, key);
    let w = find(keys, key)->0;
    if forall|j: int| 0 <= j < v ==> #[trigger] keys[j] != keys[v] {
        if w < v {
            assert(keys[w] != keys[v]);
        }
    }
}

/// A key resolves to nothing exactly where no variant has it.
pub proof fn law_miss_iff_absent(keys: Keys, key: Seq<char>)
    ensures
        find(keys, key) is None <==> forall|i: int|
            0 <= i < keys.len() ==> #[trigger] keys[i] != Some(key),
{
    lemma_find(keys, key);
}

/// A variant is found again by its three-letter code, where no earlier
/// variant has the same code.
pub proof fn law_iso639_3_round_trip(table: Seq<EntryView>, v: int)
    requires
        0 <= v < table.len(),
        forall|j: int| 0 <= j < v ==> (#[trigger] table[j]).iso639_3 != table[v].iso639_3,
    ensures
        find(iso639_3s(table), table[v].iso639_3) == Some(v),
{
    let keys = iso639_3s(table);
    assert(keys[v] == Some(table[v].iso639_3));
    assert forall|j: int| 0 <= j < v implies #[trigger] keys[j] != keys[v] by {
        assert(keys[j] == Some(table[j].iso639_3));
    }
    law_first_wins(keys, v);
}

/// A variant that has a two-letter code is found again by it, where no
/// earlier variant has the same code.
pub proof fn law_iso639_1_round_trip(table: Seq<EntryView>, v: int)
    requires
        0 <= v < table.len(),
        table[v].iso639_1 is Some,
        forall|j: int| 0 <= j < v ==> (#[trigger] table[j]).iso639_1 != table[v].iso639_1,
    ensures
        find(iso639_1s(table), table[v].iso639_1->0) == Some(v),
{
    let keys = iso639_1s(table);
    assert(keys[v] == table[v].iso639_1);
    assert forall|j: int| 0 <= j < v implies #[trigger] keys[j] != keys[v] by {
        assert(keys[j] == table[j].iso639_1);
    }
    law_first_wins(keys, v);
}

/// The autonym of a variant resolves to the earliest variant with that
/// autonym: to the variant itself where no earlier one shares it, and to the
/// earlier one where one does.
pub proof fn law_autonym_round_trip(table: Seq<EntryView>, v: int)
    requires
        0 <= v < table.len(),
        table[v].autonym is Some,
    ensures
        find(autonyms(table), table[v].autonym->0) matches Some(w) && {
            &&& 0 <= w <= v
            &&& table[w].autonym == table[v].autonym
            &&& forall|j: int| 0 <= j < w ==> (#[trigger] table[j]).autonym != table[v].autonym
        },
        find(autonyms(table), table[v].autonym->0) == Some(v) <==> forall|j: int|
            0 <= j < v ==> (#[trigger] table[j]).autonym != table[v].autonym,
{
    let keys = autonyms(table);
    assert(keys[v] == table[v].autonym);
    law_first_wins(keys, v);
    let w = find(keys, keys[v]->0)->0;
    assert(keys[w] == table[w].autonym);
    assert forall|j: int| 0 <= j < w implies (#[trigger] table[j]).autonym
        != table[v].autonym by {
        assert(keys[j] == table[j].autonym);
    }
    if forall|j: int| 0 <= j < v ==> (#[trigger] table[j]).autonym != table[v].autonym {
        assert forall|j: int| 0 <= j < v implies #[trigger] keys[j] != keys[v] by {
            assert(keys[j] == table[j].autonym);
        }
    }
    if forall|j: int| 0 <= j < v ==> #[trigger] keys[j] != keys[v] {
        assert forall|j: int| 0 <= j < v implies (#[trigger] table[j]).autonym
            != table[v].autonym by {
            assert(keys[j] == table[j].autonym);
        }
    }
}

/// The English name of a variant resolves to the earliest variant with that
/// name, whatever later variants share it.
pub proof fn law_name_first_wins(table: Seq<EntryView>, v: int)
    requires
        0 <= v < table.len(),
    ensures
        find(names(table), table[v].name) matches Some(w) && {
            &&& 0 <= w <= v
            &&& table[w].name == table[v].name
            &&& forall|j: int| 0 <= j < w ==> (#[trigger] table[j]).name != table[v].name
        },
{
    let keys = names(table);
    assert(keys[v] == Some(table[v].name));
    law_first_wins(keys, v);
    let w = find(keys, keys[v]->0)->0;
    assert(keys[w] == Some(table[w].name));
    assert forall|j: int| 0 <= j < w implies (#[trigger] table[j]).name != table[v].name by {
        assert(keys[j] == Some(table[j].name));
    }
}

/// In an enumeration every variant is found again by its member name.
pub proof fn law_member_name_round_trip(table: Seq<EntryView>, v: int)
    requires
        is_enumeration(table),
        0 <= v < table.len(),
    ensures
        find(identifiers(table), table[v].identifier) == Some(v),
{
    let keys = identifiers(table);
    assert(keys[v] == Some(table[v].identifier));
    lemma_find_at_most(keys, v);
    assert(identifier_fault(table, v) is None);
}

/// The attributes of a variant come from its own row alone: a row that
/// shares a key with an earlier one keeps all of its attributes.
pub proof fn law_forward_unaffected(records: Seq<RecordView>, v: int)
    requires
        0 <= v < records.len(),
    ensures
        entries_of(records).len() == records.len(),
        entries_of(records)[v] == entry_of(records[v]),
        entries_of(records)[v].name == records[v].name,
        entries_of(records)[v].iso639_3 == lowercased(records[v].tag3),
        entries_of(records)[v].identifier == identifier_of(records[v].tag3),
{
}

/// The two-letter code and the autonym of a variant are absent exactly where
/// the field of its row is empty or holds white space only. Where they are
/// present they are not empty.
pub proof fn law_absent_iff_blank(records: Seq<RecordView>, v: int)
    requires
        0 <= v < records.len(),
    ensures
        entries_of(records)[v].iso639_1 is None <==> is_blank_text(records[v].tag1),
        entries_of(records)[v].autonym is None <==> is_blank_text(records[v].autonym),
        entries_of(records)[v].iso639_1 matches Some(code) ==> code.len() > 0,
        entries_of(records)[v].autonym matches Some(autonym) ==> autonym.len() > 0,
{
    lemma_trimmed_empty(records[v].tag1);
    lemma_trimmed_empty(records[v].autonym);
}

/// The codes of a variant are stored in lower case, whatever the case in
/// the dataset.
pub proof fn law_codes_lowercase(records: Seq<RecordView>, v: int)
    requires
        0 <= v < records.len(),
    ensures
        lowercased(entries_of(records)[v].iso639_3) == entries_of(records)[v].iso639_3,
        entries_of(records)[v].iso639_1 matches Some(code) ==> lowercased(code) == code,
{
    lemma_entry_of_normal(records[v]);
}

} // verus!
