use iso639::dataset::{parse_dataset, records_from_rows, LanguageRecord};
use iso639::entry::Entry;
use iso639::error::BuildError;
use iso639::identifier::{derive_identifier, is_identifier_str};
use iso639::text::{is_blank_char, trim};
use iso639::{IsoCompat, Language, LanguageTable, LocalizedString};

fn record(tag3: &str, tag1: &str, name: &str, autonym: &str) -> LanguageRecord {
    LanguageRecord {
        tag3: tag3.to_string(),
        tag1: tag1.to_string(),
        name: name.to_string(),
        autonym: autonym.to_string(),
    }
}

fn build_error(data: &[u8]) -> BuildError {
    match LanguageTable::from_dataset(data) {
        Ok(_) => panic!("the dataset built"),
        Err(e) => e,
    }
}

#[test]
fn white_space_is_what_std_calls_white_space() {
    let mut blanks = 0;
    for code in 0..=0x10ffff_u32 {
        if let Some(c) = char::from_u32(code) {
            assert_eq!(is_blank_char(c), c.is_whitespace(), "U+{:04X}", code);
            if is_blank_char(c) {
                blanks += 1;
            }
        }
    }
    assert_eq!(blanks, 25);
}

#[test]
fn trim_removes_white_space_at_both_ends_only() {
    let samples = [
        "",
        " ",
        "\t\r\n",
        "en",
        " en",
        "en ",
        "  e n  ",
        "\u{a0}fran\u{e7}ais\u{3000}",
        "\u{2003}\u{2003}",
        "a",
        " a",
        "\u{feff}a ",
        "Middle  English\n",
    ];
    for s in samples {
        assert_eq!(trim(s), s.trim(), "{:?}", s);
    }
    assert_eq!(trim("  e n  "), "e n");
    assert_eq!(trim("\t\r\n"), "");
}

#[test]
fn member_name_is_the_title_cased_code() {
    assert_eq!(derive_identifier("eng"), "Eng");
    assert_eq!(derive_identifier("ENG"), "Eng");
    assert_eq!(derive_identifier(" deu "), "Deu");
    assert_eq!(derive_identifier("e-g"), "E G");
    assert_eq!(derive_identifier(""), "");
}

#[test]
fn member_names_are_letters_and_digits_after_a_letter() {
    assert!(is_identifier_str("Eng"));
    assert!(is_identifier_str("E"));
    assert!(is_identifier_str("Q1x"));
    assert!(!is_identifier_str(""));
    assert!(!is_identifier_str("1ab"));
    assert!(!is_identifier_str("E G"));
    assert!(!is_identifier_str("En_"));
    assert!(!is_identifier_str("\u{c9}ng"));
    assert!(!is_identifier_str("En\u{e9}"));
}

#[test]
fn record_is_normalised() {
    let entry = Entry::from_record(&record("ENG", " EN\t", "English", "  English \n"));
    assert_eq!(
        entry,
        Entry {
            identifier: "Eng".to_string(),
            name: "English".to_string(),
            iso639_3: "eng".to_string(),
            iso639_1: Some("en".to_string()),
            autonym: Some("English".to_string()),
        }
    );
    let bare = Entry::from_record(&record("tlh", "", " Klingon ", " \u{a0} "));
    assert_eq!(bare.identifier, "Tlh");
    assert_eq!(bare.name, " Klingon ");
    assert_eq!(bare.iso639_3, "tlh");
    assert_eq!(bare.iso639_1, None);
    assert_eq!(bare.autonym, None);
}

#[test]
fn only_ascii_letters_are_lowered() {
    let entry = Entry::from_record(&record("\u{c9}NG", "\u{c9}N", "x", "\u{c9}N"));
    assert_eq!(entry.iso639_3, "\u{c9}ng");
    assert_eq!(entry.iso639_1, Some("\u{c9}n".to_string()));
    assert_eq!(entry.autonym, Some("\u{c9}N".to_string()));
}

#[test]
fn codes_are_stored_in_lower_case() {
    let table =
        LanguageTable::from_dataset(b"tag3\ttag1\tname\tautonym\nENG\tEn\tEnglish\tEnglish\n")
            .ok()
            .unwrap();
    let v = table.variant("Eng").unwrap();
    assert_eq!(v.iso639_3(&table), "eng");
    assert_eq!(v.iso639_1(&table), Some("en"));
    assert_eq!(Language::from_iso639_3(&table, "eng"), Ok(v));
    assert_eq!(Language::from_iso639_1(&table, "en"), Ok(v));
    assert!(Language::from_iso639_3(&table, "ENG").is_err());
}

#[test]
fn build_keeps_dataset_order() {
    let records = vec![
        record("fra", "fr", "French", "fran\u{e7}ais"),
        record("eng", "en", "English", "English"),
    ];
    let table = LanguageTable::build(&records).ok().unwrap();
    assert_eq!(table.len(), 2);
    assert_eq!(table.variant("Fra"), Some(Language { ordinal: 0 }));
    assert_eq!(table.variant("Eng"), Some(Language { ordinal: 1 }));
    assert_eq!(table.entry(Language { ordinal: 0 }), &Entry::from_record(&records[0]));
    assert_eq!(table.entry(Language { ordinal: 1 }), &Entry::from_record(&records[1]));
}

#[test]
fn empty_dataset_gives_an_empty_table() {
    let no_rows = LanguageTable::from_dataset(b"tag3\ttag1\tname\tautonym\n").ok().unwrap();
    assert_eq!(no_rows.len(), 0);
    assert_eq!(no_rows.variant_at(0), None);
    assert!(Language::from_name(&no_rows, "English").is_err());
    let nothing = LanguageTable::from_dataset(b"").ok().unwrap();
    assert_eq!(nothing.len(), 0);
    let built = LanguageTable::build(&Vec::new()).ok().unwrap();
    assert_eq!(built.len(), 0);
}

#[test]
fn header_row_is_ignored() {
    let table = LanguageTable::from_dataset(b"eng\ten\tEnglish\tEnglish\nfra\tfr\tFrench\t\n")
        .ok()
        .unwrap();
    assert_eq!(table.len(), 1);
    assert_eq!(table.variant("Eng"), None);
    assert_eq!(table.variant("Fra"), Some(Language { ordinal: 0 }));
    let short_header = LanguageTable::from_dataset(b"codes\neng\ten\tEnglish\tEnglish\n")
        .ok()
        .unwrap();
    assert_eq!(short_header.len(), 1);
}

#[test]
fn row_with_wrong_field_count_is_malformed() {
    let header = "tag3\ttag1\tname\tautonym\n";
    let short = format!("{}eng\ten\tEnglish\tEnglish\nfra\tfr\tFrench\n", header);
    assert_eq!(build_error(short.as_bytes()), BuildError::MalformedRecord(1));
    let long = format!("{}eng\ten\tEnglish\tEnglish\textra\n", header);
    assert_eq!(build_error(long.as_bytes()), BuildError::MalformedRecord(0));
    let first_of_two = format!("{}a\nb\n", header);
    assert_eq!(build_error(first_of_two.as_bytes()), BuildError::MalformedRecord(0));
    assert_eq!(BuildError::MalformedRecord(7).row(), 7);
}

#[test]
fn row_that_is_not_text_is_malformed() {
    let mut data = b"tag3\ttag1\tname\tautonym\neng\ten\tEnglish\tEnglish\n".to_vec();
    data.extend_from_slice(b"fra\tfr\tFrench\tfran\xe7ais\n");
    data.extend_from_slice(b"deu\tde\tGerman\tDeutsch\n");
    assert_eq!(build_error(&data), BuildError::MalformedRecord(1));
    assert_eq!(parse_dataset(&data), Err(BuildError::MalformedRecord(1)));
}

#[test]
fn malformed_row_is_reported_before_any_member_name() {
    let data = b"tag3\ttag1\tname\tautonym\n\t\tNothing\t\neng\ten\n";
    assert_eq!(build_error(data), BuildError::MalformedRecord(1));
}

#[test]
fn code_without_a_member_name_is_refused() {
    let header = "tag3\ttag1\tname\tautonym\n";
    let empty = format!("{}eng\ten\tEnglish\tEnglish\n\t\tNothing\t\n", header);
    assert_eq!(build_error(empty.as_bytes()), BuildError::InvalidIdentifier(1));
    let two_words = format!("{}e-g\t\tBroken\t\n", header);
    assert_eq!(build_error(two_words.as_bytes()), BuildError::InvalidIdentifier(0));
    let digit_first = format!("{}1ab\t\tDigit\t\n", header);
    assert_eq!(build_error(digit_first.as_bytes()), BuildError::InvalidIdentifier(0));
    assert_eq!(BuildError::InvalidIdentifier(3).row(), 3);
}

#[test]
fn repeated_member_name_is_a_collision() {
    let data = b"tag3\ttag1\tname\tautonym\n\
fra\tfr\tFrench\t\n\
eng\ten\tEnglish\tEnglish\n\
deu\tde\tGerman\t\n\
ENG\t\tShouting English\t\n\
fra\t\tFrench again\t\n";
    assert_eq!(build_error(data), BuildError::IdentifierCollision(3, 1));
    assert_eq!(BuildError::IdentifierCollision(3, 1).row(), 3);
    let records = vec![record("eng", "", "a", ""), record(" eng", "", "b", "")];
    assert_eq!(LanguageTable::build(&records).err(), Some(BuildError::IdentifierCollision(1, 0)));
}

#[test]
fn invalid_member_name_is_reported_before_its_collision() {
    let records = vec![record("e g", "", "a", ""), record("e g", "", "b", "")];
    assert_eq!(LanguageTable::build(&records).err(), Some(BuildError::InvalidIdentifier(0)));
}

#[test]
fn rows_become_records_field_by_field() {
    let rows = vec![
        Some(vec!["eng".to_string(), "en".to_string(), "English".to_string(), "".to_string()]),
        Some(vec![" x".to_string(), "".to_string(), "".to_string(), "y ".to_string()]),
    ];
    assert_eq!(
        records_from_rows(&rows),
        Ok(vec![record("eng", "en", "English", ""), record(" x", "", "", "y ")])
    );
    assert_eq!(records_from_rows(&Vec::new()), Ok(Vec::new()));
    let with_gap = vec![rows[0].clone(), None, Some(Vec::new())];
    assert_eq!(records_from_rows(&with_gap), Err(BuildError::MalformedRecord(1)));
    let with_short = vec![rows[0].clone(), Some(vec!["a".to_string(); 3]), None];
    assert_eq!(records_from_rows(&with_short), Err(BuildError::MalformedRecord(1)));
}

#[test]
fn dataset_is_read_as_tab_separated_text() {
    let data = "tag3\ttag1\tname\tautonym\r\n\
eng\ten\tEnglish\tEnglish\r\n\
\n\
zho\tzh\t\"Chinese\tMandarin\"\t\u{4e2d}\u{6587}\n\
sco\t\tScots, Lallans\t";
    assert_eq!(
        parse_dataset(data.as_bytes()),
        Ok(vec![
            record("eng", "en", "English", "English"),
            record("zho", "zh", "Chinese\tMandarin", "\u{4e2d}\u{6587}"),
            record("sco", "", "Scots, Lallans", ""),
        ])
    );
}

#[test]
fn localized_string_holds_its_parts() {
    let table = LanguageTable::from_dataset(
        b"tag3\ttag1\tname\tautonym\njpn\tja\tJapanese\t\neng\ten\tEnglish\tEnglish\n",
    )
    .ok()
    .unwrap();
    let jpn = table.variant("Jpn").unwrap();
    let eng = table.variant("Eng").unwrap();
    let title = LocalizedString {
        local: Some(iso639::String { language: Some(jpn), title: "Rash\u{14d}mon".to_string() }),
        other: vec![
            iso639::String { language: Some(eng), title: "Rashomon".to_string() },
            iso639::String { language: None, title: "In the Woods".to_string() },
        ],
    };
    assert_eq!(title.local.as_ref().unwrap().language.unwrap().name(&table), "Japanese");
    assert_eq!(title.other.len(), 2);
    assert_eq!(title.other[0].language, Some(eng));
    assert_eq!(title.other[1], iso639::String { language: None, title: "In the Woods".to_string() });
    assert_ne!(title.other[0], title.other[1]);
}
