use iso639::{IsoCompat, IsoErr, Language, LanguageTable};

const SAMPLE: &str = "tag3\ttag1\tname\tautonym\n\
aar\taa\tAfar\tAfaraf\n\
deu\tde\tGerman\tDeutsch\n\
eng\ten\tEnglish\tEnglish\n\
enm\t\tMiddle English\t\n\
fra\tfr\tFrench\tfran\u{e7}ais\n\
sco\t\tScots\tScots\n";

fn sample() -> LanguageTable {
    match LanguageTable::from_dataset(SAMPLE.as_bytes()) {
        Ok(table) => table,
        Err(e) => panic!("the sample dataset did not build: {:?}", e),
    }
}

fn eng(table: &LanguageTable) -> Language {
    table.variant("Eng").unwrap()
}

#[test]
fn test_get_properties() {
    let table = sample();
    let eng = eng(&table);
    assert_eq!(eng.name(&table), "English");
    assert_eq!(eng.iso639_3(&table), "eng");
    assert_eq!(eng.iso639_1(&table), Some("en"));
    assert_eq!(eng.autonym(&table), Some("English"));
}

#[test]
fn test_get_from_properties() {
    let table = sample();
    let eng = eng(&table);
    assert_eq!(Language::from_name(&table, "English").ok(), Some(eng));
    assert_eq!(Language::from_iso639_3(&table, "eng").ok(), Some(eng));
    assert_eq!(Language::from_iso639_1(&table, "en").ok(), Some(eng));
    assert_eq!(Language::from_autonym(&table, "English").ok(), Some(eng));
}

#[test]
fn single_record_resolves_every_way() {
    let table =
        LanguageTable::from_dataset(b"tag3\ttag1\tname\tautonym\neng\ten\tEnglish\tEnglish\n")
            .ok()
            .unwrap();
    assert_eq!(table.len(), 1);
    let v = table.variant_at(0).unwrap();
    assert_eq!(table.variant("Eng"), Some(v));
    assert_eq!(v.name(&table), "English");
    assert_eq!(v.iso639_3(&table), "eng");
    assert_eq!(v.iso639_1(&table), Some("en"));
    assert_eq!(v.autonym(&table), Some("English"));
    assert_eq!(Language::from_name(&table, "English"), Ok(v));
    assert_eq!(Language::from_iso639_3(&table, "eng"), Ok(v));
    assert_eq!(Language::from_iso639_1(&table, "en"), Ok(v));
    assert_eq!(Language::from_autonym(&table, "English"), Ok(v));
}

#[test]
fn shared_name_resolves_to_first_record() {
    let table =
        LanguageTable::from_dataset(b"tag3\ttag1\tname\tautonym\naaa\t\tFoo\t\nbbb\t\tFoo\t\n")
            .ok()
            .unwrap();
    let aaa = table.variant("Aaa").unwrap();
    let bbb = table.variant("Bbb").unwrap();
    assert_ne!(aaa, bbb);
    assert_eq!(Language::from_name(&table, "Foo"), Ok(aaa));
    assert_eq!(aaa.name(&table), "Foo");
    assert_eq!(bbb.name(&table), "Foo");
    assert_eq!(Language::from_iso639_3(&table, "bbb"), Ok(bbb));
}

#[test]
fn unknown_three_letter_code_is_reported_with_its_input() {
    let table = sample();
    assert_eq!(
        Language::from_iso639_3(&table, "xyz"),
        Err(IsoErr::UnknownLanguage("xyz".to_string()))
    );
}

#[test]
fn every_variant_is_found_again_by_its_three_letter_code() {
    let table = sample();
    assert_eq!(table.len(), 6);
    for ordinal in 0..table.len() {
        let v = table.variant_at(ordinal).unwrap();
        let code = v.iso639_3(&table).to_string();
        assert_eq!(Language::from_iso639_3(&table, &code), Ok(v));
    }
}

#[test]
fn every_variant_with_a_two_letter_code_is_found_again_by_it() {
    let table = sample();
    let mut with_code = 0;
    for ordinal in 0..table.len() {
        let v = table.variant_at(ordinal).unwrap();
        if let Some(code) = v.iso639_1(&table) {
            with_code += 1;
            assert_eq!(Language::from_iso639_1(&table, code), Ok(v));
        }
    }
    assert_eq!(with_code, 4);
}

#[test]
fn autonym_resolves_to_itself_or_to_the_earlier_variant_that_shares_it() {
    let data = "tag3\ttag1\tname\tautonym\n\
hbs\tsh\tSerbo-Croatian\tsrpskohrvatski\n\
bos\tbs\tBosnian\tbosanski\n\
cnr\t\tMontenegrin\tsrpskohrvatski\n\
hrv\thr\tCroatian\thrvatski\n";
    let table = LanguageTable::from_dataset(data.as_bytes()).ok().unwrap();
    let hbs = table.variant("Hbs").unwrap();
    let bos = table.variant("Bos").unwrap();
    let cnr = table.variant("Cnr").unwrap();
    let hrv = table.variant("Hrv").unwrap();
    assert_eq!(Language::from_autonym(&table, hbs.autonym(&table).unwrap()), Ok(hbs));
    assert_eq!(Language::from_autonym(&table, bos.autonym(&table).unwrap()), Ok(bos));
    assert_eq!(Language::from_autonym(&table, hrv.autonym(&table).unwrap()), Ok(hrv));
    assert_eq!(cnr.autonym(&table), Some("srpskohrvatski"));
    assert_eq!(Language::from_autonym(&table, cnr.autonym(&table).unwrap()), Ok(hbs));
}

#[test]
fn shared_two_letter_code_resolves_to_first_record() {
    let table = LanguageTable::from_dataset(
        b"tag3\ttag1\tname\tautonym\nnob\tno\tBokmal\t\nnor\tno\tNorwegian\tnorsk\n",
    )
    .ok()
    .unwrap();
    let nob = table.variant("Nob").unwrap();
    let nor = table.variant("Nor").unwrap();
    assert_eq!(Language::from_iso639_1(&table, "no"), Ok(nob));
    assert_eq!(nor.iso639_1(&table), Some("no"));
    assert_eq!(Language::from_iso639_3(&table, "nor"), Ok(nor));
    assert_eq!(Language::from_name(&table, "Norwegian"), Ok(nor));
    assert_eq!(Language::from_autonym(&table, "norsk"), Ok(nor));
}

#[test]
fn each_lookup_fails_with_its_own_kind_and_the_input() {
    let table = sample();
    assert_eq!(
        Language::from_name(&table, "Klingon"),
        Err(IsoErr::UnknownName("Klingon".to_string()))
    );
    assert_eq!(
        Language::from_iso639_3(&table, "tlh"),
        Err(IsoErr::UnknownLanguage("tlh".to_string()))
    );
    assert_eq!(
        Language::from_iso639_1(&table, "zz"),
        Err(IsoErr::UnknownIso639_1("zz".to_string()))
    );
    assert_eq!(
        Language::from_autonym(&table, "tlhIngan Hol"),
        Err(IsoErr::UnknownAutonym("tlhIngan Hol".to_string()))
    );
}

#[test]
fn lookups_match_exactly_and_keep_the_input_as_given() {
    let table = sample();
    assert_eq!(
        Language::from_iso639_3(&table, "ENG"),
        Err(IsoErr::UnknownLanguage("ENG".to_string()))
    );
    assert_eq!(
        Language::from_iso639_1(&table, "EN"),
        Err(IsoErr::UnknownIso639_1("EN".to_string()))
    );
    assert_eq!(
        Language::from_name(&table, "english"),
        Err(IsoErr::UnknownName("english".to_string()))
    );
    assert_eq!(
        Language::from_name(&table, " English"),
        Err(IsoErr::UnknownName(" English".to_string()))
    );
    assert_eq!(Language::from_name(&table, ""), Err(IsoErr::UnknownName(String::new())));
}

#[test]
fn name_and_three_letter_code_are_there_for_every_variant() {
    let table = sample();
    let expected = [
        ("Afar", "aar"),
        ("German", "deu"),
        ("English", "eng"),
        ("Middle English", "enm"),
        ("French", "fra"),
        ("Scots", "sco"),
    ];
    for (ordinal, (name, code)) in expected.iter().enumerate() {
        let v = table.variant_at(ordinal).unwrap();
        assert!(table.contains(v));
        assert_eq!(v.name(&table), *name);
        assert_eq!(v.iso639_3(&table), *code);
    }
}

#[test]
fn optional_attributes_are_absent_exactly_for_blank_fields() {
    let table = sample();
    let enm = table.variant("Enm").unwrap();
    let sco = table.variant("Sco").unwrap();
    let fra = table.variant("Fra").unwrap();
    assert_eq!(enm.iso639_1(&table), None);
    assert_eq!(enm.autonym(&table), None);
    assert_eq!(sco.iso639_1(&table), None);
    assert_eq!(sco.autonym(&table), Some("Scots"));
    assert_eq!(fra.iso639_1(&table), Some("fr"));
    assert_eq!(fra.autonym(&table), Some("fran\u{e7}ais"));
}

#[test]
fn from_str_parses_the_three_letter_code() {
    let table = sample();
    let deu = table.variant("Deu").unwrap();
    assert_eq!(Language::from_str(&table, "deu"), Ok(deu));
    assert_eq!(Language::from_str(&table, "de"), Err(IsoErr::UnknownLanguage("de".to_string())));
}

#[test]
fn variants_are_numbered_in_dataset_order() {
    let table = sample();
    assert_eq!(table.variant("Aar"), Some(Language { ordinal: 0 }));
    assert_eq!(table.variant("Sco"), Some(Language { ordinal: 5 }));
    assert_eq!(table.variant_at(5), Some(Language { ordinal: 5 }));
    assert_eq!(table.variant_at(6), None);
    assert!(!table.contains(Language { ordinal: 6 }));
    assert_eq!(table.variant("eng"), None);
    assert_eq!(table.variant("Xyz"), None);
    assert_eq!(table.entry(Language { ordinal: 2 }).identifier, "Eng");
}

#[test]
fn error_message_names_the_kind_and_the_input() {
    assert_eq!(
        IsoErr::UnknownLanguage("xyz".to_string()).message(),
        "Unknown ISO639_3 Language code provided: xyz"
    );
    assert_eq!(
        IsoErr::UnknownName("Foo".to_string()).message(),
        "Unknown Language name provided: Foo"
    );
    assert_eq!(
        IsoErr::UnknownIso639_1("zz".to_string()).message(),
        "Unknown ISO639_1 Language code provided: zz"
    );
    assert_eq!(
        IsoErr::UnknownAutonym("".to_string()).message(),
        "Unknown Autonym provided: "
    );
    assert_eq!(IsoErr::UnknownAutonym("abc".to_string()).input(), "abc");
}
