use wordnik::args::{StringParam, format_bool, format_csv, format_enum};
use wordnik::wire::{format_i32, format_u32};
use wordnik::{PartOfSpeech, SortOrder, SortType, SourceDictionaries};

#[test]
fn booleans_are_word_literals() {
    assert_eq!(format_bool(true), "true");
    assert_eq!(format_bool(false), "false");
}

#[test]
fn unsigned_decimal_is_canonical() {
    assert_eq!(format_u32(0), "0");
    assert_eq!(format_u32(7), "7");
    assert_eq!(format_u32(10), "10");
    assert_eq!(format_u32(200), "200");
    assert_eq!(format_u32(u32::MAX), "4294967295");
}

#[test]
fn signed_decimal_signs_only_negatives() {
    assert_eq!(format_i32(0), "0");
    assert_eq!(format_i32(-1), "-1");
    assert_eq!(format_i32(42), "42");
    assert_eq!(format_i32(i32::MIN), "-2147483648");
    assert_eq!(format_i32(i32::MAX), "2147483647");
}

#[test]
fn csv_joins_in_list_order() {
    let empty: [PartOfSpeech; 0] = [];
    assert_eq!(format_csv(&empty), "");
    assert_eq!(format_csv(&[PartOfSpeech::Noun]), "noun");
    assert_eq!(
        format_csv(&[PartOfSpeech::VerbTransitive, PartOfSpeech::Noun, PartOfSpeech::Affix]),
        "verb-transitive,noun,affix"
    );
}

#[test]
fn enum_values_render_their_tag() {
    assert_eq!(format_enum(&SortType::Alpha), "alpha");
    assert_eq!(format_enum(&SortOrder::Desc), "desc");
    assert_eq!(format_enum(&SourceDictionaries::AmericanHeritage), "ahd-5");
}

#[test]
fn sort_tags_are_stable() {
    assert_eq!(SortType::Alpha.as_str(), "alpha");
    assert_eq!(SortType::Count.as_str(), "count");
    assert_eq!(SortOrder::Asc.as_str(), "asc");
    assert_eq!(SortOrder::Desc.as_str(), "desc");
}

#[test]
fn source_dictionary_tags_are_stable() {
    assert_eq!(SourceDictionaries::All.as_str(), "all");
    assert_eq!(SourceDictionaries::AmericanHeritage.as_str(), "ahd-5");
    assert_eq!(SourceDictionaries::Century.as_str(), "century");
    assert_eq!(SourceDictionaries::Cmu.as_str(), "cmu");
    assert_eq!(SourceDictionaries::Macmillan.as_str(), "macmillan");
    assert_eq!(SourceDictionaries::Webster.as_str(), "webster");
    assert_eq!(SourceDictionaries::Wiktionary.as_str(), "wiktionary");
    assert_eq!(SourceDictionaries::Wordnet.as_str(), "wordnet");
}

#[test]
fn part_of_speech_tags_are_stable() {
    assert_eq!(PartOfSpeech::Abbreviation.as_str(), "abbreviation");
    assert_eq!(PartOfSpeech::AuxiliaryVerb.as_str(), "auxiliary-verb");
    assert_eq!(PartOfSpeech::DefiniteArticle.as_str(), "definite-article");
    assert_eq!(PartOfSpeech::FamilyName.as_str(), "family-name");
    assert_eq!(PartOfSpeech::GivenName.as_str(), "given-name");
    assert_eq!(PartOfSpeech::NounPlural.as_str(), "noun-plural");
    assert_eq!(PartOfSpeech::NounPossessitve.as_str(), "noun-possessive");
    assert_eq!(PartOfSpeech::PastParticiple.as_str(), "past-participle");
    assert_eq!(PartOfSpeech::PhrasalPrefix.as_str(), "phrasal-prefix");
    assert_eq!(PartOfSpeech::ProperNoun.as_str(), "proper-noun");
    assert_eq!(PartOfSpeech::ProperNounPlural.as_str(), "proper-noun-plural");
    assert_eq!(PartOfSpeech::ProperNounPossessive.as_str(), "proper-noun-possessive");
    assert_eq!(PartOfSpeech::VerbIntransitive.as_str(), "verb-intransitive");
    assert_eq!(PartOfSpeech::VerbTransitive.as_str(), "verb-transitive");
}
