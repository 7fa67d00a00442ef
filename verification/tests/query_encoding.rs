use wordnik::{Args, DefinitionsArgs, PartOfSpeech, RandomWordArgs, RandomWordsArgs, SortOrder, SortType, SourceDictionaries};

#[test]
fn default_definitions_encode_empty() {
    let args = DefinitionsArgs::new();
    assert_eq!(args.to_get_query_str(), "");
}

#[test]
fn default_random_word_encodes_empty() {
    let args = RandomWordArgs::new();
    assert_eq!(args.to_get_query_str(), "");
}

#[test]
fn default_random_words_encode_empty() {
    let args = RandomWordsArgs::new();
    assert_eq!(args.to_get_query_str(), "");
}

#[test]
fn single_limit_encodes_alone() {
    let mut args = DefinitionsArgs::new();
    args.limit = 1;
    assert_eq!(args.to_get_query_str(), "limit=1");
}

#[test]
fn random_words_noun_limit_three() {
    let mut args = RandomWordsArgs::new();
    args.include_part_of_speech.push(PartOfSpeech::Noun);
    args.limit = 3;
    assert_eq!(args.to_get_query_str(), "includePartOfSpeech=noun&limit=3");
}

#[test]
fn emission_order_ignores_mutation_order() {
    // Fields set back to front still come out in declared order.
    let mut args = RandomWordsArgs::new();
    args.limit = 3;
    args.max_length = 12;
    args.min_corpus_count = Some(100);
    args.has_dictionary_def = false;
    assert_eq!(
        args.to_get_query_str(),
        "hasDictionaryDef=false&minCorpusCount=100&maxLength=12&limit=3"
    );
}

#[test]
fn list_cleared_after_set_is_suppressed() {
    let mut args = DefinitionsArgs::new();
    args.part_of_speech.push(PartOfSpeech::Noun);
    args.use_canonical = true;
    assert_eq!(args.to_get_query_str(), "partOfSpeech=noun&useCanonical=true");
    args.part_of_speech.clear();
    assert_eq!(args.to_get_query_str(), "useCanonical=true");
}

#[test]
fn encode_is_deterministic() {
    let mut args = RandomWordsArgs::new();
    args.include_part_of_speech.push(PartOfSpeech::Verb);
    args.sort_by = Some(SortType::Count);
    args.sort_order = Some(SortOrder::Desc);
    let first = args.to_get_query_str();
    let second = args.to_get_query_str();
    assert_eq!(first, second);
    assert_eq!(first, "includePartOfSpeech=verb&sortBy=count&sortOrder=desc");
}

#[test]
fn csv_fields_join_with_single_comma() {
    let mut args = DefinitionsArgs::new();
    args.part_of_speech.push(PartOfSpeech::Noun);
    args.part_of_speech.push(PartOfSpeech::VerbTransitive);
    args.source_dictionaries.push(SourceDictionaries::AmericanHeritage);
    args.source_dictionaries.push(SourceDictionaries::Wordnet);
    assert_eq!(
        args.to_get_query_str(),
        "partOfSpeech=noun,verb-transitive&sourceDictionaries=ahd-5,wordnet"
    );
}

#[test]
fn set_optional_is_emitted_even_at_sibling_default() {
    // "unset" is the only suppressing state of min_corpus_count: a set
    // value equal to a sibling's numeric default is still emitted.
    let mut args = RandomWordArgs::new();
    args.min_corpus_count = Some(1);
    assert_eq!(args.to_get_query_str(), "minCorpusCount=1");
    args.min_corpus_count = Some(0);
    assert_eq!(args.to_get_query_str(), "minCorpusCount=0");
}

#[test]
fn sentinel_default_suppresses_like_any_other() {
    let mut args = RandomWordArgs::new();
    args.max_corpus_count = -1;
    assert_eq!(args.to_get_query_str(), "");
    args.max_corpus_count = 0;
    assert_eq!(args.to_get_query_str(), "maxCorpusCount=0");
    args.max_corpus_count = -2;
    assert_eq!(args.to_get_query_str(), "maxCorpusCount=-2");
}

#[test]
fn false_boolean_against_true_default_is_emitted() {
    let mut args = RandomWordArgs::new();
    args.has_dictionary_def = false;
    assert_eq!(args.to_get_query_str(), "hasDictionaryDef=false");
}

#[test]
fn true_boolean_against_false_default_is_emitted() {
    let mut args = DefinitionsArgs::new();
    args.include_related = true;
    args.include_tags = true;
    assert_eq!(args.to_get_query_str(), "includeRelated=true&includeTags=true");
}

#[test]
fn numeric_defaults_reset_suppress_again() {
    let mut args = RandomWordsArgs::new();
    args.min_length = 2;
    args.min_dictionary_count = 7;
    assert_eq!(args.to_get_query_str(), "minDictionaryCount=7&minLength=2");
    args.min_length = 5;
    args.min_dictionary_count = 1;
    assert_eq!(args.to_get_query_str(), "");
}

#[test]
fn every_random_words_field_emits_once() {
    let mut args = RandomWordsArgs::new();
    args.has_dictionary_def = false;
    args.include_part_of_speech.push(PartOfSpeech::Adjective);
    args.exclude_part_of_speech.push(PartOfSpeech::ProperNounPlural);
    args.min_corpus_count = Some(5);
    args.max_corpus_count = 9000;
    args.min_dictionary_count = 2;
    args.max_dictionary_count = 8;
    args.min_length = 3;
    args.max_length = 10;
    args.sort_by = Some(SortType::Alpha);
    args.sort_order = Some(SortOrder::Asc);
    args.limit = 25;
    assert_eq!(
        args.to_get_query_str(),
        "hasDictionaryDef=false&includePartOfSpeech=adjective&excludePartOfSpeech=proper-noun-plural\
         &minCorpusCount=5&maxCorpusCount=9000&minDictionaryCount=2&maxDictionaryCount=8\
         &minLength=3&maxLength=10&sortBy=alpha&sortOrder=asc&limit=25"
    );
}
