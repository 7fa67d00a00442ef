use wordnik::parameters::{DefinitionArgs, EtymologiesArgs, RandomWordArgs, RandomWordsArgs};

#[test]
fn test_word_endpoint_args() {
    let args = DefinitionArgs { includeTags: Some(true), ..DefinitionArgs::default() };
    assert_eq!(args.to_uri().as_str(), "&limit=200&includeTags=true");

    let args = EtymologiesArgs { useCanonical: Some(true), ..EtymologiesArgs::default() };
    assert_eq!(args.to_uri().as_str(), "&useCanonical=true");
}

#[test]
fn test_words_args() {
    let args = RandomWordArgs { minCorpusCount: Some(10), ..RandomWordArgs::default() };
    assert_eq!(args.to_uri().as_str(), "&minCorpusCount=10");

    let args = RandomWordsArgs { minCorpusCount: Some(10), ..RandomWordsArgs::default() };
    assert_eq!(args.to_uri().as_str(), "&minCorpusCount=10&limit=10");
}

#[test]
fn fully_unset_records_render_empty() {
    let args = RandomWordArgs::default();
    assert_eq!(args.to_uri(), "");

    let args = EtymologiesArgs::default();
    assert_eq!(args.to_uri(), "");
}

#[test]
fn string_valued_fields_render_verbatim() {
    let args = RandomWordsArgs {
        includePartOfSpeech: Some(String::from("noun,verb")),
        sortBy: Some(String::from("alpha")),
        sortOrder: Some(String::from("asc")),
        limit: None,
        ..RandomWordsArgs::default()
    };
    assert_eq!(
        args.to_uri(),
        "&includePartOfSpeech=noun,verb&sortBy=alpha&sortOrder=asc"
    );
}

#[test]
fn negative_values_render_signed() {
    let args = RandomWordArgs { maxLength: Some(-1), ..RandomWordArgs::default() };
    assert_eq!(args.to_uri(), "&maxLength=-1");
}
