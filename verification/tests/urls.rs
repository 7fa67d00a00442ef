use wordnik::{
    DefinitionsArgs, PartOfSpeech, RandomWordArgs, RandomWordsArgs, api_base, definitions_args_url,
    definitions_url, etymologies_url, random_word_args_url, random_word_url, random_words_args_url,
    random_words_url, user_agent,
};

#[test]
fn user_agent_is_correct() {
    assert_eq!(user_agent(), "wordnik rust client v0.1.1");
}

#[test]
fn base_url_is_fixed() {
    assert_eq!(api_base(), "https://api.wordnik.com/v4");
}

#[test]
fn definitions_url_shape() {
    assert_eq!(
        definitions_url("fireplace", "KEY"),
        "https://api.wordnik.com/v4/word.json/fireplace/definitions?api_key=KEY"
    );
}

#[test]
fn definitions_args_url_appends_query() {
    let mut args = DefinitionsArgs::new();
    args.limit = 1;
    assert_eq!(
        definitions_args_url("test", "KEY", &args),
        "https://api.wordnik.com/v4/word.json/test/definitions?api_key=KEY&limit=1"
    );
    // A fully default bundle leaves an empty fragment behind the separator.
    let args = DefinitionsArgs::new();
    assert_eq!(
        definitions_args_url("test", "KEY", &args),
        "https://api.wordnik.com/v4/word.json/test/definitions?api_key=KEY&"
    );
}

#[test]
fn etymologies_url_shape() {
    assert_eq!(
        etymologies_url("horse", "KEY"),
        "https://api.wordnik.com/v4/word.json/horse/etymologies?api_key=KEY"
    );
}

#[test]
fn random_word_urls_shape() {
    assert_eq!(
        random_word_url("KEY"),
        "https://api.wordnik.com/v4/words.json/randomWord?api_key=KEY"
    );
    let mut args = RandomWordArgs::new();
    args.include_part_of_speech.push(PartOfSpeech::Verb);
    args.min_length = 2;
    assert_eq!(
        random_word_args_url("KEY", &args),
        "https://api.wordnik.com/v4/words.json/randomWord?api_key=KEY\
         &includePartOfSpeech=verb&minLength=2"
    );
}

#[test]
fn random_words_urls_shape() {
    assert_eq!(
        random_words_url("KEY"),
        "https://api.wordnik.com/v4/words.json/randomWords?api_key=KEY"
    );
    let mut args = RandomWordsArgs::new();
    args.include_part_of_speech.push(PartOfSpeech::Noun);
    args.limit = 3;
    assert_eq!(
        random_words_args_url("KEY", &args),
        "https://api.wordnik.com/v4/words.json/randomWords?api_key=KEY\
         &includePartOfSpeech=noun&limit=3"
    );
}
