//! Typed client core for a remote dictionary service.
//!
//! The heart of the crate is the selective query-parameter encoder in
//! `args`: per-endpoint parameter bundles whose non-default fields are
//! emitted as `(name, value)` pairs in declared order and assembled into a
//! query fragment. The url builders here place that fragment behind the
//! fixed base url, endpoint path and authentication parameter; the network
//! transport around this crate issues the requests and fills the response
//! records of `model`.

pub mod args;
pub mod model;
pub mod parameters;
pub mod wire;

pub use args::{
    Args, DefinitionsArgs, DefinitionsArgsIter, PartOfSpeech, RandomWordArgs, RandomWordArgsIter,
    RandomWordsArgs, RandomWordsArgsIter, SortOrder, SortType, SourceDictionaries,
};
pub use model::{Definition, Etymology, RandomWord};

use vstd::prelude::*;
use vstd::string::StringExecFns;

use crate::wire::spec_query;

verus! {

/// Base url of the remote dictionary service; every endpoint path is
/// appended to it.
pub fn api_base() -> (s: &'static str)
    ensures
        s@ == "https://api.wordnik.com/v4"@,
{
    "https://api.wordnik.com/v4"
}

/// User-agent header value sent with every request.
pub fn user_agent() -> (s: &'static str)
    ensures
        s@ == "wordnik rust client v0.1.1"@,
{
    "wordnik rust client v0.1.1"
}

/// The url of the definitions lookup for one word.
pub open spec fn spec_definitions_url(word: Seq<char>, key: Seq<char>) -> Seq<char> {
    "https://api.wordnik.com/v4"@ + "/word.json/"@ + word + "/definitions?api_key="@ + key
}

/// Builds the definitions lookup url for one word.
pub fn definitions_url(word: &str, api_key: &str) -> (url: String)
    ensures
        url@ == spec_definitions_url(word@, api_key@),
{
    let mut url = String::from_str(api_base());
    url.append("/word.json/");
    url.append(word);
    url.append("/definitions?api_key=");
    url.append(api_key);
    proof {
        assert(url@ =~= spec_definitions_url(word@, api_key@));
    }
    url
}

/// Builds the definitions lookup url for one word, with the bundle's
/// non-default parameters appended behind one `&`.
pub fn definitions_args_url(word: &str, api_key: &str, args: &DefinitionsArgs) -> (url: String)
    ensures
        url@ == spec_definitions_url(word@, api_key@) + seq!['&'] + spec_query(args.spec_pairs()),
{
    let mut url = definitions_url(word, api_key);
    url.append("&");
    let query = args.to_get_query_str();
    url.append(query.as_str());
    proof {
        reveal_strlit("&");
        assert(url@ =~= spec_definitions_url(word@, api_key@) + seq!['&'] + spec_query(
            args.spec_pairs(),
        ));
    }
    url
}

/// The url of the etymologies lookup for one word.
pub open spec fn spec_etymologies_url(word: Seq<char>, key: Seq<char>) -> Seq<char> {
    "https://api.wordnik.com/v4"@ + "/word.json/"@ + word + "/etymologies?api_key="@ + key
}

/// Builds the etymologies lookup url for one word.
pub fn etymologies_url(word: &str, api_key: &str) -> (url: String)
    ensures
        url@ == spec_etymologies_url(word@, api_key@),
{
    let mut url = String::from_str(api_base());
    url.append("/word.json/");
    url.append(word);
    url.append("/etymologies?api_key=");
    url.append(api_key);
    proof {
        assert(url@ =~= spec_etymologies_url(word@, api_key@));
    }
    url
}

/// The url of the single-random-word lookup.
pub open spec fn spec_random_word_url(key: Seq<char>) -> Seq<char> {
    "https://api.wordnik.com/v4"@ + "/words.json/randomWord?api_key="@ + key
}

/// Builds the single-random-word lookup url.
pub fn random_word_url(api_key: &str) -> (url: String)
    ensures
        url@ == spec_random_word_url(api_key@),
{
    let mut url = String::from_str(api_base());
    url.append("/words.json/randomWord?api_key=");
    url.append(api_key);
    proof {
        assert(url@ =~= spec_random_word_url(api_key@));
    }
    url
}

/// Builds the single-random-word lookup url, with the bundle's
/// non-default parameters appended behind one `&`.
pub fn random_word_args_url(api_key: &str, args: &RandomWordArgs) -> (url: String)
    ensures
        url@ == spec_random_word_url(api_key@) + seq!['&'] + spec_query(args.spec_pairs()),
{
    let mut url = random_word_url(api_key);
    url.append("&");
    let query = args.to_get_query_str();
    url.append(query.as_str());
    proof {
        reveal_strlit("&");
        assert(url@ =~= spec_random_word_url(api_key@) + seq!['&'] + spec_query(
            args.spec_pairs(),
        ));
    }
    url
}

/// The url of the multi-random-word lookup.
pub open spec fn spec_random_words_url(key: Seq<char>) -> Seq<char> {
    "https://api.wordnik.com/v4"@ + "/words.json/randomWords?api_key="@ + key
}

/// Builds the multi-random-word lookup url.
pub fn random_words_url(api_key: &str) -> (url: String)
    ensures
        url@ == spec_random_words_url(api_key@),
{
    let mut url = String::from_str(api_base());
    url.append("/words.json/randomWords?api_key=");
    url.append(api_key);
    proof {
        assert(url@ =~= spec_random_words_url(api_key@));
    }
    url
}

/// Builds the multi-random-word lookup url, with the bundle's non-default
/// parameters appended behind one `&`.
pub fn random_words_args_url(api_key: &str, args: &RandomWordsArgs) -> (url: String)
    ensures
        url@ == spec_random_words_url(api_key@) + seq!['&'] + spec_query(args.spec_pairs()),
{
    let mut url = random_words_url(api_key);
    url.append("&");
    let query = args.to_get_query_str();
    url.append(query.as_str());
    proof {
        reveal_strlit("&");
        assert(url@ =~= spec_random_words_url(api_key@) + seq!['&'] + spec_query(
            args.spec_pairs(),
        ));
    }
    url
}

} // verus!
