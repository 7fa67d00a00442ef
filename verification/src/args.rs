//! Parameter bundles and the selective encoder.
//!
//! Each endpoint family has a bundle type holding every optional parameter
//! at its API-defined default. Encoding walks the bundle's fields in
//! declared order, emits a `(name, value)` pair only for fields that differ
//! from their default, and joins the pairs into a `name=value&...` fragment.

mod definitions;
mod random;

pub use definitions::{
    DefinitionsArgs, DefinitionsArgsIter, lemma_definitions_default_encodes_empty,
    lemma_definitions_fields_emitted_once, lemma_definitions_pairs_ordered, spec_definitions_rank,
};
pub use random::{
    RandomWordArgs, RandomWordArgsIter, RandomWordsArgs, RandomWordsArgsIter,
    lemma_random_word_default_encodes_empty, lemma_random_word_fields_emitted_once,
    lemma_random_word_pairs_ordered, lemma_random_words_default_encodes_empty,
    lemma_random_words_fields_emitted_once, lemma_random_words_pairs_ordered,
    spec_random_word_rank, spec_random_words_rank,
};

use vstd::prelude::*;
use vstd::string::StringExecFns;

use crate::wire::{lemma_join_push, lemma_query_push, spec_bool_text, spec_csv, spec_query};

verus! {

/// A value with a fixed wire token: each variant of a closed enumerated
/// domain maps 1:1 to its lowercase hyphenated tag.
pub trait StringParam: Copy + Sized {
    /// The declared wire token of this value.
    spec fn spec_tag(self) -> Seq<char>;

    /// Returns the declared wire token.
    fn as_str(self) -> (s: &'static str)
        ensures
            s@ == self.spec_tag(),
    ;
}

/// A source of `(name, value)` pairs that yields each remaining pair once,
/// in order, and stays exhausted once it has answered `None`.
pub trait PairIter: Sized {
    /// The pairs this source has yet to yield, in order.
    spec fn spec_remaining(&self) -> Seq<(Seq<char>, Seq<char>)>;

    /// Yields the first remaining pair, or `None` once none remain.
    fn next(&mut self) -> (r: Option<(&'static str, String)>)
        ensures
            (match r {
                Some(p) => old(self).spec_remaining() == seq![(p.0@, p.1@)]
                    + final(self).spec_remaining(),
                None => old(self).spec_remaining() == Seq::<(Seq<char>, Seq<char>)>::empty()
                    && final(self).spec_remaining() == Seq::<(Seq<char>, Seq<char>)>::empty(),
            }),
    ;
}

/// A parameter bundle that can enumerate its non-default fields and
/// assemble them into a query fragment.
pub trait Args<'a>: Sized {
    type KeyValuePairs: PairIter;

    /// The `(name, value)` pairs this bundle emits: its fields in declared
    /// order, each present exactly when it differs from its default.
    spec fn spec_pairs(&self) -> Seq<(Seq<char>, Seq<char>)>;

    /// Starts the traversal over this bundle's non-default fields.
    fn args(&'a self) -> (it: Self::KeyValuePairs)
        ensures
            it.spec_remaining() == self.spec_pairs(),
    ;

    /// Assembles the emitted pairs into a `name=value` fragment joined by
    /// `&`, with no leading separator; a fully default bundle assembles to
    /// the empty string.
    fn to_get_query_str(&'a self) -> (s: String)
        ensures
            s@ == spec_query(self.spec_pairs()),
    {
        let mut it = self.args();
        let ghost full = self.spec_pairs();
        let mut buf = String::new();
        let ghost mut done: Seq<(Seq<char>, Seq<char>)> = Seq::empty();
        let mut first: bool = true;
        loop
            invariant
                full == done + it.spec_remaining(),
                buf@ == spec_query(done),
                first <==> done.len() == 0,
            ensures
                buf@ == spec_query(full),
            decreases it.spec_remaining().len(),
        {
            match it.next() {
                Some(p) => {
                    if first {
                        buf = String::from_str(p.0);
                    } else {
                        buf.append("&");
                        buf.append(p.0);
                    }
                    buf.append("=");
                    buf.append(p.1.as_str());
                    proof {
                        reveal_strlit("&");
                        reveal_strlit("=");
                        lemma_query_push(done, (p.0@, p.1@));
                        done = done.push((p.0@, p.1@));
                        assert(buf@ =~= spec_query(done));
                    }
                    first = false;
                },
                None => {
                    proof {
                        assert(full =~= done);
                    }
                    break ;
                },
            }
        }
        buf
    }
}

/// Encoding is deterministic: any two fragments assembled from the same
/// unmutated bundle are identical, because the encoder's contract pins the
/// fragment to a function of the bundle's field values alone.
pub proof fn lemma_encode_deterministic<'a, A: Args<'a>>(a: &A, s1: Seq<char>, s2: Seq<char>)
    requires
        s1 == spec_query(a.spec_pairs()),
        s2 == spec_query(a.spec_pairs()),
    ensures
        s1 == s2,
{
}

// Special parameters/structs

#[derive(Copy, Clone, Debug)]
pub enum SortType {
    Alpha,
    Count,
}

impl StringParam for SortType {
    open spec fn spec_tag(self) -> Seq<char> {
        match self {
            SortType::Alpha => "alpha"@,
            SortType::Count => "count"@,
        }
    }

    fn as_str(self) -> (s: &'static str)
        ensures
            s@ == self.spec_tag(),
    {
        match self {
            SortType::Alpha => "alpha",
            SortType::Count => "count",
        }
    }
}

#[derive(Copy, Clone, Debug)]
pub enum SortOrder {
    Asc,
    Desc,
}

impl StringParam for SortOrder {
    open spec fn spec_tag(self) -> Seq<char> {
        match self {
            SortOrder::Asc => "asc"@,
            SortOrder::Desc => "desc"@,
        }
    }

    fn as_str(self) -> (s: &'static str)
        ensures
            s@ == self.spec_tag(),
    {
        match self {
            SortOrder::Asc => "asc",
            SortOrder::Desc => "desc",
        }
    }
}

#[derive(Copy, Clone, Debug)]
pub enum PartOfSpeech {
    Abbreviation,
    Adjective,
    Adverb,
    Affix,
    Article,
    AuxiliaryVerb,
    Conjunction,
    DefiniteArticle,
    FamilyName,
    GivenName,
    Idiom,
    Imperative,
    Interjection,
    Noun,
    NounPlural,
    NounPossessitve,
    PastParticiple,
    PhrasalPrefix,
    Preposition,
    Pronoun,
    ProperNoun,
    ProperNounPlural,
    ProperNounPossessive,
    Suffix,
    Verb,
    VerbIntransitive,
    VerbTransitive,
}

impl StringParam for PartOfSpeech {
    open spec fn spec_tag(self) -> Seq<char> {
        match self {
            PartOfSpeech::Abbreviation => "abbreviation"@,
            PartOfSpeech::Adjective => "adjective"@,
            PartOfSpeech::Adverb => "adverb"@,
            PartOfSpeech::Affix => "affix"@,
            PartOfSpeech::Article => "article"@,
            PartOfSpeech::AuxiliaryVerb => "auxiliary-verb"@,
            PartOfSpeech::Conjunction => "conjunction"@,
            PartOfSpeech::DefiniteArticle => "definite-article"@,
            PartOfSpeech::FamilyName => "family-name"@,
            PartOfSpeech::GivenName => "given-name"@,
            PartOfSpeech::Idiom => "idiom"@,
            PartOfSpeech::Imperative => "imperative"@,
            PartOfSpeech::Interjection => "interjection"@,
            PartOfSpeech::Noun => "noun"@,
            PartOfSpeech::NounPlural => "noun-plural"@,
            PartOfSpeech::NounPossessitve => "noun-possessive"@,
            PartOfSpeech::PastParticiple => "past-participle"@,
            PartOfSpeech::PhrasalPrefix => "phrasal-prefix"@,
            PartOfSpeech::Preposition => "preposition"@,
            PartOfSpeech::Pronoun => "pronoun"@,
            PartOfSpeech::ProperNoun => "proper-noun"@,
            PartOfSpeech::ProperNounPlural => "proper-noun-plural"@,
            PartOfSpeech::ProperNounPossessive => "proper-noun-possessive"@,
            PartOfSpeech::Suffix => "suffix"@,
            PartOfSpeech::Verb => "verb"@,
            PartOfSpeech::VerbIntransitive => "verb-intransitive"@,
            PartOfSpeech::VerbTransitive => "verb-transitive"@,
        }
    }

    fn as_str(self) -> (s: &'static str)
        ensures
            s@ == self.spec_tag(),
    {
        match self {
            PartOfSpeech::Abbreviation => "abbreviation",
            PartOfSpeech::Adjective => "adjective",
            PartOfSpeech::Adverb => "adverb",
            PartOfSpeech::Affix => "affix",
            PartOfSpeech::Article => "article",
            PartOfSpeech::AuxiliaryVerb => "auxiliary-verb",
            PartOfSpeech::Conjunction => "conjunction",
            PartOfSpeech::DefiniteArticle => "definite-article",
            PartOfSpeech::FamilyName => "family-name",
            PartOfSpeech::GivenName => "given-name",
            PartOfSpeech::Idiom => "idiom",
            PartOfSpeech::Imperative => "imperative",
            PartOfSpeech::Interjection => "interjection",
            PartOfSpeech::Noun => "noun",
            PartOfSpeech::NounPlural => "noun-plural",
            PartOfSpeech::NounPossessitve => "noun-possessive",
            PartOfSpeech::PastParticiple => "past-participle",
            PartOfSpeech::PhrasalPrefix => "phrasal-prefix",
            PartOfSpeech::Preposition => "preposition",
            PartOfSpeech::Pronoun => "pronoun",
            PartOfSpeech::ProperNoun => "proper-noun",
            PartOfSpeech::ProperNounPlural => "proper-noun-plural",
            PartOfSpeech::ProperNounPossessive => "proper-noun-possessive",
            PartOfSpeech::Suffix => "suffix",
            PartOfSpeech::Verb => "verb",
            PartOfSpeech::VerbIntransitive => "verb-intransitive",
            PartOfSpeech::VerbTransitive => "verb-transitive",
        }
    }
}

#[derive(Copy, Clone, Debug)]
pub enum SourceDictionaries {
    All,
    AmericanHeritage,
    Century,
    Cmu,
    Macmillan,
    Webster,
    Wiktionary,
    Wordnet,
}

impl StringParam for SourceDictionaries {
    open spec fn spec_tag(self) -> Seq<char> {
        match self {
            SourceDictionaries::All => "all"@,
            SourceDictionaries::AmericanHeritage => "ahd-5"@,
            SourceDictionaries::Century => "century"@,
            SourceDictionaries::Cmu => "cmu"@,
            SourceDictionaries::Macmillan => "macmillan"@,
            SourceDictionaries::Webster => "webster"@,
            SourceDictionaries::Wiktionary => "wiktionary"@,
            SourceDictionaries::Wordnet => "wordnet"@,
        }
    }

    fn as_str(self) -> (s: &'static str)
        ensures
            s@ == self.spec_tag(),
    {
        match self {
            SourceDictionaries::All => "all",
            SourceDictionaries::AmericanHeritage => "ahd-5",
            SourceDictionaries::Century => "century",
            SourceDictionaries::Cmu => "cmu",
            SourceDictionaries::Macmillan => "macmillan",
            SourceDictionaries::Webster => "webster",
            SourceDictionaries::Wiktionary => "wiktionary",
            SourceDictionaries::Wordnet => "wordnet",
        }
    }
}

/// The wire tokens of a parameter list, in list order.
pub open spec fn spec_tags<T: StringParam>(params: Seq<T>) -> Seq<Seq<char>> {
    params.map(|i: int, p: T| p.spec_tag())
}

/// The wire token of a set optional parameter.
pub open spec fn spec_tag_opt<T: StringParam>(o: Option<T>) -> Seq<char> {
    o->0.spec_tag()
}

/// Formats a parameter list as its comma-joined tags: no leading or
/// trailing comma, the empty list as the empty string.
pub fn format_csv<T: StringParam>(params: &[T]) -> (s: String)
    ensures
        s@ == spec_csv(spec_tags(params@)),
{
    let ghost tags = spec_tags(params@);
    let mut buf = String::new();
    let mut i: usize = 0;
    while i < params.len()
        invariant
            i <= params@.len(),
            tags == spec_tags(params@),
            buf@ == spec_csv(tags.take(i as int)),
        decreases params@.len() - i,
    {
        let tag = vstd::slice::slice_index_get(params, i).as_str();
        if i == 0 {
            buf = tag.to_owned();
        } else {
            buf.append(",");
            buf.append(tag);
        }
        proof {
            reveal_strlit(",");
            lemma_join_push(seq![','], tags.take(i as int), tags[i as int]);
            assert(tags.take(i as int + 1) =~= tags.take(i as int).push(tags[i as int]));
            assert(buf@ =~= spec_csv(tags.take(i as int + 1)));
        }
        i = i + 1;
    }
    proof {
        assert(tags.take(params@.len() as int) =~= tags);
    }
    buf
}

/// Formats a single enumerated value as its declared tag.
pub fn format_enum<T: StringParam>(param: &T) -> (s: String)
    ensures
        s@ == param.spec_tag(),
{
    (*param).as_str().to_owned()
}

/// Formats a boolean as the literal `true` or `false`.
pub fn format_bool(param: bool) -> (s: String)
    ensures
        s@ == spec_bool_text(param),
{
    if param {
        String::from_str("true")
    } else {
        String::from_str("false")
    }
}

} // verus!
