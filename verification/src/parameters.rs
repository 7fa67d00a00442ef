//! Flat per-endpoint parameter records with a built-in uri getter.
//!
//! Unlike the bundles in `args`, these records hold every parameter as an
//! optional and render each set field as `&name=value`, leading separator
//! included, in declared field order. Field names follow the wire names,
//! so non-snake-case identifiers are deliberate.

use vstd::prelude::*;
use vstd::string::StringExecFns;

use crate::wire::{format_i32, spec_bool_text, spec_idec};

verus! {

/// The `&name=value` piece of one rendered parameter.
pub open spec fn spec_amp_pair(name: Seq<char>, value: Seq<char>) -> Seq<char> {
    seq!['&'] + name + seq!['='] + value
}

/// Rendering of an optional integer parameter: present exactly when set.
pub open spec fn spec_opt_i32_piece(o: Option<i32>, name: Seq<char>) -> Seq<char> {
    match o {
        Some(v) => spec_amp_pair(name, spec_idec(v as int)),
        None => Seq::empty(),
    }
}

/// Rendering of an optional boolean parameter: present exactly when set.
pub open spec fn spec_opt_bool_piece(o: Option<bool>, name: Seq<char>) -> Seq<char> {
    match o {
        Some(v) => spec_amp_pair(name, spec_bool_text(v)),
        None => Seq::empty(),
    }
}

/// Rendering of an optional string parameter: present exactly when set,
/// with the held text as the value.
pub open spec fn spec_opt_string_piece(o: Option<String>, name: Seq<char>) -> Seq<char> {
    match o {
        Some(s) => spec_amp_pair(name, s@),
        None => Seq::empty(),
    }
}

/// Appends `&name=` followed by the signed decimal value when set.
fn push_opt_i32(uri: &mut String, o: &Option<i32>, name: &'static str)
    ensures
        final(uri)@ == old(uri)@ + spec_opt_i32_piece(*o, name@),
{
    proof {
        reveal_strlit("&");
        reveal_strlit("=");
    }
    if let Some(v) = o {
        uri.append("&");
        uri.append(name);
        uri.append("=");
        let t = format_i32(*v);
        uri.append(t.as_str());
        proof {
            assert(uri@ =~= old(uri)@ + spec_opt_i32_piece(*o, name@));
        }
    }
    proof {
        assert(uri@ =~= old(uri)@ + spec_opt_i32_piece(*o, name@));
    }
}

/// Appends `&name=` followed by the boolean literal when set.
fn push_opt_bool(uri: &mut String, o: &Option<bool>, name: &'static str)
    ensures
        final(uri)@ == old(uri)@ + spec_opt_bool_piece(*o, name@),
{
    proof {
        reveal_strlit("&");
        reveal_strlit("=");
    }
    if let Some(v) = o {
        uri.append("&");
        uri.append(name);
        uri.append("=");
        if *v {
            uri.append("true");
        } else {
            uri.append("false");
        }
        proof {
            assert(uri@ =~= old(uri)@ + spec_opt_bool_piece(*o, name@));
        }
    }
    proof {
        assert(uri@ =~= old(uri)@ + spec_opt_bool_piece(*o, name@));
    }
}

/// Appends `&name=` followed by the held text when set.
fn push_opt_string(uri: &mut String, o: &Option<String>, name: &'static str)
    ensures
        final(uri)@ == old(uri)@ + spec_opt_string_piece(*o, name@),
{
    proof {
        reveal_strlit("&");
        reveal_strlit("=");
    }
    if let Some(s) = o {
        uri.append("&");
        uri.append(name);
        uri.append("=");
        uri.append(s.as_str());
        proof {
            assert(uri@ =~= old(uri)@ + spec_opt_string_piece(*o, name@));
        }
    }
    proof {
        assert(uri@ =~= old(uri)@ + spec_opt_string_piece(*o, name@));
    }
}

// Word API args //

#[allow(non_snake_case)]
pub struct DefinitionArgs {
    pub limit: Option<i32>,
    pub partOfSpeech: Option<bool>,
    pub includeRelated: Option<String>,
    pub sourceDictionaries: Option<String>,
    pub useCanonical: Option<bool>,
    pub includeTags: Option<bool>,
}

#[allow(non_snake_case)]
impl DefinitionArgs {
    /// The rendered uri fragment: each set field as `&name=value`, in
    /// declared field order.
    pub open spec fn spec_uri(self) -> Seq<char> {
        spec_opt_i32_piece(self.limit, "limit"@) + spec_opt_bool_piece(
            self.partOfSpeech,
            "partOfSpeech"@,
        ) + spec_opt_string_piece(self.includeRelated, "includeRelated"@) + spec_opt_string_piece(
            self.sourceDictionaries,
            "sourceDictionaries"@,
        ) + spec_opt_bool_piece(self.useCanonical, "useCanonical"@) + spec_opt_bool_piece(
            self.includeTags,
            "includeTags"@,
        )
    }

    /// Renders every set field as `&name=value`, in declared field order.
    pub fn to_uri(&self) -> (r: String)
        ensures
            r@ == self.spec_uri(),
    {
        let mut uri = String::new();
        push_opt_i32(&mut uri, &self.limit, "limit");
        push_opt_bool(&mut uri, &self.partOfSpeech, "partOfSpeech");
        push_opt_string(&mut uri, &self.includeRelated, "includeRelated");
        push_opt_string(&mut uri, &self.sourceDictionaries, "sourceDictionaries");
        push_opt_bool(&mut uri, &self.useCanonical, "useCanonical");
        push_opt_bool(&mut uri, &self.includeTags, "includeTags");
        proof {
            assert(uri@ =~= self.spec_uri());
        }
        uri
    }

    /// Record with every parameter at its API-defined default.
    pub fn default() -> (r: Self)
        ensures
            r.limit == Some(200i32),
            r.partOfSpeech is None,
            r.includeRelated is None,
            r.sourceDictionaries is None,
            r.useCanonical is None,
            r.includeTags is None,
    {
        Self {
            limit: Some(200),
            partOfSpeech: None,
            includeRelated: None,
            sourceDictionaries: None,
            useCanonical: None,
            includeTags: None,
        }
    }
}

#[allow(non_snake_case)]
pub struct EtymologiesArgs {
    pub useCanonical: Option<bool>,
}

#[allow(non_snake_case)]
impl EtymologiesArgs {
    /// The rendered uri fragment: each set field as `&name=value`.
    pub open spec fn spec_uri(self) -> Seq<char> {
        spec_opt_bool_piece(self.useCanonical, "useCanonical"@)
    }

    /// Renders every set field as `&name=value`.
    pub fn to_uri(&self) -> (r: String)
        ensures
            r@ == self.spec_uri(),
    {
        let mut uri = String::new();
        push_opt_bool(&mut uri, &self.useCanonical, "useCanonical");
        proof {
            assert(uri@ =~= self.spec_uri());
        }
        uri
    }

    /// Record with every parameter at its API-defined default.
    pub fn default() -> (r: Self)
        ensures
            r.useCanonical is None,
    {
        Self { useCanonical: None }
    }
}

// Words API args //

#[allow(non_snake_case)]
pub struct RandomWordArgs {
    pub hasDictionaryDef: Option<bool>,
    pub includePartOfSpeech: Option<String>,
    pub excludePartOfSpeech: Option<String>,
    pub minCorpusCount: Option<i32>,
    pub maxCorpusCount: Option<i32>,
    pub minDictionaryCount: Option<i32>,
    pub maxDictionaryCount: Option<i32>,
    pub minLength: Option<i32>,
    pub maxLength: Option<i32>,
}

#[allow(non_snake_case)]
impl RandomWordArgs {
    /// The rendered uri fragment: each set field as `&name=value`, in
    /// declared field order.
    pub open spec fn spec_uri(self) -> Seq<char> {
        spec_opt_bool_piece(self.hasDictionaryDef, "hasDictionaryDef"@) + spec_opt_string_piece(
            self.includePartOfSpeech,
            "includePartOfSpeech"@,
        ) + spec_opt_string_piece(self.excludePartOfSpeech, "excludePartOfSpeech"@)
            + spec_opt_i32_piece(self.minCorpusCount, "minCorpusCount"@) + spec_opt_i32_piece(
            self.maxCorpusCount,
            "maxCorpusCount"@,
        ) + spec_opt_i32_piece(self.minDictionaryCount, "minDictionaryCount"@)
            + spec_opt_i32_piece(self.maxDictionaryCount, "maxDictionaryCount"@)
            + spec_opt_i32_piece(self.minLength, "minLength"@) + spec_opt_i32_piece(
            self.maxLength,
            "maxLength"@,
        )
    }

    /// Renders every set field as `&name=value`, in declared field order.
    pub fn to_uri(&self) -> (r: String)
        ensures
            r@ == self.spec_uri(),
    {
        let mut uri = String::new();
        push_opt_bool(&mut uri, &self.hasDictionaryDef, "hasDictionaryDef");
        push_opt_string(&mut uri, &self.includePartOfSpeech, "includePartOfSpeech");
        push_opt_string(&mut uri, &self.excludePartOfSpeech, "excludePartOfSpeech");
        push_opt_i32(&mut uri, &self.minCorpusCount, "minCorpusCount");
        push_opt_i32(&mut uri, &self.maxCorpusCount, "maxCorpusCount");
        push_opt_i32(&mut uri, &self.minDictionaryCount, "minDictionaryCount");
        push_opt_i32(&mut uri, &self.maxDictionaryCount, "maxDictionaryCount");
        push_opt_i32(&mut uri, &self.minLength, "minLength");
        push_opt_i32(&mut uri, &self.maxLength, "maxLength");
        proof {
            assert(uri@ =~= self.spec_uri());
        }
        uri
    }

    /// Record with every parameter at its API-defined default.
    pub fn default() -> (r: Self)
        ensures
            r.hasDictionaryDef is None,
            r.includePartOfSpeech is None,
            r.excludePartOfSpeech is None,
            r.minCorpusCount is None,
            r.maxCorpusCount is None,
            r.minDictionaryCount is None,
            r.maxDictionaryCount is None,
            r.minLength is None,
            r.maxLength is None,
    {
        Self {
            hasDictionaryDef: None,
            includePartOfSpeech: None,
            excludePartOfSpeech: None,
            minCorpusCount: None,
            maxCorpusCount: None,
            minDictionaryCount: None,
            maxDictionaryCount: None,
            minLength: None,
            maxLength: None,
        }
    }
}

#[allow(non_snake_case)]
pub struct RandomWordsArgs {
    pub hasDictionaryDef: Option<bool>,
    pub includePartOfSpeech: Option<String>,
    pub excludePartOfSpeech: Option<String>,
    pub minCorpusCount: Option<i32>,
    pub maxCorpusCount: Option<i32>,
    pub minDictionaryCount: Option<i32>,
    pub maxDictionaryCount: Option<i32>,
    pub minLength: Option<i32>,
    pub maxLength: Option<i32>,
    pub sortBy: Option<String>,
    pub sortOrder: Option<String>,
    pub limit: Option<i32>,
}

#[allow(non_snake_case)]
impl RandomWordsArgs {
    /// The rendered uri fragment: each set field as `&name=value`, in
    /// declared field order.
    pub open spec fn spec_uri(self) -> Seq<char> {
        spec_opt_bool_piece(self.hasDictionaryDef, "hasDictionaryDef"@) + spec_opt_string_piece(
            self.includePartOfSpeech,
            "includePartOfSpeech"@,
        ) + spec_opt_string_piece(self.excludePartOfSpeech, "excludePartOfSpeech"@)
            + spec_opt_i32_piece(self.minCorpusCount, "minCorpusCount"@) + spec_opt_i32_piece(
            self.maxCorpusCount,
            "maxCorpusCount"@,
        ) + spec_opt_i32_piece(self.minDictionaryCount, "minDictionaryCount"@)
            + spec_opt_i32_piece(self.maxDictionaryCount, "maxDictionaryCount"@)
            + spec_opt_i32_piece(self.minLength, "minLength"@) + spec_opt_i32_piece(
            self.maxLength,
            "maxLength"@,
        ) + spec_opt_string_piece(self.sortBy, "sortBy"@) + spec_opt_string_piece(
            self.sortOrder,
            "sortOrder"@,
        ) + spec_opt_i32_piece(self.limit, "limit"@)
    }

    /// Renders every set field as `&name=value`, in declared field order.
    pub fn to_uri(&self) -> (r: String)
        ensures
            r@ == self.spec_uri(),
    {
        let mut uri = String::new();
        push_opt_bool(&mut uri, &self.hasDictionaryDef, "hasDictionaryDef");
        push_opt_string(&mut uri, &self.includePartOfSpeech, "includePartOfSpeech");
        push_opt_string(&mut uri, &self.excludePartOfSpeech, "excludePartOfSpeech");
        push_opt_i32(&mut uri, &self.minCorpusCount, "minCorpusCount");
        push_opt_i32(&mut uri, &self.maxCorpusCount, "maxCorpusCount");
        push_opt_i32(&mut uri, &self.minDictionaryCount, "minDictionaryCount");
        push_opt_i32(&mut uri, &self.maxDictionaryCount, "maxDictionaryCount");
        push_opt_i32(&mut uri, &self.minLength, "minLength");
        push_opt_i32(&mut uri, &self.maxLength, "maxLength");
        push_opt_string(&mut uri, &self.sortBy, "sortBy");
        push_opt_string(&mut uri, &self.sortOrder, "sortOrder");
        push_opt_i32(&mut uri, &self.limit, "limit");
        proof {
            assert(uri@ =~= self.spec_uri());
        }
        uri
    }

    /// Record with every parameter at its API-defined default.
    pub fn default() -> (r: Self)
        ensures
            r.hasDictionaryDef is None,
            r.includePartOfSpeech is None,
            r.excludePartOfSpeech is None,
            r.minCorpusCount is None,
            r.maxCorpusCount is None,
            r.minDictionaryCount is None,
            r.maxDictionaryCount is None,
            r.minLength is None,
            r.maxLength is None,
            r.sortBy is None,
            r.sortOrder is None,
            r.limit == Some(10i32),
    {
        Self {
            hasDictionaryDef: None,
            includePartOfSpeech: None,
            excludePartOfSpeech: None,
            minCorpusCount: None,
            maxCorpusCount: None,
            minDictionaryCount: None,
            maxDictionaryCount: None,
            minLength: None,
            maxLength: None,
            sortBy: None,
            sortOrder: None,
            limit: Some(10),
        }
    }
}

} // verus!
