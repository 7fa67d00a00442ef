//! The parameter bundles of the random-word lookups: one word, or a batch.

use vstd::prelude::*;

use super::{
    Args, PairIter, PartOfSpeech, SortOrder, SortType, format_bool, format_csv, format_enum,
    spec_tag_opt, spec_tags,
};
use crate::wire::{
    format_i32, format_u32, lemma_pair_contains_concat, lemma_pair_count_add,
    lemma_pair_count_opt, opt_pair, pair_count, spec_bool_text, spec_csv, spec_idec, spec_query,
    spec_udec,
};

verus! {

/// Minimum-count default fixed by the API contract.
pub const DEFAULT_MIN: u32 = 1;

/// Sentinel default meaning "no maximum".
pub const DEFAULT_MAX: i32 = -1;

/// Minimum-length default fixed by the API contract.
pub const DEFAULT_MIN_LENGTH: u32 = 5;

/// Batch-size default of the multi-word lookup.
pub const DEFAULT_LIMIT: u32 = 10;

/// How many fields a single-random-word bundle declares.
pub const WORD_FIELD_COUNT: usize = 9;

/// How many fields a multi-random-word bundle declares.
pub const WORDS_FIELD_COUNT: usize = 12;

pub struct RandomWordArgs {
    pub has_dictionary_def: bool,
    pub include_part_of_speech: Vec<PartOfSpeech>,
    pub exclude_part_of_speech: Vec<PartOfSpeech>,
    pub min_corpus_count: Option<u32>,
    pub max_corpus_count: i32,
    pub min_dictionary_count: u32,
    pub max_dictionary_count: i32,
    pub min_length: u32,
    pub max_length: i32,
}

impl RandomWordArgs {
    /// Whether every field still holds its API-defined default.
    pub open spec fn spec_is_default(self) -> bool {
        &&& self.has_dictionary_def == true
        &&& self.include_part_of_speech@.len() == 0
        &&& self.exclude_part_of_speech@.len() == 0
        &&& self.min_corpus_count is None
        &&& self.max_corpus_count == DEFAULT_MAX
        &&& self.min_dictionary_count == DEFAULT_MIN
        &&& self.max_dictionary_count == DEFAULT_MAX
        &&& self.min_length == DEFAULT_MIN_LENGTH
        &&& self.max_length == DEFAULT_MAX
    }

    /// The pair emitted for the field at position `i` of the declared
    /// order, or nothing when that field holds its default. An unset
    /// optional is the only suppressing state of `min_corpus_count`: any
    /// set value is emitted, including the numeric default of siblings.
    pub open spec fn spec_field_pair(self, i: int) -> Seq<(Seq<char>, Seq<char>)> {
        if i == 0 {
            opt_pair(
                !self.has_dictionary_def,
                "hasDictionaryDef"@,
                spec_bool_text(self.has_dictionary_def),
            )
        } else if i == 1 {
            opt_pair(
                self.include_part_of_speech@.len() != 0,
                "includePartOfSpeech"@,
                spec_csv(spec_tags(self.include_part_of_speech@)),
            )
        } else if i == 2 {
            opt_pair(
                self.exclude_part_of_speech@.len() != 0,
                "excludePartOfSpeech"@,
                spec_csv(spec_tags(self.exclude_part_of_speech@)),
            )
        } else if i == 3 {
            opt_pair(
                self.min_corpus_count is Some,
                "minCorpusCount"@,
                spec_udec(self.min_corpus_count->0 as nat),
            )
        } else if i == 4 {
            opt_pair(
                self.max_corpus_count != DEFAULT_MAX,
                "maxCorpusCount"@,
                spec_idec(self.max_corpus_count as int),
            )
        } else if i == 5 {
            opt_pair(
                self.min_dictionary_count != DEFAULT_MIN,
                "minDictionaryCount"@,
                spec_udec(self.min_dictionary_count as nat),
            )
        } else if i == 6 {
            opt_pair(
                self.max_dictionary_count != DEFAULT_MAX,
                "maxDictionaryCount"@,
                spec_idec(self.max_dictionary_count as int),
            )
        } else if i == 7 {
            opt_pair(
                self.min_length != DEFAULT_MIN_LENGTH,
                "minLength"@,
                spec_udec(self.min_length as nat),
            )
        } else if i == 8 {
            opt_pair(
                self.max_length != DEFAULT_MAX,
                "maxLength"@,
                spec_idec(self.max_length as int),
            )
        } else {
            Seq::empty()
        }
    }

    /// The pairs emitted by the fields at positions `i` and later, in
    /// declared order.
    pub open spec fn spec_pairs_from(self, i: int) -> Seq<(Seq<char>, Seq<char>)>
        decreases WORD_FIELD_COUNT - i,
    {
        if 0 <= i < WORD_FIELD_COUNT {
            self.spec_field_pair(i) + self.spec_pairs_from(i + 1)
        } else {
            Seq::empty()
        }
    }

    /// All pairs this bundle emits, in declared field order.
    pub open spec fn spec_pairs(self) -> Seq<(Seq<char>, Seq<char>)> {
        self.spec_pairs_from(0)
    }

    /// Fresh bundle with every field at its API-defined default.
    pub fn new() -> (r: Self)
        ensures
            r.spec_is_default(),
    {
        Self {
            has_dictionary_def: true,
            include_part_of_speech: Vec::new(),
            exclude_part_of_speech: Vec::new(),
            min_corpus_count: None,
            max_corpus_count: DEFAULT_MAX,
            min_dictionary_count: DEFAULT_MIN,
            max_dictionary_count: DEFAULT_MAX,
            min_length: DEFAULT_MIN_LENGTH,
            max_length: DEFAULT_MAX,
        }
    }
}

impl Default for RandomWordArgs {
    fn default() -> (r: Self)
        ensures
            r.spec_is_default(),
    {
        Self::new()
    }
}

/// Traversal over a single-random-word bundle's non-default fields.
pub struct RandomWordArgsIter<'a> {
    args: &'a RandomWordArgs,
    idx: usize,
}

impl<'a> PairIter for RandomWordArgsIter<'a> {
    closed spec fn spec_remaining(&self) -> Seq<(Seq<char>, Seq<char>)> {
        self.args.spec_pairs_from(self.idx as int)
    }

    fn next(&mut self) -> (r: Option<(&'static str, String)>) {
        // Each call returns the pair of the first non-default field at or
        // past `idx`, advancing past every suppressed field on the way.
        loop
            invariant
                self.args == old(self).args,
                self.spec_remaining() == old(self).spec_remaining(),
            decreases WORD_FIELD_COUNT - self.idx,
        {
            let ghost k: int = self.idx as int;
            if self.idx == 0 {
                self.idx = self.idx + 1;
                if !self.args.has_dictionary_def {
                    let v = format_bool(self.args.has_dictionary_def);
                    proof {
                        assert(self.args.spec_pairs_from(k) == self.args.spec_field_pair(k)
                            + self.args.spec_pairs_from(k + 1));
                        assert(self.args.spec_field_pair(k) =~= seq![("hasDictionaryDef"@, v@)]);
                    }
                    return Some(("hasDictionaryDef", v));
                }
                proof {
                    assert(self.args.spec_pairs_from(k) == self.args.spec_field_pair(k)
                        + self.args.spec_pairs_from(k + 1));
                    assert(self.args.spec_pairs_from(k) =~= self.args.spec_pairs_from(k + 1));
                }
            } else if self.idx == 1 {
                self.idx = self.idx + 1;
                if self.args.include_part_of_speech.len() != 0 {
                    let v = format_csv(self.args.include_part_of_speech.as_slice());
                    proof {
                        assert(self.args.spec_pairs_from(k) == self.args.spec_field_pair(k)
                            + self.args.spec_pairs_from(k + 1));
                        assert(self.args.spec_field_pair(k) =~= seq![("includePartOfSpeech"@, v@)]);
                    }
                    return Some(("includePartOfSpeech", v));
                }
                proof {
                    assert(self.args.spec_pairs_from(k) == self.args.spec_field_pair(k)
                        + self.args.spec_pairs_from(k + 1));
                    assert(self.args.spec_pairs_from(k) =~= self.args.spec_pairs_from(k + 1));
                }
            } else if self.idx == 2 {
                self.idx = self.idx + 1;
                if self.args.exclude_part_of_speech.len() != 0 {
                    let v = format_csv(self.args.exclude_part_of_speech.as_slice());
                    proof {
                        assert(self.args.spec_pairs_from(k) == self.args.spec_field_pair(k)
                            + self.args.spec_pairs_from(k + 1));
                        assert(self.args.spec_field_pair(k) =~= seq![("excludePartOfSpeech"@, v@)]);
                    }
                    return Some(("excludePartOfSpeech", v));
                }
                proof {
                    assert(self.args.spec_pairs_from(k) == self.args.spec_field_pair(k)
                        + self.args.spec_pairs_from(k + 1));
                    assert(self.args.spec_pairs_from(k) =~= self.args.spec_pairs_from(k + 1));
                }
            } else if self.idx == 3 {
                self.idx = self.idx + 1;
                if let Some(c) = self.args.min_corpus_count {
                    let v = format_u32(c);
                    proof {
                        assert(self.args.spec_pairs_from(k) == self.args.spec_field_pair(k)
                            + self.args.spec_pairs_from(k + 1));
                        assert(self.args.spec_field_pair(k) =~= seq![("minCorpusCount"@, v@)]);
                    }
                    return Some(("minCorpusCount", v));
                }
                proof {
                    assert(self.args.spec_pairs_from(k) == self.args.spec_field_pair(k)
                        + self.args.spec_pairs_from(k + 1));
                    assert(self.args.spec_pairs_from(k) =~= self.args.spec_pairs_from(k + 1));
                }
            } else if self.idx == 4 {
                self.idx = self.idx + 1;
                if self.args.max_corpus_count != DEFAULT_MAX {
                    let v = format_i32(self.args.max_corpus_count);
                    proof {
                        assert(self.args.spec_pairs_from(k) == self.args.spec_field_pair(k)
                            + self.args.spec_pairs_from(k + 1));
                        assert(self.args.spec_field_pair(k) =~= seq![("maxCorpusCount"@, v@)]);
                    }
                    return Some(("maxCorpusCount", v));
                }
                proof {
                    assert(self.args.spec_pairs_from(k) == self.args.spec_field_pair(k)
                        + self.args.spec_pairs_from(k + 1));
                    assert(self.args.spec_pairs_from(k) =~= self.args.spec_pairs_from(k + 1));
                }
            } else if self.idx == 5 {
                self.idx = self.idx + 1;
                if self.args.min_dictionary_count != DEFAULT_MIN {
                    let v = format_u32(self.args.min_dictionary_count);
                    proof {
                        assert(self.args.spec_pairs_from(k) == self.args.spec_field_pair(k)
                            + self.args.spec_pairs_from(k + 1));
                        assert(self.args.spec_field_pair(k) =~= seq![("minDictionaryCount"@, v@)]);
                    }
                    return Some(("minDictionaryCount", v));
                }
                proof {
                    assert(self.args.spec_pairs_from(k) == self.args.spec_field_pair(k)
                        + self.args.spec_pairs_from(k + 1));
                    assert(self.args.spec_pairs_from(k) =~= self.args.spec_pairs_from(k + 1));
                }
            } else if self.idx == 6 {
                self.idx = self.idx + 1;
                if self.args.max_dictionary_count != DEFAULT_MAX {
                    let v = format_i32(self.args.max_dictionary_count);
                    proof {
                        assert(self.args.spec_pairs_from(k) == self.args.spec_field_pair(k)
                            + self.args.spec_pairs_from(k + 1));
                        assert(self.args.spec_field_pair(k) =~= seq![("maxDictionaryCount"@, v@)]);
                    }
                    return Some(("maxDictionaryCount", v));
                }
                proof {
                    assert(self.args.spec_pairs_from(k) == self.args.spec_field_pair(k)
                        + self.args.spec_pairs_from(k + 1));
                    assert(self.args.spec_pairs_from(k) =~= self.args.spec_pairs_from(k + 1));
                }
            } else if self.idx == 7 {
                self.idx = self.idx + 1;
                if self.args.min_length != DEFAULT_MIN_LENGTH {
                    let v = format_u32(self.args.min_length);
                    proof {
                        assert(self.args.spec_pairs_from(k) == self.args.spec_field_pair(k)
                            + self.args.spec_pairs_from(k + 1));
                        assert(self.args.spec_field_pair(k) =~= seq![("minLength"@, v@)]);
                    }
                    return Some(("minLength", v));
                }
                proof {
                    assert(self.args.spec_pairs_from(k) == self.args.spec_field_pair(k)
                        + self.args.spec_pairs_from(k + 1));
                    assert(self.args.spec_pairs_from(k) =~= self.args.spec_pairs_from(k + 1));
                }
            } else if self.idx == 8 {
                self.idx = self.idx + 1;
                if self.args.max_length != DEFAULT_MAX {
                    let v = format_i32(self.args.max_length);
                    proof {
                        assert(self.args.spec_pairs_from(k) == self.args.spec_field_pair(k)
                            + self.args.spec_pairs_from(k + 1));
                        assert(self.args.spec_field_pair(k) =~= seq![("maxLength"@, v@)]);
                    }
                    return Some(("maxLength", v));
                }
                proof {
                    assert(self.args.spec_pairs_from(k) == self.args.spec_field_pair(k)
                        + self.args.spec_pairs_from(k + 1));
                    assert(self.args.spec_pairs_from(k) =~= self.args.spec_pairs_from(k + 1));
                }
            } else {
                return None;
            }
        }
    }
}

impl<'a> Args<'a> for RandomWordArgs {
    type KeyValuePairs = RandomWordArgsIter<'a>;

    open spec fn spec_pairs(&self) -> Seq<(Seq<char>, Seq<char>)> {
        RandomWordArgs::spec_pairs_from(*self, 0)
    }

    fn args(&'a self) -> (it: RandomWordArgsIter<'a>) {
        let it = RandomWordArgsIter { args: self, idx: 0 };
        proof {
            assert(it.spec_remaining() == (*self).spec_pairs_from(0));
        }
        it
    }
}

pub struct RandomWordsArgs {
    pub has_dictionary_def: bool,
    pub include_part_of_speech: Vec<PartOfSpeech>,
    pub exclude_part_of_speech: Vec<PartOfSpeech>,
    pub min_corpus_count: Option<u32>,
    pub max_corpus_count: i32,
    pub min_dictionary_count: u32,
    pub max_dictionary_count: i32,
    pub min_length: u32,
    pub max_length: i32,
    pub sort_by: Option<SortType>,
    pub sort_order: Option<SortOrder>,
    pub limit: u32,
}

impl RandomWordsArgs {
    /// Whether every field still holds its API-defined default.
    pub open spec fn spec_is_default(self) -> bool {
        &&& self.has_dictionary_def == true
        &&& self.include_part_of_speech@.len() == 0
        &&& self.exclude_part_of_speech@.len() == 0
        &&& self.min_corpus_count is None
        &&& self.max_corpus_count == DEFAULT_MAX
        &&& self.min_dictionary_count == DEFAULT_MIN
        &&& self.max_dictionary_count == DEFAULT_MAX
        &&& self.min_length == DEFAULT_MIN_LENGTH
        &&& self.max_length == DEFAULT_MAX
        &&& self.sort_by is None
        &&& self.sort_order is None
        &&& self.limit == DEFAULT_LIMIT
    }

    /// The pair emitted for the field at position `i` of the declared
    /// order, or nothing when that field holds its default. The sort
    /// fields and `min_corpus_count` are true optionals: any set value is
    /// emitted.
    pub open spec fn spec_field_pair(self, i: int) -> Seq<(Seq<char>, Seq<char>)> {
        if i == 0 {
            opt_pair(
                !self.has_dictionary_def,
                "hasDictionaryDef"@,
                spec_bool_text(self.has_dictionary_def),
            )
        } else if i == 1 {
            opt_pair(
                self.include_part_of_speech@.len() != 0,
                "includePartOfSpeech"@,
                spec_csv(spec_tags(self.include_part_of_speech@)),
            )
        } else if i == 2 {
            opt_pair(
                self.exclude_part_of_speech@.len() != 0,
                "excludePartOfSpeech"@,
                spec_csv(spec_tags(self.exclude_part_of_speech@)),
            )
        } else if i == 3 {
            opt_pair(
                self.min_corpus_count is Some,
                "minCorpusCount"@,
                spec_udec(self.min_corpus_count->0 as nat),
            )
        } else if i == 4 {
            opt_pair(
                self.max_corpus_count != DEFAULT_MAX,
                "maxCorpusCount"@,
                spec_idec(self.max_corpus_count as int),
            )
        } else if i == 5 {
            opt_pair(
                self.min_dictionary_count != DEFAULT_MIN,
                "minDictionaryCount"@,
                spec_udec(self.min_dictionary_count as nat),
            )
        } else if i == 6 {
            opt_pair(
                self.max_dictionary_count != DEFAULT_MAX,
                "maxDictionaryCount"@,
                spec_idec(self.max_dictionary_count as int),
            )
        } else if i == 7 {
            opt_pair(
                self.min_length != DEFAULT_MIN_LENGTH,
                "minLength"@,
                spec_udec(self.min_length as nat),
            )
        } else if i == 8 {
            opt_pair(
                self.max_length != DEFAULT_MAX,
                "maxLength"@,
                spec_idec(self.max_length as int),
            )
        } else if i == 9 {
            opt_pair(self.sort_by is Some, "sortBy"@, spec_tag_opt(self.sort_by))
        } else if i == 10 {
            opt_pair(self.sort_order is Some, "sortOrder"@, spec_tag_opt(self.sort_order))
        } else if i == 11 {
            opt_pair(self.limit != DEFAULT_LIMIT, "limit"@, spec_udec(self.limit as nat))
        } else {
            Seq::empty()
        }
    }

    /// The pairs emitted by the fields at positions `i` and later, in
    /// declared order.
    pub open spec fn spec_pairs_from(self, i: int) -> Seq<(Seq<char>, Seq<char>)>
        decreases WORDS_FIELD_COUNT - i,
    {
        if 0 <= i < WORDS_FIELD_COUNT {
            self.spec_field_pair(i) + self.spec_pairs_from(i + 1)
        } else {
            Seq::empty()
        }
    }

    /// All pairs this bundle emits, in declared field order.
    pub open spec fn spec_pairs(self) -> Seq<(Seq<char>, Seq<char>)> {
        self.spec_pairs_from(0)
    }

    /// Fresh bundle with every field at its API-defined default.
    pub fn new() -> (r: Self)
        ensures
            r.spec_is_default(),
    {
        Self {
            has_dictionary_def: true,
            include_part_of_speech: Vec::new(),
            exclude_part_of_speech: Vec::new(),
            min_corpus_count: None,
            max_corpus_count: DEFAULT_MAX,
            min_dictionary_count: DEFAULT_MIN,
            max_dictionary_count: DEFAULT_MAX,
            min_length: DEFAULT_MIN_LENGTH,
            max_length: DEFAULT_MAX,
            sort_by: None,
            sort_order: None,
            limit: DEFAULT_LIMIT,
        }
    }
}

impl Default for RandomWordsArgs {
    fn default() -> (r: Self)
        ensures
            r.spec_is_default(),
    {
        Self::new()
    }
}

/// Traversal over a multi-random-word bundle's non-default fields.
pub struct RandomWordsArgsIter<'a> {
    args: &'a RandomWordsArgs,
    idx: usize,
}

impl<'a> PairIter for RandomWordsArgsIter<'a> {
    closed spec fn spec_remaining(&self) -> Seq<(Seq<char>, Seq<char>)> {
        self.args.spec_pairs_from(self.idx as int)
    }

    fn next(&mut self) -> (r: Option<(&'static str, String)>) {
        // Each call returns the pair of the first non-default field at or
        // past `idx`, advancing past every suppressed field on the way.
        loop
            invariant
                self.args == old(self).args,
                self.spec_remaining() == old(self).spec_remaining(),
            decreases WORDS_FIELD_COUNT - self.idx,
        {
            let ghost k: int = self.idx as int;
            if self.idx == 0 {
                self.idx = self.idx + 1;
                if !self.args.has_dictionary_def {
                    let v = format_bool(self.args.has_dictionary_def);
                    proof {
                        assert(self.args.spec_pairs_from(k) == self.args.spec_field_pair(k)
                            + self.args.spec_pairs_from(k + 1));
                        assert(self.args.spec_field_pair(k) =~= seq![("hasDictionaryDef"@, v@)]);
                    }
                    return Some(("hasDictionaryDef", v));
                }
                proof {
                    assert(self.args.spec_pairs_from(k) == self.args.spec_field_pair(k)
                        + self.args.spec_pairs_from(k + 1));
                    assert(self.args.spec_pairs_from(k) =~= self.args.spec_pairs_from(k + 1));
                }
            } else if self.idx == 1 {
                self.idx = self.idx + 1;
                if self.args.include_part_of_speech.len() != 0 {
                    let v = format_csv(self.args.include_part_of_speech.as_slice());
                    proof {
                        assert(self.args.spec_pairs_from(k) == self.args.spec_field_pair(k)
                            + self.args.spec_pairs_from(k + 1));
                        assert(self.args.spec_field_pair(k) =~= seq![("includePartOfSpeech"@, v@)]);
                    }
                    return Some(("includePartOfSpeech", v));
                }
                proof {
                    assert(self.args.spec_pairs_from(k) == self.args.spec_field_pair(k)
                        + self.args.spec_pairs_from(k + 1));
                    assert(self.args.spec_pairs_from(k) =~= self.args.spec_pairs_from(k + 1));
                }
            } else if self.idx == 2 {
                self.idx = self.idx + 1;
                if self.args.exclude_part_of_speech.len() != 0 {
                    let v = format_csv(self.args.exclude_part_of_speech.as_slice());
                    proof {
                        assert(self.args.spec_pairs_from(k) == self.args.spec_field_pair(k)
                            + self.args.spec_pairs_from(k + 1));
                        assert(self.args.spec_field_pair(k) =~= seq![("excludePartOfSpeech"@, v@)]);
                    }
                    return Some(("excludePartOfSpeech", v));
                }
                proof {
                    assert(self.args.spec_pairs_from(k) == self.args.spec_field_pair(k)
                        + self.args.spec_pairs_from(k + 1));
                    assert(self.args.spec_pairs_from(k) =~= self.args.spec_pairs_from(k + 1));
                }
            } else if self.idx == 3 {
                self.idx = self.idx + 1;
                if let Some(c) = self.args.min_corpus_count {
                    let v = format_u32(c);
                    proof {
                        assert(self.args.spec_pairs_from(k) == self.args.spec_field_pair(k)
                            + self.args.spec_pairs_from(k + 1));
                        assert(self.args.spec_field_pair(k) =~= seq![("minCorpusCount"@, v@)]);
                    }
                    return Some(("minCorpusCount", v));
                }
                proof {
                    assert(self.args.spec_pairs_from(k) == self.args.spec_field_pair(k)
                        + self.args.spec_pairs_from(k + 1));
                    assert(self.args.spec_pairs_from(k) =~= self.args.spec_pairs_from(k + 1));
                }
            } else if self.idx == 4 {
                self.idx = self.idx + 1;
                if self.args.max_corpus_count != DEFAULT_MAX {
                    let v = format_i32(self.args.max_corpus_count);
                    proof {
                        assert(self.args.spec_pairs_from(k) == self.args.spec_field_pair(k)
                            + self.args.spec_pairs_from(k + 1));
                        assert(self.args.spec_field_pair(k) =~= seq![("maxCorpusCount"@, v@)]);
                    }
                    return Some(("maxCorpusCount", v));
                }
                proof {
                    assert(self.args.spec_pairs_from(k) == self.args.spec_field_pair(k)
                        + self.args.spec_pairs_from(k + 1));
                    assert(self.args.spec_pairs_from(k) =~= self.args.spec_pairs_from(k + 1));
                }
            } else if self.idx == 5 {
                self.idx = self.idx + 1;
                if self.args.min_dictionary_count != DEFAULT_MIN {
                    let v = format_u32(self.args.min_dictionary_count);
                    proof {
                        assert(self.args.spec_pairs_from(k) == self.args.spec_field_pair(k)
                            + self.args.spec_pairs_from(k + 1));
                        assert(self.args.spec_field_pair(k) =~= seq![("minDictionaryCount"@, v@)]);
                    }
                    return Some(("minDictionaryCount", v));
                }
                proof {
                    assert(self.args.spec_pairs_from(k) == self.args.spec_field_pair(k)
                        + self.args.spec_pairs_from(k + 1));
                    assert(self.args.spec_pairs_from(k) =~= self.args.spec_pairs_from(k + 1));
                }
            } else if self.idx == 6 {
                self.idx = self.idx + 1;
                if self.args.max_dictionary_count != DEFAULT_MAX {
                    let v = format_i32(self.args.max_dictionary_count);
                    proof {
                        assert(self.args.spec_pairs_from(k) == self.args.spec_field_pair(k)
                            + self.args.spec_pairs_from(k + 1));
                        assert(self.args.spec_field_pair(k) =~= seq![("maxDictionaryCount"@, v@)]);
                    }
                    return Some(("maxDictionaryCount", v));
                }
                proof {
                    assert(self.args.spec_pairs_from(k) == self.args.spec_field_pair(k)
                        + self.args.spec_pairs_from(k + 1));
                    assert(self.args.spec_pairs_from(k) =~= self.args.spec_pairs_from(k + 1));
                }
            } else if self.idx == 7 {
                self.idx = self.idx + 1;
                if self.args.min_length != DEFAULT_MIN_LENGTH {
                    let v = format_u32(self.args.min_length);
                    proof {
                        assert(self.args.spec_pairs_from(k) == self.args.spec_field_pair(k)
                            + self.args.spec_pairs_from(k + 1));
                        assert(self.args.spec_field_pair(k) =~= seq![("minLength"@, v@)]);
                    }
                    return Some(("minLength", v));
                }
                proof {
                    assert(self.args.spec_pairs_from(k) == self.args.spec_field_pair(k)
                        + self.args.spec_pairs_from(k + 1));
                    assert(self.args.spec_pairs_from(k) =~= self.args.spec_pairs_from(k + 1));
                }
            } else if self.idx == 8 {
                self.idx = self.idx + 1;
                if self.args.max_length != DEFAULT_MAX {
                    let v = format_i32(self.args.max_length);
                    proof {
                        assert(self.args.spec_pairs_from(k) == self.args.spec_field_pair(k)
                            + self.args.spec_pairs_from(k + 1));
                        assert(self.args.spec_field_pair(k) =~= seq![("maxLength"@, v@)]);
                    }
                    return Some(("maxLength", v));
                }
                proof {
                    assert(self.args.spec_pairs_from(k) == self.args.spec_field_pair(k)
                        + self.args.spec_pairs_from(k + 1));
                    assert(self.args.spec_pairs_from(k) =~= self.args.spec_pairs_from(k + 1));
                }
            } else if self.idx == 9 {
                self.idx = self.idx + 1;
                if let Some(sb) = self.args.sort_by {
                    let v = format_enum(&sb);
                    proof {
                        assert(self.args.spec_pairs_from(k) == self.args.spec_field_pair(k)
                            + self.args.spec_pairs_from(k + 1));
                        assert(self.args.spec_field_pair(k) =~= seq![("sortBy"@, v@)]);
                    }
                    return Some(("sortBy", v));
                }
                proof {
                    assert(self.args.spec_pairs_from(k) == self.args.spec_field_pair(k)
                        + self.args.spec_pairs_from(k + 1));
                    assert(self.args.spec_pairs_from(k) =~= self.args.spec_pairs_from(k + 1));
                }
            } else if self.idx == 10 {
                self.idx = self.idx + 1;
                if let Some(so) = self.args.sort_order {
                    let v = format_enum(&so);
                    proof {
                        assert(self.args.spec_pairs_from(k) == self.args.spec_field_pair(k)
                            + self.args.spec_pairs_from(k + 1));
                        assert(self.args.spec_field_pair(k) =~= seq![("sortOrder"@, v@)]);
                    }
                    return Some(("sortOrder", v));
                }
                proof {
                    assert(self.args.spec_pairs_from(k) == self.args.spec_field_pair(k)
                        + self.args.spec_pairs_from(k + 1));
                    assert(self.args.spec_pairs_from(k) =~= self.args.spec_pairs_from(k + 1));
                }
            } else if self.idx == 11 {
                self.idx = self.idx + 1;
                if self.args.limit != DEFAULT_LIMIT {
                    let v = format_u32(self.args.limit);
                    proof {
                        assert(self.args.spec_pairs_from(k) == self.args.spec_field_pair(k)
                            + self.args.spec_pairs_from(k + 1));
                        assert(self.args.spec_field_pair(k) =~= seq![("limit"@, v@)]);
                    }
                    return Some(("limit", v));
                }
                proof {
                    assert(self.args.spec_pairs_from(k) == self.args.spec_field_pair(k)
                        + self.args.spec_pairs_from(k + 1));
                    assert(self.args.spec_pairs_from(k) =~= self.args.spec_pairs_from(k + 1));
                }
            } else {
                return None;
            }
        }
    }
}

impl<'a> Args<'a> for RandomWordsArgs {
    type KeyValuePairs = RandomWordsArgsIter<'a>;

    open spec fn spec_pairs(&self) -> Seq<(Seq<char>, Seq<char>)> {
        RandomWordsArgs::spec_pairs_from(*self, 0)
    }

    fn args(&'a self) -> (it: RandomWordsArgsIter<'a>) {
        let it = RandomWordsArgsIter { args: self, idx: 0 };
        proof {
            assert(it.spec_remaining() == (*self).spec_pairs_from(0));
        }
        it
    }
}

/// Position of a wire name in the single-random-word bundle's declared
/// field order; names the bundle never emits rank past the last field.
pub open spec fn spec_random_word_rank(name: Seq<char>) -> int {
    if name == "hasDictionaryDef"@ {
        0
    } else if name == "includePartOfSpeech"@ {
        1
    } else if name == "excludePartOfSpeech"@ {
        2
    } else if name == "minCorpusCount"@ {
        3
    } else if name == "maxCorpusCount"@ {
        4
    } else if name == "minDictionaryCount"@ {
        5
    } else if name == "maxDictionaryCount"@ {
        6
    } else if name == "minLength"@ {
        7
    } else if name == "maxLength"@ {
        8
    } else {
        9
    }
}

/// Position of a wire name in the multi-random-word bundle's declared
/// field order; names the bundle never emits rank past the last field.
pub open spec fn spec_random_words_rank(name: Seq<char>) -> int {
    if name == "hasDictionaryDef"@ {
        0
    } else if name == "includePartOfSpeech"@ {
        1
    } else if name == "excludePartOfSpeech"@ {
        2
    } else if name == "minCorpusCount"@ {
        3
    } else if name == "maxCorpusCount"@ {
        4
    } else if name == "minDictionaryCount"@ {
        5
    } else if name == "maxDictionaryCount"@ {
        6
    } else if name == "minLength"@ {
        7
    } else if name == "maxLength"@ {
        8
    } else if name == "sortBy"@ {
        9
    } else if name == "sortOrder"@ {
        10
    } else if name == "limit"@ {
        11
    } else {
        12
    }
}

/// The pairs a single-random-word bundle emits from position `k` on carry
/// names of rank at least `k`, in strictly increasing rank order.
proof fn lemma_random_word_sorted_from(a: RandomWordArgs, k: int)
    requires
        0 <= k <= 9,
    ensures
        forall|i: int|
            0 <= i < a.spec_pairs_from(k).len() ==> spec_random_word_rank(
                #[trigger] a.spec_pairs_from(k)[i].0,
            ) >= k,
        forall|i: int, j: int|
            0 <= i < j < a.spec_pairs_from(k).len() ==> spec_random_word_rank(
                #[trigger] a.spec_pairs_from(k)[i].0,
            ) < spec_random_word_rank(#[trigger] a.spec_pairs_from(k)[j].0),
    decreases 9 - k,
{
    lemma_random_names_distinct();
    if k < 9 {
        lemma_random_word_sorted_from(a, k + 1);
        let f = a.spec_field_pair(k);
        let rest = a.spec_pairs_from(k + 1);
        let whole = a.spec_pairs_from(k);
        assert(whole == f + rest);
        assert(f.len() <= 1);
        assert(f.len() == 1 ==> spec_random_word_rank(f[0].0) == k);
        assert forall|i: int| 0 <= i < whole.len() implies spec_random_word_rank(
            #[trigger] whole[i].0,
        ) >= k by {
            if i < f.len() {
                assert(whole[i] == f[i]);
            } else {
                assert(whole[i] == rest[i - f.len()]);
            }
        }
        assert forall|i: int, j: int| 0 <= i < j < whole.len() implies spec_random_word_rank(
            #[trigger] whole[i].0,
        ) < spec_random_word_rank(#[trigger] whole[j].0) by {
            assert(whole[j] == rest[j - f.len()]);
            if i < f.len() {
                assert(whole[i] == f[i]);
            } else {
                assert(whole[i] == rest[i - f.len()]);
            }
        }
    }
}

/// Emission order of a single-random-word bundle is its declared field
/// order: along the emitted pairs, the names' declared positions strictly
/// increase, whatever order the caller set the fields in.
pub proof fn lemma_random_word_pairs_ordered(a: RandomWordArgs)
    ensures
        forall|i: int, j: int|
            0 <= i < j < a.spec_pairs().len() ==> spec_random_word_rank(
                #[trigger] a.spec_pairs()[i].0,
            ) < spec_random_word_rank(#[trigger] a.spec_pairs()[j].0),
{
    lemma_random_word_sorted_from(a, 0);
}

/// The pairs a multi-random-word bundle emits from position `k` on carry
/// names of rank at least `k`, in strictly increasing rank order.
proof fn lemma_random_words_sorted_from(a: RandomWordsArgs, k: int)
    requires
        0 <= k <= 12,
    ensures
        forall|i: int|
            0 <= i < a.spec_pairs_from(k).len() ==> spec_random_words_rank(
                #[trigger] a.spec_pairs_from(k)[i].0,
            ) >= k,
        forall|i: int, j: int|
            0 <= i < j < a.spec_pairs_from(k).len() ==> spec_random_words_rank(
                #[trigger] a.spec_pairs_from(k)[i].0,
            ) < spec_random_words_rank(#[trigger] a.spec_pairs_from(k)[j].0),
    decreases 12 - k,
{
    lemma_random_names_distinct();
    if k < 12 {
        lemma_random_words_sorted_from(a, k + 1);
        let f = a.spec_field_pair(k);
        let rest = a.spec_pairs_from(k + 1);
        let whole = a.spec_pairs_from(k);
        assert(whole == f + rest);
        assert(f.len() <= 1);
        assert(f.len() == 1 ==> spec_random_words_rank(f[0].0) == k);
        assert forall|i: int| 0 <= i < whole.len() implies spec_random_words_rank(
            #[trigger] whole[i].0,
        ) >= k by {
            if i < f.len() {
                assert(whole[i] == f[i]);
            } else {
                assert(whole[i] == rest[i - f.len()]);
            }
        }
        assert forall|i: int, j: int| 0 <= i < j < whole.len() implies spec_random_words_rank(
            #[trigger] whole[i].0,
        ) < spec_random_words_rank(#[trigger] whole[j].0) by {
            assert(whole[j] == rest[j - f.len()]);
            if i < f.len() {
                assert(whole[i] == f[i]);
            } else {
                assert(whole[i] == rest[i - f.len()]);
            }
        }
    }
}

/// Emission order of a multi-random-word bundle is its declared field
/// order: along the emitted pairs, the names' declared positions strictly
/// increase, whatever order the caller set the fields in.
pub proof fn lemma_random_words_pairs_ordered(a: RandomWordsArgs)
    ensures
        forall|i: int, j: int|
            0 <= i < j < a.spec_pairs().len() ==> spec_random_words_rank(
                #[trigger] a.spec_pairs()[i].0,
            ) < spec_random_words_rank(#[trigger] a.spec_pairs()[j].0),
{
    lemma_random_words_sorted_from(a, 0);
}

/// A fully default single-random-word bundle emits no pairs, so it encodes
/// to the empty fragment.
pub proof fn lemma_random_word_default_encodes_empty(a: RandomWordArgs)
    requires
        a.spec_is_default(),
    ensures
        a.spec_pairs() == Seq::<(Seq<char>, Seq<char>)>::empty(),
        spec_query(a.spec_pairs()) == Seq::<char>::empty(),
{
    assert(a.spec_pairs_from(9) =~= Seq::<(Seq<char>, Seq<char>)>::empty());
    assert(a.spec_pairs_from(8) =~= Seq::<(Seq<char>, Seq<char>)>::empty());
    assert(a.spec_pairs_from(7) =~= Seq::<(Seq<char>, Seq<char>)>::empty());
    assert(a.spec_pairs_from(6) =~= Seq::<(Seq<char>, Seq<char>)>::empty());
    assert(a.spec_pairs_from(5) =~= Seq::<(Seq<char>, Seq<char>)>::empty());
    assert(a.spec_pairs_from(4) =~= Seq::<(Seq<char>, Seq<char>)>::empty());
    assert(a.spec_pairs_from(3) =~= Seq::<(Seq<char>, Seq<char>)>::empty());
    assert(a.spec_pairs_from(2) =~= Seq::<(Seq<char>, Seq<char>)>::empty());
    assert(a.spec_pairs_from(1) =~= Seq::<(Seq<char>, Seq<char>)>::empty());
    assert(a.spec_pairs_from(0) =~= Seq::<(Seq<char>, Seq<char>)>::empty());
    assert(a.spec_pairs().map(
        |i: int, p: (Seq<char>, Seq<char>)| crate::wire::spec_pair_text(p),
    ) =~= Seq::<Seq<char>>::empty());
}

/// A fully default multi-random-word bundle emits no pairs, so it encodes
/// to the empty fragment.
pub proof fn lemma_random_words_default_encodes_empty(a: RandomWordsArgs)
    requires
        a.spec_is_default(),
    ensures
        a.spec_pairs() == Seq::<(Seq<char>, Seq<char>)>::empty(),
        spec_query(a.spec_pairs()) == Seq::<char>::empty(),
{
    assert(a.spec_pairs_from(12) =~= Seq::<(Seq<char>, Seq<char>)>::empty());
    assert(a.spec_pairs_from(11) =~= Seq::<(Seq<char>, Seq<char>)>::empty());
    assert(a.spec_pairs_from(10) =~= Seq::<(Seq<char>, Seq<char>)>::empty());
    assert(a.spec_pairs_from(9) =~= Seq::<(Seq<char>, Seq<char>)>::empty());
    assert(a.spec_pairs_from(8) =~= Seq::<(Seq<char>, Seq<char>)>::empty());
    assert(a.spec_pairs_from(7) =~= Seq::<(Seq<char>, Seq<char>)>::empty());
    assert(a.spec_pairs_from(6) =~= Seq::<(Seq<char>, Seq<char>)>::empty());
    assert(a.spec_pairs_from(5) =~= Seq::<(Seq<char>, Seq<char>)>::empty());
    assert(a.spec_pairs_from(4) =~= Seq::<(Seq<char>, Seq<char>)>::empty());
    assert(a.spec_pairs_from(3) =~= Seq::<(Seq<char>, Seq<char>)>::empty());
    assert(a.spec_pairs_from(2) =~= Seq::<(Seq<char>, Seq<char>)>::empty());
    assert(a.spec_pairs_from(1) =~= Seq::<(Seq<char>, Seq<char>)>::empty());
    assert(a.spec_pairs_from(0) =~= Seq::<(Seq<char>, Seq<char>)>::empty());
    assert(a.spec_pairs().map(
        |i: int, p: (Seq<char>, Seq<char>)| crate::wire::spec_pair_text(p),
    ) =~= Seq::<Seq<char>>::empty());
}

/// The emitted pairs of a single-random-word bundle split by field: each
/// field contributes its own conditional pair, in declared order.
proof fn lemma_random_word_pairs_split(a: RandomWordArgs, n: Seq<char>)
    ensures
        pair_count(a.spec_pairs(), n) == pair_count(a.spec_field_pair(0), n) + pair_count(
            a.spec_field_pair(1),
            n,
        ) + pair_count(a.spec_field_pair(2), n) + pair_count(a.spec_field_pair(3), n) + pair_count(
            a.spec_field_pair(4),
            n,
        ) + pair_count(a.spec_field_pair(5), n) + pair_count(a.spec_field_pair(6), n) + pair_count(
            a.spec_field_pair(7),
            n,
        ) + pair_count(a.spec_field_pair(8), n),
{
    assert(a.spec_pairs_from(9) =~= Seq::<(Seq<char>, Seq<char>)>::empty());
    assert(pair_count(a.spec_pairs_from(9), n) == 0);
    assert(a.spec_pairs_from(8) == a.spec_field_pair(8) + a.spec_pairs_from(9));
    lemma_pair_count_add(a.spec_field_pair(8), a.spec_pairs_from(9), n);
    assert(a.spec_pairs_from(7) == a.spec_field_pair(7) + a.spec_pairs_from(8));
    lemma_pair_count_add(a.spec_field_pair(7), a.spec_pairs_from(8), n);
    assert(a.spec_pairs_from(6) == a.spec_field_pair(6) + a.spec_pairs_from(7));
    lemma_pair_count_add(a.spec_field_pair(6), a.spec_pairs_from(7), n);
    assert(a.spec_pairs_from(5) == a.spec_field_pair(5) + a.spec_pairs_from(6));
    lemma_pair_count_add(a.spec_field_pair(5), a.spec_pairs_from(6), n);
    assert(a.spec_pairs_from(4) == a.spec_field_pair(4) + a.spec_pairs_from(5));
    lemma_pair_count_add(a.spec_field_pair(4), a.spec_pairs_from(5), n);
    assert(a.spec_pairs_from(3) == a.spec_field_pair(3) + a.spec_pairs_from(4));
    lemma_pair_count_add(a.spec_field_pair(3), a.spec_pairs_from(4), n);
    assert(a.spec_pairs_from(2) == a.spec_field_pair(2) + a.spec_pairs_from(3));
    lemma_pair_count_add(a.spec_field_pair(2), a.spec_pairs_from(3), n);
    assert(a.spec_pairs_from(1) == a.spec_field_pair(1) + a.spec_pairs_from(2));
    lemma_pair_count_add(a.spec_field_pair(1), a.spec_pairs_from(2), n);
    assert(a.spec_pairs_from(0) == a.spec_field_pair(0) + a.spec_pairs_from(1));
    lemma_pair_count_add(a.spec_field_pair(0), a.spec_pairs_from(1), n);
}

/// Applies the conditional-pair count rule to every field of a
/// single-random-word bundle for one sought name.
proof fn lemma_random_word_field_counts(a: RandomWordArgs, n: Seq<char>)
    ensures
        pair_count(a.spec_field_pair(0), n) == (if !a.has_dictionary_def && "hasDictionaryDef"@
            == n {
            1nat
        } else {
            0nat
        }),
        pair_count(a.spec_field_pair(1), n) == (if a.include_part_of_speech@.len() != 0
            && "includePartOfSpeech"@ == n {
            1nat
        } else {
            0nat
        }),
        pair_count(a.spec_field_pair(2), n) == (if a.exclude_part_of_speech@.len() != 0
            && "excludePartOfSpeech"@ == n {
            1nat
        } else {
            0nat
        }),
        pair_count(a.spec_field_pair(3), n) == (if a.min_corpus_count is Some && "minCorpusCount"@
            == n {
            1nat
        } else {
            0nat
        }),
        pair_count(a.spec_field_pair(4), n) == (if a.max_corpus_count != DEFAULT_MAX
            && "maxCorpusCount"@ == n {
            1nat
        } else {
            0nat
        }),
        pair_count(a.spec_field_pair(5), n) == (if a.min_dictionary_count != DEFAULT_MIN
            && "minDictionaryCount"@ == n {
            1nat
        } else {
            0nat
        }),
        pair_count(a.spec_field_pair(6), n) == (if a.max_dictionary_count != DEFAULT_MAX
            && "maxDictionaryCount"@ == n {
            1nat
        } else {
            0nat
        }),
        pair_count(a.spec_field_pair(7), n) == (if a.min_length != DEFAULT_MIN_LENGTH
            && "minLength"@ == n {
            1nat
        } else {
            0nat
        }),
        pair_count(a.spec_field_pair(8), n) == (if a.max_length != DEFAULT_MAX && "maxLength"@
            == n {
            1nat
        } else {
            0nat
        }),
{
    lemma_pair_count_opt(
        !a.has_dictionary_def,
        "hasDictionaryDef"@,
        spec_bool_text(a.has_dictionary_def),
        n,
    );
    lemma_pair_count_opt(
        a.include_part_of_speech@.len() != 0,
        "includePartOfSpeech"@,
        spec_csv(spec_tags(a.include_part_of_speech@)),
        n,
    );
    lemma_pair_count_opt(
        a.exclude_part_of_speech@.len() != 0,
        "excludePartOfSpeech"@,
        spec_csv(spec_tags(a.exclude_part_of_speech@)),
        n,
    );
    lemma_pair_count_opt(
        a.min_corpus_count is Some,
        "minCorpusCount"@,
        spec_udec(a.min_corpus_count->0 as nat),
        n,
    );
    lemma_pair_count_opt(
        a.max_corpus_count != DEFAULT_MAX,
        "maxCorpusCount"@,
        spec_idec(a.max_corpus_count as int),
        n,
    );
    lemma_pair_count_opt(
        a.min_dictionary_count != DEFAULT_MIN,
        "minDictionaryCount"@,
        spec_udec(a.min_dictionary_count as nat),
        n,
    );
    lemma_pair_count_opt(
        a.max_dictionary_count != DEFAULT_MAX,
        "maxDictionaryCount"@,
        spec_idec(a.max_dictionary_count as int),
        n,
    );
    lemma_pair_count_opt(
        a.min_length != DEFAULT_MIN_LENGTH,
        "minLength"@,
        spec_udec(a.min_length as nat),
        n,
    );
    lemma_pair_count_opt(
        a.max_length != DEFAULT_MAX,
        "maxLength"@,
        spec_idec(a.max_length as int),
        n,
    );
}

/// Reveals every wire name of the random-word bundles and records that
/// they are pairwise distinct.
proof fn lemma_random_names_distinct()
    ensures
        "hasDictionaryDef"@.len() == 16,
        "includePartOfSpeech"@.len() == 19,
        "excludePartOfSpeech"@.len() == 19,
        "minCorpusCount"@.len() == 14,
        "maxCorpusCount"@.len() == 14,
        "minDictionaryCount"@.len() == 18,
        "maxDictionaryCount"@.len() == 18,
        "minLength"@.len() == 9,
        "maxLength"@.len() == 9,
        "sortBy"@.len() == 6,
        "sortOrder"@.len() == 9,
        "limit"@.len() == 5,
        "includePartOfSpeech"@ != "excludePartOfSpeech"@,
        "minCorpusCount"@ != "maxCorpusCount"@,
        "minDictionaryCount"@ != "maxDictionaryCount"@,
        "minLength"@ != "maxLength"@,
        "minLength"@ != "sortOrder"@,
        "maxLength"@ != "sortOrder"@,
{
    reveal_strlit("hasDictionaryDef");
    reveal_strlit("includePartOfSpeech");
    reveal_strlit("excludePartOfSpeech");
    reveal_strlit("minCorpusCount");
    reveal_strlit("maxCorpusCount");
    reveal_strlit("minDictionaryCount");
    reveal_strlit("maxDictionaryCount");
    reveal_strlit("minLength");
    reveal_strlit("maxLength");
    reveal_strlit("sortBy");
    reveal_strlit("sortOrder");
    reveal_strlit("limit");
    assert("includePartOfSpeech"@[0] != "excludePartOfSpeech"@[0]);
    assert("minCorpusCount"@[1] != "maxCorpusCount"@[1]);
    assert("minDictionaryCount"@[1] != "maxDictionaryCount"@[1]);
    assert("minLength"@[1] != "maxLength"@[1]);
    assert("minLength"@[0] != "sortOrder"@[0]);
    assert("maxLength"@[0] != "sortOrder"@[0]);
}

/// A pair held by the field at position `k` of a single-random-word
/// bundle is held by the whole emitted sequence.
proof fn lemma_random_word_suffix_contains(
    a: RandomWordArgs,
    j: int,
    k: int,
    x: (Seq<char>, Seq<char>),
)
    requires
        0 <= j <= k < 9,
        a.spec_field_pair(k).contains(x),
    ensures
        a.spec_pairs_from(j).contains(x),
    decreases k - j,
{
    if j == k {
        assert(a.spec_pairs_from(k) == a.spec_field_pair(k) + a.spec_pairs_from(k + 1));
        lemma_pair_contains_concat(a.spec_field_pair(k), a.spec_pairs_from(k + 1), x);
    } else {
        lemma_random_word_suffix_contains(a, j + 1, k, x);
        assert(a.spec_pairs_from(j) == a.spec_field_pair(j) + a.spec_pairs_from(j + 1));
        lemma_pair_contains_concat(a.spec_field_pair(j), a.spec_pairs_from(j + 1), x);
    }
}

/// A pair held by the field at position `k` of a multi-random-word bundle
/// is held by the whole emitted sequence.
proof fn lemma_random_words_suffix_contains(
    a: RandomWordsArgs,
    j: int,
    k: int,
    x: (Seq<char>, Seq<char>),
)
    requires
        0 <= j <= k < 12,
        a.spec_field_pair(k).contains(x),
    ensures
        a.spec_pairs_from(j).contains(x),
    decreases k - j,
{
    if j == k {
        assert(a.spec_pairs_from(k) == a.spec_field_pair(k) + a.spec_pairs_from(k + 1));
        lemma_pair_contains_concat(a.spec_field_pair(k), a.spec_pairs_from(k + 1), x);
    } else {
        lemma_random_words_suffix_contains(a, j + 1, k, x);
        assert(a.spec_pairs_from(j) == a.spec_field_pair(j) + a.spec_pairs_from(j + 1));
        lemma_pair_contains_concat(a.spec_field_pair(j), a.spec_pairs_from(j + 1), x);
    }
}

/// Each field's wire name appears in a single-random-word bundle's pairs
/// exactly once when the field differs from its default, and not at all
/// otherwise, carrying the value its field type's formatting rule gives;
/// an unset optional is the only suppressing state of `min_corpus_count`,
/// and a list field set back to empty is suppressed like one never
/// touched.
pub proof fn lemma_random_word_fields_emitted_once(a: RandomWordArgs)
    ensures
        pair_count(a.spec_pairs(), "hasDictionaryDef"@) == (if !a.has_dictionary_def {
            1nat
        } else {
            0nat
        }),
        pair_count(a.spec_pairs(), "includePartOfSpeech"@) == (if a.include_part_of_speech@.len()
            != 0 {
            1nat
        } else {
            0nat
        }),
        pair_count(a.spec_pairs(), "excludePartOfSpeech"@) == (if a.exclude_part_of_speech@.len()
            != 0 {
            1nat
        } else {
            0nat
        }),
        pair_count(a.spec_pairs(), "minCorpusCount"@) == (if a.min_corpus_count is Some {
            1nat
        } else {
            0nat
        }),
        pair_count(a.spec_pairs(), "maxCorpusCount"@) == (if a.max_corpus_count != DEFAULT_MAX {
            1nat
        } else {
            0nat
        }),
        pair_count(a.spec_pairs(), "minDictionaryCount"@) == (if a.min_dictionary_count
            != DEFAULT_MIN {
            1nat
        } else {
            0nat
        }),
        pair_count(a.spec_pairs(), "maxDictionaryCount"@) == (if a.max_dictionary_count
            != DEFAULT_MAX {
            1nat
        } else {
            0nat
        }),
        pair_count(a.spec_pairs(), "minLength"@) == (if a.min_length != DEFAULT_MIN_LENGTH {
            1nat
        } else {
            0nat
        }),
        pair_count(a.spec_pairs(), "maxLength"@) == (if a.max_length != DEFAULT_MAX {
            1nat
        } else {
            0nat
        }),
        !a.has_dictionary_def ==> a.spec_pairs().contains(
            ("hasDictionaryDef"@, spec_bool_text(false)),
        ),
        a.include_part_of_speech@.len() != 0 ==> a.spec_pairs().contains(
            ("includePartOfSpeech"@, spec_csv(spec_tags(a.include_part_of_speech@))),
        ),
        a.exclude_part_of_speech@.len() != 0 ==> a.spec_pairs().contains(
            ("excludePartOfSpeech"@, spec_csv(spec_tags(a.exclude_part_of_speech@))),
        ),
        a.min_corpus_count is Some ==> a.spec_pairs().contains(
            ("minCorpusCount"@, spec_udec(a.min_corpus_count->0 as nat)),
        ),
        a.max_corpus_count != DEFAULT_MAX ==> a.spec_pairs().contains(
            ("maxCorpusCount"@, spec_idec(a.max_corpus_count as int)),
        ),
        a.min_dictionary_count != DEFAULT_MIN ==> a.spec_pairs().contains(
            ("minDictionaryCount"@, spec_udec(a.min_dictionary_count as nat)),
        ),
        a.max_dictionary_count != DEFAULT_MAX ==> a.spec_pairs().contains(
            ("maxDictionaryCount"@, spec_idec(a.max_dictionary_count as int)),
        ),
        a.min_length != DEFAULT_MIN_LENGTH ==> a.spec_pairs().contains(
            ("minLength"@, spec_udec(a.min_length as nat)),
        ),
        a.max_length != DEFAULT_MAX ==> a.spec_pairs().contains(
            ("maxLength"@, spec_idec(a.max_length as int)),
        ),
{
    lemma_random_names_distinct();
    if !a.has_dictionary_def {
        let x = ("hasDictionaryDef"@, spec_bool_text(false));
        assert(a.spec_field_pair(0)[0] == x);
        lemma_random_word_suffix_contains(a, 0, 0, x);
    }
    if a.include_part_of_speech@.len() != 0 {
        let x = ("includePartOfSpeech"@, spec_csv(spec_tags(a.include_part_of_speech@)));
        assert(a.spec_field_pair(1)[0] == x);
        lemma_random_word_suffix_contains(a, 0, 1, x);
    }
    if a.exclude_part_of_speech@.len() != 0 {
        let x = ("excludePartOfSpeech"@, spec_csv(spec_tags(a.exclude_part_of_speech@)));
        assert(a.spec_field_pair(2)[0] == x);
        lemma_random_word_suffix_contains(a, 0, 2, x);
    }
    if a.min_corpus_count is Some {
        let x = ("minCorpusCount"@, spec_udec(a.min_corpus_count->0 as nat));
        assert(a.spec_field_pair(3)[0] == x);
        lemma_random_word_suffix_contains(a, 0, 3, x);
    }
    if a.max_corpus_count != DEFAULT_MAX {
        let x = ("maxCorpusCount"@, spec_idec(a.max_corpus_count as int));
        assert(a.spec_field_pair(4)[0] == x);
        lemma_random_word_suffix_contains(a, 0, 4, x);
    }
    if a.min_dictionary_count != DEFAULT_MIN {
        let x = ("minDictionaryCount"@, spec_udec(a.min_dictionary_count as nat));
        assert(a.spec_field_pair(5)[0] == x);
        lemma_random_word_suffix_contains(a, 0, 5, x);
    }
    if a.max_dictionary_count != DEFAULT_MAX {
        let x = ("maxDictionaryCount"@, spec_idec(a.max_dictionary_count as int));
        assert(a.spec_field_pair(6)[0] == x);
        lemma_random_word_suffix_contains(a, 0, 6, x);
    }
    if a.min_length != DEFAULT_MIN_LENGTH {
        let x = ("minLength"@, spec_udec(a.min_length as nat));
        assert(a.spec_field_pair(7)[0] == x);
        lemma_random_word_suffix_contains(a, 0, 7, x);
    }
    if a.max_length != DEFAULT_MAX {
        let x = ("maxLength"@, spec_idec(a.max_length as int));
        assert(a.spec_field_pair(8)[0] == x);
        lemma_random_word_suffix_contains(a, 0, 8, x);
    }
    lemma_random_word_pairs_split(a, "hasDictionaryDef"@);
    lemma_random_word_field_counts(a, "hasDictionaryDef"@);
    lemma_random_word_pairs_split(a, "includePartOfSpeech"@);
    lemma_random_word_field_counts(a, "includePartOfSpeech"@);
    lemma_random_word_pairs_split(a, "excludePartOfSpeech"@);
    lemma_random_word_field_counts(a, "excludePartOfSpeech"@);
    lemma_random_word_pairs_split(a, "minCorpusCount"@);
    lemma_random_word_field_counts(a, "minCorpusCount"@);
    lemma_random_word_pairs_split(a, "maxCorpusCount"@);
    lemma_random_word_field_counts(a, "maxCorpusCount"@);
    lemma_random_word_pairs_split(a, "minDictionaryCount"@);
    lemma_random_word_field_counts(a, "minDictionaryCount"@);
    lemma_random_word_pairs_split(a, "maxDictionaryCount"@);
    lemma_random_word_field_counts(a, "maxDictionaryCount"@);
    lemma_random_word_pairs_split(a, "minLength"@);
    lemma_random_word_field_counts(a, "minLength"@);
    lemma_random_word_pairs_split(a, "maxLength"@);
    lemma_random_word_field_counts(a, "maxLength"@);
}

/// The emitted pairs of a multi-random-word bundle split by field: each
/// field contributes its own conditional pair, in declared order.
proof fn lemma_random_words_pairs_split(a: RandomWordsArgs, n: Seq<char>)
    ensures
        pair_count(a.spec_pairs(), n) == pair_count(a.spec_field_pair(0), n) + pair_count(
            a.spec_field_pair(1),
            n,
        ) + pair_count(a.spec_field_pair(2), n) + pair_count(a.spec_field_pair(3), n) + pair_count(
            a.spec_field_pair(4),
            n,
        ) + pair_count(a.spec_field_pair(5), n) + pair_count(a.spec_field_pair(6), n) + pair_count(
            a.spec_field_pair(7),
            n,
        ) + pair_count(a.spec_field_pair(8), n) + pair_count(a.spec_field_pair(9), n) + pair_count(
            a.spec_field_pair(10),
            n,
        ) + pair_count(a.spec_field_pair(11), n),
{
    assert(a.spec_pairs_from(12) =~= Seq::<(Seq<char>, Seq<char>)>::empty());
    assert(pair_count(a.spec_pairs_from(12), n) == 0);
    assert(a.spec_pairs_from(11) == a.spec_field_pair(11) + a.spec_pairs_from(12));
    lemma_pair_count_add(a.spec_field_pair(11), a.spec_pairs_from(12), n);
    assert(a.spec_pairs_from(10) == a.spec_field_pair(10) + a.spec_pairs_from(11));
    lemma_pair_count_add(a.spec_field_pair(10), a.spec_pairs_from(11), n);
    assert(a.spec_pairs_from(9) == a.spec_field_pair(9) + a.spec_pairs_from(10));
    lemma_pair_count_add(a.spec_field_pair(9), a.spec_pairs_from(10), n);
    assert(a.spec_pairs_from(8) == a.spec_field_pair(8) + a.spec_pairs_from(9));
    lemma_pair_count_add(a.spec_field_pair(8), a.spec_pairs_from(9), n);
    assert(a.spec_pairs_from(7) == a.spec_field_pair(7) + a.spec_pairs_from(8));
    lemma_pair_count_add(a.spec_field_pair(7), a.spec_pairs_from(8), n);
    assert(a.spec_pairs_from(6) == a.spec_field_pair(6) + a.spec_pairs_from(7));
    lemma_pair_count_add(a.spec_field_pair(6), a.spec_pairs_from(7), n);
    assert(a.spec_pairs_from(5) == a.spec_field_pair(5) + a.spec_pairs_from(6));
    lemma_pair_count_add(a.spec_field_pair(5), a.spec_pairs_from(6), n);
    assert(a.spec_pairs_from(4) == a.spec_field_pair(4) + a.spec_pairs_from(5));
    lemma_pair_count_add(a.spec_field_pair(4), a.spec_pairs_from(5), n);
    assert(a.spec_pairs_from(3) == a.spec_field_pair(3) + a.spec_pairs_from(4));
    lemma_pair_count_add(a.spec_field_pair(3), a.spec_pairs_from(4), n);
    assert(a.spec_pairs_from(2) == a.spec_field_pair(2) + a.spec_pairs_from(3));
    lemma_pair_count_add(a.spec_field_pair(2), a.spec_pairs_from(3), n);
    assert(a.spec_pairs_from(1) == a.spec_field_pair(1) + a.spec_pairs_from(2));
    lemma_pair_count_add(a.spec_field_pair(1), a.spec_pairs_from(2), n);
    assert(a.spec_pairs_from(0) == a.spec_field_pair(0) + a.spec_pairs_from(1));
    lemma_pair_count_add(a.spec_field_pair(0), a.spec_pairs_from(1), n);
}

/// Applies the conditional-pair count rule to every field of a
/// multi-random-word bundle for one sought name.
proof fn lemma_random_words_field_counts(a: RandomWordsArgs, n: Seq<char>)
    ensures
        pair_count(a.spec_field_pair(0), n) == (if !a.has_dictionary_def && "hasDictionaryDef"@
            == n {
            1nat
        } else {
            0nat
        }),
        pair_count(a.spec_field_pair(1), n) == (if a.include_part_of_speech@.len() != 0
            && "includePartOfSpeech"@ == n {
            1nat
        } else {
            0nat
        }),
        pair_count(a.spec_field_pair(2), n) == (if a.exclude_part_of_speech@.len() != 0
            && "excludePartOfSpeech"@ == n {
            1nat
        } else {
            0nat
        }),
        pair_count(a.spec_field_pair(3), n) == (if a.min_corpus_count is Some && "minCorpusCount"@
            == n {
            1nat
        } else {
            0nat
        }),
        pair_count(a.spec_field_pair(4), n) == (if a.max_corpus_count != DEFAULT_MAX
            && "maxCorpusCount"@ == n {
            1nat
        } else {
            0nat
        }),
        pair_count(a.spec_field_pair(5), n) == (if a.min_dictionary_count != DEFAULT_MIN
            && "minDictionaryCount"@ == n {
            1nat
        } else {
            0nat
        }),
        pair_count(a.spec_field_pair(6), n) == (if a.max_dictionary_count != DEFAULT_MAX
            && "maxDictionaryCount"@ == n {
            1nat
        } else {
            0nat
        }),
        pair_count(a.spec_field_pair(7), n) == (if a.min_length != DEFAULT_MIN_LENGTH
            && "minLength"@ == n {
            1nat
        } else {
            0nat
        }),
        pair_count(a.spec_field_pair(8), n) == (if a.max_length != DEFAULT_MAX && "maxLength"@
            == n {
            1nat
        } else {
            0nat
        }),
        pair_count(a.spec_field_pair(9), n) == (if a.sort_by is Some && "sortBy"@ == n {
            1nat
        } else {
            0nat
        }),
        pair_count(a.spec_field_pair(10), n) == (if a.sort_order is Some && "sortOrder"@ == n {
            1nat
        } else {
            0nat
        }),
        pair_count(a.spec_field_pair(11), n) == (if a.limit != DEFAULT_LIMIT && "limit"@ == n {
            1nat
        } else {
            0nat
        }),
{
    lemma_pair_count_opt(
        !a.has_dictionary_def,
        "hasDictionaryDef"@,
        spec_bool_text(a.has_dictionary_def),
        n,
    );
    lemma_pair_count_opt(
        a.include_part_of_speech@.len() != 0,
        "includePartOfSpeech"@,
        spec_csv(spec_tags(a.include_part_of_speech@)),
        n,
    );
    lemma_pair_count_opt(
        a.exclude_part_of_speech@.len() != 0,
        "excludePartOfSpeech"@,
        spec_csv(spec_tags(a.exclude_part_of_speech@)),
        n,
    );
    lemma_pair_count_opt(
        a.min_corpus_count is Some,
        "minCorpusCount"@,
        spec_udec(a.min_corpus_count->0 as nat),
        n,
    );
    lemma_pair_count_opt(
        a.max_corpus_count != DEFAULT_MAX,
        "maxCorpusCount"@,
        spec_idec(a.max_corpus_count as int),
        n,
    );
    lemma_pair_count_opt(
        a.min_dictionary_count != DEFAULT_MIN,
        "minDictionaryCount"@,
        spec_udec(a.min_dictionary_count as nat),
        n,
    );
    lemma_pair_count_opt(
        a.max_dictionary_count != DEFAULT_MAX,
        "maxDictionaryCount"@,
        spec_idec(a.max_dictionary_count as int),
        n,
    );
    lemma_pair_count_opt(
        a.min_length != DEFAULT_MIN_LENGTH,
        "minLength"@,
        spec_udec(a.min_length as nat),
        n,
    );
    lemma_pair_count_opt(
        a.max_length != DEFAULT_MAX,
        "maxLength"@,
        spec_idec(a.max_length as int),
        n,
    );
    lemma_pair_count_opt(a.sort_by is Some, "sortBy"@, spec_tag_opt(a.sort_by), n);
    lemma_pair_count_opt(a.sort_order is Some, "sortOrder"@, spec_tag_opt(a.sort_order), n);
    lemma_pair_count_opt(a.limit != DEFAULT_LIMIT, "limit"@, spec_udec(a.limit as nat), n);
}

/// Each field's wire name appears in a multi-random-word bundle's pairs
/// exactly once when the field differs from its default, and not at all
/// otherwise, carrying the value its field type's formatting rule gives;
/// the sort fields and `min_corpus_count` are suppressed only while
/// unset, and a list field set back to empty is suppressed like one never
/// touched.
#[verifier::rlimit(60)]
pub proof fn lemma_random_words_fields_emitted_once(a: RandomWordsArgs)
    ensures
        pair_count(a.spec_pairs(), "hasDictionaryDef"@) == (if !a.has_dictionary_def {
            1nat
        } else {
            0nat
        }),
        pair_count(a.spec_pairs(), "includePartOfSpeech"@) == (if a.include_part_of_speech@.len()
            != 0 {
            1nat
        } else {
            0nat
        }),
        pair_count(a.spec_pairs(), "excludePartOfSpeech"@) == (if a.exclude_part_of_speech@.len()
            != 0 {
            1nat
        } else {
            0nat
        }),
        pair_count(a.spec_pairs(), "minCorpusCount"@) == (if a.min_corpus_count is Some {
            1nat
        } else {
            0nat
        }),
        pair_count(a.spec_pairs(), "maxCorpusCount"@) == (if a.max_corpus_count != DEFAULT_MAX {
            1nat
        } else {
            0nat
        }),
        pair_count(a.spec_pairs(), "minDictionaryCount"@) == (if a.min_dictionary_count
            != DEFAULT_MIN {
            1nat
        } else {
            0nat
        }),
        pair_count(a.spec_pairs(), "maxDictionaryCount"@) == (if a.max_dictionary_count
            != DEFAULT_MAX {
            1nat
        } else {
            0nat
        }),
        pair_count(a.spec_pairs(), "minLength"@) == (if a.min_length != DEFAULT_MIN_LENGTH {
            1nat
        } else {
            0nat
        }),
        pair_count(a.spec_pairs(), "maxLength"@) == (if a.max_length != DEFAULT_MAX {
            1nat
        } else {
            0nat
        }),
        pair_count(a.spec_pairs(), "sortBy"@) == (if a.sort_by is Some {
            1nat
        } else {
            0nat
        }),
        pair_count(a.spec_pairs(), "sortOrder"@) == (if a.sort_order is Some {
            1nat
        } else {
            0nat
        }),
        pair_count(a.spec_pairs(), "limit"@) == (if a.limit != DEFAULT_LIMIT {
            1nat
        } else {
            0nat
        }),
        !a.has_dictionary_def ==> a.spec_pairs().contains(
            ("hasDictionaryDef"@, spec_bool_text(false)),
        ),
        a.include_part_of_speech@.len() != 0 ==> a.spec_pairs().contains(
            ("includePartOfSpeech"@, spec_csv(spec_tags(a.include_part_of_speech@))),
        ),
        a.exclude_part_of_speech@.len() != 0 ==> a.spec_pairs().contains(
            ("excludePartOfSpeech"@, spec_csv(spec_tags(a.exclude_part_of_speech@))),
        ),
        a.min_corpus_count is Some ==> a.spec_pairs().contains(
            ("minCorpusCount"@, spec_udec(a.min_corpus_count->0 as nat)),
        ),
        a.max_corpus_count != DEFAULT_MAX ==> a.spec_pairs().contains(
            ("maxCorpusCount"@, spec_idec(a.max_corpus_count as int)),
        ),
        a.min_dictionary_count != DEFAULT_MIN ==> a.spec_pairs().contains(
            ("minDictionaryCount"@, spec_udec(a.min_dictionary_count as nat)),
        ),
        a.max_dictionary_count != DEFAULT_MAX ==> a.spec_pairs().contains(
            ("maxDictionaryCount"@, spec_idec(a.max_dictionary_count as int)),
        ),
        a.min_length != DEFAULT_MIN_LENGTH ==> a.spec_pairs().contains(
            ("minLength"@, spec_udec(a.min_length as nat)),
        ),
        a.max_length != DEFAULT_MAX ==> a.spec_pairs().contains(
            ("maxLength"@, spec_idec(a.max_length as int)),
        ),
        a.sort_by is Some ==> a.spec_pairs().contains(("sortBy"@, spec_tag_opt(a.sort_by))),
        a.sort_order is Some ==> a.spec_pairs().contains(
            ("sortOrder"@, spec_tag_opt(a.sort_order)),
        ),
        a.limit != DEFAULT_LIMIT ==> a.spec_pairs().contains(
            ("limit"@, spec_udec(a.limit as nat)),
        ),
{
    lemma_random_names_distinct();
    if !a.has_dictionary_def {
        let x = ("hasDictionaryDef"@, spec_bool_text(false));
        assert(a.spec_field_pair(0)[0] == x);
        lemma_random_words_suffix_contains(a, 0, 0, x);
    }
    if a.include_part_of_speech@.len() != 0 {
        let x = ("includePartOfSpeech"@, spec_csv(spec_tags(a.include_part_of_speech@)));
        assert(a.spec_field_pair(1)[0] == x);
        lemma_random_words_suffix_contains(a, 0, 1, x);
    }
    if a.exclude_part_of_speech@.len() != 0 {
        let x = ("excludePartOfSpeech"@, spec_csv(spec_tags(a.exclude_part_of_speech@)));
        assert(a.spec_field_pair(2)[0] == x);
        lemma_random_words_suffix_contains(a, 0, 2, x);
    }
    if a.min_corpus_count is Some {
        let x = ("minCorpusCount"@, spec_udec(a.min_corpus_count->0 as nat));
        assert(a.spec_field_pair(3)[0] == x);
        lemma_random_words_suffix_contains(a, 0, 3, x);
    }
    if a.max_corpus_count != DEFAULT_MAX {
        let x = ("maxCorpusCount"@, spec_idec(a.max_corpus_count as int));
        assert(a.spec_field_pair(4)[0] == x);
        lemma_random_words_suffix_contains(a, 0, 4, x);
    }
    if a.min_dictionary_count != DEFAULT_MIN {
        let x = ("minDictionaryCount"@, spec_udec(a.min_dictionary_count as nat));
        assert(a.spec_field_pair(5)[0] == x);
        lemma_random_words_suffix_contains(a, 0, 5, x);
    }
    if a.max_dictionary_count != DEFAULT_MAX {
        let x = ("maxDictionaryCount"@, spec_idec(a.max_dictionary_count as int));
        assert(a.spec_field_pair(6)[0] == x);
        lemma_random_words_suffix_contains(a, 0, 6, x);
    }
    if a.min_length != DEFAULT_MIN_LENGTH {
        let x = ("minLength"@, spec_udec(a.min_length as nat));
        assert(a.spec_field_pair(7)[0] == x);
        lemma_random_words_suffix_contains(a, 0, 7, x);
    }
    if a.max_length != DEFAULT_MAX {
        let x = ("maxLength"@, spec_idec(a.max_length as int));
        assert(a.spec_field_pair(8)[0] == x);
        lemma_random_words_suffix_contains(a, 0, 8, x);
    }
    if a.sort_by is Some {
        let x = ("sortBy"@, spec_tag_opt(a.sort_by));
        assert(a.spec_field_pair(9)[0] == x);
        lemma_random_words_suffix_contains(a, 0, 9, x);
    }
    if a.sort_order is Some {
        let x = ("sortOrder"@, spec_tag_opt(a.sort_order));
        assert(a.spec_field_pair(10)[0] == x);
        lemma_random_words_suffix_contains(a, 0, 10, x);
    }
    if a.limit != DEFAULT_LIMIT {
        let x = ("limit"@, spec_udec(a.limit as nat));
        assert(a.spec_field_pair(11)[0] == x);
        lemma_random_words_suffix_contains(a, 0, 11, x);
    }
    lemma_random_words_pairs_split(a, "hasDictionaryDef"@);
    lemma_random_words_field_counts(a, "hasDictionaryDef"@);
    lemma_random_words_pairs_split(a, "includePartOfSpeech"@);
    lemma_random_words_field_counts(a, "includePartOfSpeech"@);
    lemma_random_words_pairs_split(a, "excludePartOfSpeech"@);
    lemma_random_words_field_counts(a, "excludePartOfSpeech"@);
    lemma_random_words_pairs_split(a, "minCorpusCount"@);
    lemma_random_words_field_counts(a, "minCorpusCount"@);
    lemma_random_words_pairs_split(a, "maxCorpusCount"@);
    lemma_random_words_field_counts(a, "maxCorpusCount"@);
    lemma_random_words_pairs_split(a, "minDictionaryCount"@);
    lemma_random_words_field_counts(a, "minDictionaryCount"@);
    lemma_random_words_pairs_split(a, "maxDictionaryCount"@);
    lemma_random_words_field_counts(a, "maxDictionaryCount"@);
    lemma_random_words_pairs_split(a, "minLength"@);
    lemma_random_words_field_counts(a, "minLength"@);
    lemma_random_words_pairs_split(a, "maxLength"@);
    lemma_random_words_field_counts(a, "maxLength"@);
    lemma_random_words_pairs_split(a, "sortBy"@);
    lemma_random_words_field_counts(a, "sortBy"@);
    lemma_random_words_pairs_split(a, "sortOrder"@);
    lemma_random_words_field_counts(a, "sortOrder"@);
    lemma_random_words_pairs_split(a, "limit"@);
    lemma_random_words_field_counts(a, "limit"@);
}

} // verus!
