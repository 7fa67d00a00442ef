//! The parameter bundle of the single-word definitions lookup.

use vstd::prelude::*;

use super::{Args, PairIter, PartOfSpeech, SourceDictionaries, format_bool, format_csv, spec_tags};
use crate::wire::{
    format_u32, lemma_pair_contains_concat, lemma_pair_count_add, lemma_pair_count_opt, opt_pair,
    pair_count, spec_bool_text, spec_csv, spec_query, spec_udec,
};

verus! {

/// Result-limit default fixed by the API contract.
pub const DEFAULT_LIMIT: u32 = 200;

/// How many fields a definitions bundle declares.
pub const FIELD_COUNT: usize = 6;

pub struct DefinitionsArgs {
    pub limit: u32,
    pub part_of_speech: Vec<PartOfSpeech>,
    pub include_related: bool,
    pub source_dictionaries: Vec<SourceDictionaries>,
    pub use_canonical: bool,
    pub include_tags: bool,
}

impl DefinitionsArgs {
    /// Whether every field still holds its API-defined default.
    pub open spec fn spec_is_default(self) -> bool {
        &&& self.limit == DEFAULT_LIMIT
        &&& self.part_of_speech@.len() == 0
        &&& self.include_related == false
        &&& self.source_dictionaries@.len() == 0
        &&& self.use_canonical == false
        &&& self.include_tags == false
    }

    /// The pair emitted for the field at position `i` of the declared
    /// order, or nothing when that field holds its default.
    pub open spec fn spec_field_pair(self, i: int) -> Seq<(Seq<char>, Seq<char>)> {
        if i == 0 {
            opt_pair(self.limit != DEFAULT_LIMIT, "limit"@, spec_udec(self.limit as nat))
        } else if i == 1 {
            opt_pair(
                self.part_of_speech@.len() != 0,
                "partOfSpeech"@,
                spec_csv(spec_tags(self.part_of_speech@)),
            )
        } else if i == 2 {
            opt_pair(self.include_related, "includeRelated"@, spec_bool_text(self.include_related))
        } else if i == 3 {
            opt_pair(
                self.source_dictionaries@.len() != 0,
                "sourceDictionaries"@,
                spec_csv(spec_tags(self.source_dictionaries@)),
            )
        } else if i == 4 {
            opt_pair(self.use_canonical, "useCanonical"@, spec_bool_text(self.use_canonical))
        } else if i == 5 {
            opt_pair(self.include_tags, "includeTags"@, spec_bool_text(self.include_tags))
        } else {
            Seq::empty()
        }
    }

    /// The pairs emitted by the fields at positions `i` and later, in
    /// declared order.
    pub open spec fn spec_pairs_from(self, i: int) -> Seq<(Seq<char>, Seq<char>)>
        decreases FIELD_COUNT - i,
    {
        if 0 <= i < FIELD_COUNT {
            self.spec_field_pair(i) + self.spec_pairs_from(i + 1)
        } else {
            Seq::empty()
        }
    }

    /// All pairs this bundle emits, in declared field order.
    pub open spec fn spec_pairs(self) -> Seq<(Seq<char>, Seq<char>)> {
        self.spec_pairs_from(0)
    }

    /// Fresh bundle with every field at its API-defined default.
    pub fn new() -> (r: Self)
        ensures
            r.spec_is_default(),
    {
        Self {
            limit: DEFAULT_LIMIT,
            part_of_speech: Vec::new(),
            include_related: false,
            source_dictionaries: Vec::new(),
            use_canonical: false,
            include_tags: false,
        }
    }
}

impl Default for DefinitionsArgs {
    fn default() -> (r: Self)
        ensures
            r.spec_is_default(),
    {
        Self::new()
    }
}

/// Traversal over a definitions bundle's non-default fields: one
/// discriminated step per field, in declared order.
pub struct DefinitionsArgsIter<'a> {
    args: &'a DefinitionsArgs,
    idx: usize,
}

impl<'a> PairIter for DefinitionsArgsIter<'a> {
    closed spec fn spec_remaining(&self) -> Seq<(Seq<char>, Seq<char>)> {
        self.args.spec_pairs_from(self.idx as int)
    }

    fn next(&mut self) -> (r: Option<(&'static str, String)>) {
        // Each call returns the pair of the first non-default field at or
        // past `idx`, advancing past every suppressed field on the way.
        loop
            invariant
                self.args == old(self).args,
                self.spec_remaining() == old(self).spec_remaining(),
            decreases FIELD_COUNT - self.idx,
        {
            let ghost k: int = self.idx as int;
            if self.idx == 0 {
                self.idx = self.idx + 1;
                if self.args.limit != DEFAULT_LIMIT {
                    let v = format_u32(self.args.limit);
                    proof {
                        assert(self.args.spec_pairs_from(k) == self.args.spec_field_pair(k)
                            + self.args.spec_pairs_from(k + 1));
                        assert(self.args.spec_field_pair(k) =~= seq![("limit"@, v@)]);
                    }
                    return Some(("limit", v));
                }
                proof {
                    assert(self.args.spec_pairs_from(k) == self.args.spec_field_pair(k)
                        + self.args.spec_pairs_from(k + 1));
                    assert(self.args.spec_pairs_from(k) =~= self.args.spec_pairs_from(k + 1));
                }
            } else if self.idx == 1 {
                self.idx = self.idx + 1;
                if self.args.part_of_speech.len() != 0 {
                    let v = format_csv(self.args.part_of_speech.as_slice());
                    proof {
                        assert(self.args.spec_pairs_from(k) == self.args.spec_field_pair(k)
                            + self.args.spec_pairs_from(k + 1));
                        assert(self.args.spec_field_pair(k) =~= seq![("partOfSpeech"@, v@)]);
                    }
                    return Some(("partOfSpeech", v));
                }
                proof {
                    assert(self.args.spec_pairs_from(k) == self.args.spec_field_pair(k)
                        + self.args.spec_pairs_from(k + 1));
                    assert(self.args.spec_pairs_from(k) =~= self.args.spec_pairs_from(k + 1));
                }
            } else if self.idx == 2 {
                self.idx = self.idx + 1;
                if self.args.include_related {
                    let v = format_bool(self.args.include_related);
                    proof {
                        assert(self.args.spec_pairs_from(k) == self.args.spec_field_pair(k)
                            + self.args.spec_pairs_from(k + 1));
                        assert(self.args.spec_field_pair(k) =~= seq![("includeRelated"@, v@)]);
                    }
                    return Some(("includeRelated", v));
                }
                proof {
                    assert(self.args.spec_pairs_from(k) == self.args.spec_field_pair(k)
                        + self.args.spec_pairs_from(k + 1));
                    assert(self.args.spec_pairs_from(k) =~= self.args.spec_pairs_from(k + 1));
                }
            } else if self.idx == 3 {
                self.idx = self.idx + 1;
                if self.args.source_dictionaries.len() != 0 {
                    let v = format_csv(self.args.source_dictionaries.as_slice());
                    proof {
                        assert(self.args.spec_pairs_from(k) == self.args.spec_field_pair(k)
                            + self.args.spec_pairs_from(k + 1));
                        assert(self.args.spec_field_pair(k) =~= seq![("sourceDictionaries"@, v@)]);
                    }
                    return Some(("sourceDictionaries", v));
                }
                proof {
                    assert(self.args.spec_pairs_from(k) == self.args.spec_field_pair(k)
                        + self.args.spec_pairs_from(k + 1));
                    assert(self.args.spec_pairs_from(k) =~= self.args.spec_pairs_from(k + 1));
                }
            } else if self.idx == 4 {
                self.idx = self.idx + 1;
                if self.args.use_canonical {
                    let v = format_bool(self.args.use_canonical);
                    proof {
                        assert(self.args.spec_pairs_from(k) == self.args.spec_field_pair(k)
                            + self.args.spec_pairs_from(k + 1));
                        assert(self.args.spec_field_pair(k) =~= seq![("useCanonical"@, v@)]);
                    }
                    return Some(("useCanonical", v));
                }
                proof {
                    assert(self.args.spec_pairs_from(k) == self.args.spec_field_pair(k)
                        + self.args.spec_pairs_from(k + 1));
                    assert(self.args.spec_pairs_from(k) =~= self.args.spec_pairs_from(k + 1));
                }
            } else if self.idx == 5 {
                self.idx = self.idx + 1;
                if self.args.include_tags {
                    let v = format_bool(self.args.include_tags);
                    proof {
                        assert(self.args.spec_pairs_from(k) == self.args.spec_field_pair(k)
                            + self.args.spec_pairs_from(k + 1));
                        assert(self.args.spec_field_pair(k) =~= seq![("includeTags"@, v@)]);
                    }
                    return Some(("includeTags", v));
                }
                proof {
                    assert(self.args.spec_pairs_from(k) == self.args.spec_field_pair(k)
                        + self.args.spec_pairs_from(k + 1));
                    assert(self.args.spec_pairs_from(k) =~= self.args.spec_pairs_from(k + 1));
                }
            } else {
                return None;
            }
        }
    }
}

impl<'a> Args<'a> for DefinitionsArgs {
    type KeyValuePairs = DefinitionsArgsIter<'a>;

    open spec fn spec_pairs(&self) -> Seq<(Seq<char>, Seq<char>)> {
        DefinitionsArgs::spec_pairs_from(*self, 0)
    }

    fn args(&'a self) -> (it: DefinitionsArgsIter<'a>) {
        let it = DefinitionsArgsIter { args: self, idx: 0 };
        proof {
            assert(it.spec_remaining() == (*self).spec_pairs_from(0));
        }
        it
    }
}

/// Position of a wire name in the definitions bundle's declared field
/// order; names the bundle never emits rank past the last field.
pub open spec fn spec_definitions_rank(name: Seq<char>) -> int {
    if name == "limit"@ {
        0
    } else if name == "partOfSpeech"@ {
        1
    } else if name == "includeRelated"@ {
        2
    } else if name == "sourceDictionaries"@ {
        3
    } else if name == "useCanonical"@ {
        4
    } else if name == "includeTags"@ {
        5
    } else {
        6
    }
}

/// The pairs emitted from position `k` on carry names of rank at least
/// `k`, in strictly increasing rank order.
proof fn lemma_definitions_sorted_from(a: DefinitionsArgs, k: int)
    requires
        0 <= k <= 6,
    ensures
        forall|i: int|
            0 <= i < a.spec_pairs_from(k).len() ==> spec_definitions_rank(
                #[trigger] a.spec_pairs_from(k)[i].0,
            ) >= k,
        forall|i: int, j: int|
            0 <= i < j < a.spec_pairs_from(k).len() ==> spec_definitions_rank(
                #[trigger] a.spec_pairs_from(k)[i].0,
            ) < spec_definitions_rank(#[trigger] a.spec_pairs_from(k)[j].0),
    decreases 6 - k,
{
    lemma_definitions_names_distinct();
    if k < 6 {
        lemma_definitions_sorted_from(a, k + 1);
        let f = a.spec_field_pair(k);
        let rest = a.spec_pairs_from(k + 1);
        let whole = a.spec_pairs_from(k);
        assert(whole == f + rest);
        assert(f.len() <= 1);
        assert(f.len() == 1 ==> spec_definitions_rank(f[0].0) == k);
        assert forall|i: int| 0 <= i < whole.len() implies spec_definitions_rank(
            #[trigger] whole[i].0,
        ) >= k by {
            if i < f.len() {
                assert(whole[i] == f[i]);
            } else {
                assert(whole[i] == rest[i - f.len()]);
            }
        }
        assert forall|i: int, j: int| 0 <= i < j < whole.len() implies spec_definitions_rank(
            #[trigger] whole[i].0,
        ) < spec_definitions_rank(#[trigger] whole[j].0) by {
            assert(whole[j] == rest[j - f.len()]);
            if i < f.len() {
                assert(whole[i] == f[i]);
            } else {
                assert(whole[i] == rest[i - f.len()]);
            }
        }
    }
}

/// Emission order is the bundle's declared field order: along the emitted
/// pairs, the names' declared positions strictly increase, whatever order
/// the caller set the fields in.
pub proof fn lemma_definitions_pairs_ordered(a: DefinitionsArgs)
    ensures
        forall|i: int, j: int|
            0 <= i < j < a.spec_pairs().len() ==> spec_definitions_rank(
                #[trigger] a.spec_pairs()[i].0,
            ) < spec_definitions_rank(#[trigger] a.spec_pairs()[j].0),
{
    lemma_definitions_sorted_from(a, 0);
}

/// A fully default definitions bundle emits no pairs, so it encodes to the
/// empty fragment.
pub proof fn lemma_definitions_default_encodes_empty(a: DefinitionsArgs)
    requires
        a.spec_is_default(),
    ensures
        a.spec_pairs() == Seq::<(Seq<char>, Seq<char>)>::empty(),
        spec_query(a.spec_pairs()) == Seq::<char>::empty(),
{
    assert(a.spec_pairs_from(6) =~= Seq::<(Seq<char>, Seq<char>)>::empty());
    assert(a.spec_pairs_from(5) =~= Seq::<(Seq<char>, Seq<char>)>::empty());
    assert(a.spec_pairs_from(4) =~= Seq::<(Seq<char>, Seq<char>)>::empty());
    assert(a.spec_pairs_from(3) =~= Seq::<(Seq<char>, Seq<char>)>::empty());
    assert(a.spec_pairs_from(2) =~= Seq::<(Seq<char>, Seq<char>)>::empty());
    assert(a.spec_pairs_from(1) =~= Seq::<(Seq<char>, Seq<char>)>::empty());
    assert(a.spec_pairs_from(0) =~= Seq::<(Seq<char>, Seq<char>)>::empty());
    assert(a.spec_pairs().map(
        |i: int, p: (Seq<char>, Seq<char>)| crate::wire::spec_pair_text(p),
    ) =~= Seq::<Seq<char>>::empty());
}

/// The emitted pairs split by field: each field contributes its own
/// conditional pair, in declared order.
proof fn lemma_definitions_pairs_split(a: DefinitionsArgs, n: Seq<char>)
    ensures
        pair_count(a.spec_pairs(), n) == pair_count(a.spec_field_pair(0), n) + pair_count(
            a.spec_field_pair(1),
            n,
        ) + pair_count(a.spec_field_pair(2), n) + pair_count(a.spec_field_pair(3), n) + pair_count(
            a.spec_field_pair(4),
            n,
        ) + pair_count(a.spec_field_pair(5), n),
{
    assert(a.spec_pairs_from(6) =~= Seq::<(Seq<char>, Seq<char>)>::empty());
    assert(pair_count(a.spec_pairs_from(6), n) == 0);
    assert(a.spec_pairs_from(5) == a.spec_field_pair(5) + a.spec_pairs_from(6));
    lemma_pair_count_add(a.spec_field_pair(5), a.spec_pairs_from(6), n);
    assert(a.spec_pairs_from(4) == a.spec_field_pair(4) + a.spec_pairs_from(5));
    lemma_pair_count_add(a.spec_field_pair(4), a.spec_pairs_from(5), n);
    assert(a.spec_pairs_from(3) == a.spec_field_pair(3) + a.spec_pairs_from(4));
    lemma_pair_count_add(a.spec_field_pair(3), a.spec_pairs_from(4), n);
    assert(a.spec_pairs_from(2) == a.spec_field_pair(2) + a.spec_pairs_from(3));
    lemma_pair_count_add(a.spec_field_pair(2), a.spec_pairs_from(3), n);
    assert(a.spec_pairs_from(1) == a.spec_field_pair(1) + a.spec_pairs_from(2));
    lemma_pair_count_add(a.spec_field_pair(1), a.spec_pairs_from(2), n);
    assert(a.spec_pairs_from(0) == a.spec_field_pair(0) + a.spec_pairs_from(1));
    lemma_pair_count_add(a.spec_field_pair(0), a.spec_pairs_from(1), n);
}

/// Applies the conditional-pair count rule to every field of the bundle
/// for one sought name.
proof fn lemma_definitions_field_counts(a: DefinitionsArgs, n: Seq<char>)
    ensures
        pair_count(a.spec_field_pair(0), n) == (if a.limit != DEFAULT_LIMIT && "limit"@ == n {
            1nat
        } else {
            0nat
        }),
        pair_count(a.spec_field_pair(1), n) == (if a.part_of_speech@.len() != 0
            && "partOfSpeech"@ == n {
            1nat
        } else {
            0nat
        }),
        pair_count(a.spec_field_pair(2), n) == (if a.include_related && "includeRelated"@ == n {
            1nat
        } else {
            0nat
        }),
        pair_count(a.spec_field_pair(3), n) == (if a.source_dictionaries@.len() != 0
            && "sourceDictionaries"@ == n {
            1nat
        } else {
            0nat
        }),
        pair_count(a.spec_field_pair(4), n) == (if a.use_canonical && "useCanonical"@ == n {
            1nat
        } else {
            0nat
        }),
        pair_count(a.spec_field_pair(5), n) == (if a.include_tags && "includeTags"@ == n {
            1nat
        } else {
            0nat
        }),
{
    lemma_pair_count_opt(a.limit != DEFAULT_LIMIT, "limit"@, spec_udec(a.limit as nat), n);
    lemma_pair_count_opt(
        a.part_of_speech@.len() != 0,
        "partOfSpeech"@,
        spec_csv(spec_tags(a.part_of_speech@)),
        n,
    );
    lemma_pair_count_opt(
        a.include_related,
        "includeRelated"@,
        spec_bool_text(a.include_related),
        n,
    );
    lemma_pair_count_opt(
        a.source_dictionaries@.len() != 0,
        "sourceDictionaries"@,
        spec_csv(spec_tags(a.source_dictionaries@)),
        n,
    );
    lemma_pair_count_opt(a.use_canonical, "useCanonical"@, spec_bool_text(a.use_canonical), n);
    lemma_pair_count_opt(a.include_tags, "includeTags"@, spec_bool_text(a.include_tags), n);
}

/// Reveals every wire name of the definitions bundle and records that
/// they are pairwise distinct.
proof fn lemma_definitions_names_distinct()
    ensures
        "limit"@.len() == 5,
        "partOfSpeech"@.len() == 12,
        "includeRelated"@.len() == 14,
        "sourceDictionaries"@.len() == 18,
        "useCanonical"@.len() == 12,
        "includeTags"@.len() == 11,
        "partOfSpeech"@ != "useCanonical"@,
{
    reveal_strlit("limit");
    reveal_strlit("partOfSpeech");
    reveal_strlit("includeRelated");
    reveal_strlit("sourceDictionaries");
    reveal_strlit("useCanonical");
    reveal_strlit("includeTags");
    assert("partOfSpeech"@[0] != "useCanonical"@[0]);
}

/// A pair held by the field at position `k` is held by the whole emitted
/// sequence.
proof fn lemma_definitions_suffix_contains(
    a: DefinitionsArgs,
    j: int,
    k: int,
    x: (Seq<char>, Seq<char>),
)
    requires
        0 <= j <= k < 6,
        a.spec_field_pair(k).contains(x),
    ensures
        a.spec_pairs_from(j).contains(x),
    decreases k - j,
{
    if j == k {
        assert(a.spec_pairs_from(k) == a.spec_field_pair(k) + a.spec_pairs_from(k + 1));
        lemma_pair_contains_concat(a.spec_field_pair(k), a.spec_pairs_from(k + 1), x);
    } else {
        lemma_definitions_suffix_contains(a, j + 1, k, x);
        assert(a.spec_pairs_from(j) == a.spec_field_pair(j) + a.spec_pairs_from(j + 1));
        lemma_pair_contains_concat(a.spec_field_pair(j), a.spec_pairs_from(j + 1), x);
    }
}

/// Each field's wire name appears in the emitted pairs exactly once when
/// the field differs from its default, and not at all otherwise, carrying
/// the value its field type's formatting rule gives; a list field set back
/// to empty is suppressed like one never touched.
pub proof fn lemma_definitions_fields_emitted_once(a: DefinitionsArgs)
    ensures
        pair_count(a.spec_pairs(), "limit"@) == (if a.limit != DEFAULT_LIMIT {
            1nat
        } else {
            0nat
        }),
        pair_count(a.spec_pairs(), "partOfSpeech"@) == (if a.part_of_speech@.len() != 0 {
            1nat
        } else {
            0nat
        }),
        pair_count(a.spec_pairs(), "includeRelated"@) == (if a.include_related {
            1nat
        } else {
            0nat
        }),
        pair_count(a.spec_pairs(), "sourceDictionaries"@) == (if a.source_dictionaries@.len() != 0 {
            1nat
        } else {
            0nat
        }),
        pair_count(a.spec_pairs(), "useCanonical"@) == (if a.use_canonical {
            1nat
        } else {
            0nat
        }),
        pair_count(a.spec_pairs(), "includeTags"@) == (if a.include_tags {
            1nat
        } else {
            0nat
        }),
        a.limit != DEFAULT_LIMIT ==> a.spec_pairs().contains(
            ("limit"@, spec_udec(a.limit as nat)),
        ),
        a.part_of_speech@.len() != 0 ==> a.spec_pairs().contains(
            ("partOfSpeech"@, spec_csv(spec_tags(a.part_of_speech@))),
        ),
        a.include_related ==> a.spec_pairs().contains(("includeRelated"@, spec_bool_text(true))),
        a.source_dictionaries@.len() != 0 ==> a.spec_pairs().contains(
            ("sourceDictionaries"@, spec_csv(spec_tags(a.source_dictionaries@))),
        ),
        a.use_canonical ==> a.spec_pairs().contains(("useCanonical"@, spec_bool_text(true))),
        a.include_tags ==> a.spec_pairs().contains(("includeTags"@, spec_bool_text(true))),
{
    lemma_definitions_names_distinct();
    if a.limit != DEFAULT_LIMIT {
        let x = ("limit"@, spec_udec(a.limit as nat));
        assert(a.spec_field_pair(0)[0] == x);
        lemma_definitions_suffix_contains(a, 0, 0, x);
    }
    if a.part_of_speech@.len() != 0 {
        let x = ("partOfSpeech"@, spec_csv(spec_tags(a.part_of_speech@)));
        assert(a.spec_field_pair(1)[0] == x);
        lemma_definitions_suffix_contains(a, 0, 1, x);
    }
    if a.include_related {
        let x = ("includeRelated"@, spec_bool_text(true));
        assert(a.spec_field_pair(2)[0] == x);
        lemma_definitions_suffix_contains(a, 0, 2, x);
    }
    if a.source_dictionaries@.len() != 0 {
        let x = ("sourceDictionaries"@, spec_csv(spec_tags(a.source_dictionaries@)));
        assert(a.spec_field_pair(3)[0] == x);
        lemma_definitions_suffix_contains(a, 0, 3, x);
    }
    if a.use_canonical {
        let x = ("useCanonical"@, spec_bool_text(true));
        assert(a.spec_field_pair(4)[0] == x);
        lemma_definitions_suffix_contains(a, 0, 4, x);
    }
    if a.include_tags {
        let x = ("includeTags"@, spec_bool_text(true));
        assert(a.spec_field_pair(5)[0] == x);
        lemma_definitions_suffix_contains(a, 0, 5, x);
    }
    lemma_definitions_pairs_split(a, "limit"@);
    lemma_definitions_field_counts(a, "limit"@);
    lemma_definitions_pairs_split(a, "partOfSpeech"@);
    lemma_definitions_field_counts(a, "partOfSpeech"@);
    lemma_definitions_pairs_split(a, "includeRelated"@);
    lemma_definitions_field_counts(a, "includeRelated"@);
    lemma_definitions_pairs_split(a, "sourceDictionaries"@);
    lemma_definitions_field_counts(a, "sourceDictionaries"@);
    lemma_definitions_pairs_split(a, "useCanonical"@);
    lemma_definitions_field_counts(a, "useCanonical"@);
    lemma_definitions_pairs_split(a, "includeTags"@);
    lemma_definitions_field_counts(a, "includeTags"@);
}

} // verus!
