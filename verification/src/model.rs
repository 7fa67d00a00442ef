//! Response records of the dictionary service.
//!
//! The service answers with more properties than these; only the ones the
//! client reads are modelled. Deserialization lives with the transport
//! layer, which fills these records from the response body.

use std::collections::HashMap;
use vstd::prelude::*;

verus! {

#[derive(Clone, Debug)]
pub struct Definition {
    pub part_of_speech: Option<String>,
    pub attribution_url: Option<String>,
    pub attribution_text: Option<String>,
    pub source_dictionary: Option<String>,
    pub text: Option<String>,
    pub labels: Vec<HashMap<String, String>>,
    pub citations: Vec<HashMap<String, String>>,
    pub word: String,
    pub related_words: Vec<String>,
    pub example_uses: Vec<String>,
    pub notes: Vec<String>,
    pub wordnik_url: Option<String>,
}

#[derive(Clone, Debug)]
pub struct Etymology {
    pub etymology: String,
}

#[derive(Clone, Debug)]
pub struct RandomWord {
    pub canonical_form: Option<String>,
    pub id: i32,
    pub original_word: Option<String>,
    pub suggestions: Vec<String>,
    pub vulgar: Option<String>,
    pub word: String,
}

} // verus!
