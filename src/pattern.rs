//! Token patterns: the token shapes a line must have, with the bit template
//! and field map that encode it.
use vstd::prelude::*;
use crate::encoding::Encoding;
use crate::template::BitRunLengthCoding;
use crate::token::AmbiguousToken;

verus! {

/// A pattern as a value.
pub struct PatternModel {
    pub expected: Seq<AmbiguousToken>,
    pub runs: Seq<(char, usize)>,
    pub fields: Seq<(char, usize)>,
}

/// A row of the pattern table.
#[derive(Debug, Clone, PartialEq, Eq)]
pub struct TokenPattern {
    pub expected_tokens: Vec<AmbiguousToken>,
    pub bit_pattern: BitRunLengthCoding,
    pub encoding: Encoding,
}

impl View for TokenPattern {
    type V = PatternModel;

    open spec fn view(&self) -> PatternModel {
        PatternModel { expected: self.expected_tokens@, runs: self.bit_pattern@, fields: self.encoding@ }
    }
}

impl TokenPattern {
    /// Whether the shapes `tokens` are exactly those the pattern expects.
    pub fn matches(&self, tokens: &[AmbiguousToken]) -> (r: bool)
        ensures
            r == (tokens@ == self.expected_tokens@),
    {
        if tokens.len() != self.expected_tokens.len() {
            return false;
        }
        let mut i: usize = 0;
        while i < tokens.len()
            invariant
                i <= tokens@.len(),
                tokens@.len() == self.expected_tokens@.len(),
                forall|j: int| 0 <= j < i ==> tokens@[j] == self.expected_tokens@[j],
            decreases tokens@.len() - i,
        {
            if tokens[i] != self.expected_tokens[i] {
                return false;
            }
            i = i + 1;
        }
        proof {
            assert(tokens@ =~= self.expected_tokens@);
        }
        true
    }
}

} // verus!
