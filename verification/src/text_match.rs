//! Similarity scores between a transcript and a candidate label.

use vstd::prelude::*;

verus! {

/// Bit pattern of positive infinity in IEEE-754 single precision. Every
/// non-negative single that is not NaN has a bit pattern at or below it, and
/// on that range the order of the bit patterns is the order of the numbers.
pub const MAX_SCORE_BITS: u32 = 0x7f80_0000;

/// Bit pattern of `1.0` in IEEE-754 single precision.
pub const FULL_SCORE_BITS: u32 = 0x3f80_0000;

/// A similarity score, held as the bit pattern of a non-negative IEEE-754
/// single that is not NaN. Two scores compare as their bit patterns do.
#[derive(Clone, Copy, Debug)]
pub struct Score {
    bits: u32,
}

impl View for Score {
    type V = u32;

    closed spec fn view(&self) -> u32 {
        self.bits
    }
}

/// The score that a ratio with the given bit pattern stands for. A ratio that
/// is negative or not a number counts as no similarity at all: the matcher
/// starts from zero and never prefers such a ratio to it.
pub open spec fn score_bits(ratio: u32) -> u32 {
    if ratio <= MAX_SCORE_BITS {
        ratio
    } else {
        0
    }
}

impl Score {
    #[verifier::type_invariant]
    spec fn in_range(self) -> bool {
        self.bits <= MAX_SCORE_BITS
    }

    /// The score with the given bit pattern, unless the pattern has its sign
    /// bit set or is NaN.
    pub fn from_bits(bits: u32) -> (score: Option<Score>)
        ensures
            score is Some <==> bits <= MAX_SCORE_BITS,
            score matches Some(s) ==> s@ == bits,
    {
        if bits <= MAX_SCORE_BITS {
            Some(Score { bits })
        } else {
            None
        }
    }

    /// The score that a ratio with the given bit pattern stands for.
    pub fn from_ratio(ratio: u32) -> (score: Score)
        ensures
            score@ == score_bits(ratio),
    {
        if ratio <= MAX_SCORE_BITS {
            Score { bits: ratio }
        } else {
            Score { bits: 0 }
        }
    }

    /// The bit pattern of the score.
    pub fn to_bits(&self) -> (bits: u32)
        ensures
            bits == self@,
            bits <= MAX_SCORE_BITS,
    {
        proof {
            use_type_invariant(self);
        }
        self.bits
    }
}

/// What `fuzzy_match_flex::partial_ratio` returns for two strings when it is
/// left to clean them itself, as the bit pattern of the single it returns.
pub uninterp spec fn partial_ratio_bits(str1: Seq<char>, str2: Seq<char>) -> u32;

/// Calls `fuzzy_match_flex::partial_ratio` with cleaning left on, and gives
/// the bit pattern of what it returns. The crate computes the ratio from the
/// two strings and nothing else, so the same strings always give the same
/// ratio; that is all that is claimed of it.
#[verifier::external_body]
fn partial_ratio(str1: &str, str2: &str) -> (bits: u32)
    ensures
        bits == partial_ratio_bits(str1@, str2@),
{
    fuzzy_match_flex::partial_ratio(str1, str2, None).to_bits()
}

/// The score of `str1` against `str2`.
pub open spec fn similarity(str1: Seq<char>, str2: Seq<char>) -> u32 {
    score_bits(partial_ratio_bits(str1, str2))
}

/// Similarity of two strings: how well the shorter one matches the best word
/// of the longer one.
pub fn text_match(str1: String, str2: String) -> (ratio: Score)
    ensures
        ratio@ == similarity(str1@, str2@),
{
    Score::from_ratio(partial_ratio(str1.as_str(), str2.as_str()))
}

} // verus!
