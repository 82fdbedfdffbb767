//! The intent matcher: scores a transcript against an ordered vocabulary and
//! picks the best label, the earlier one on a tie.

use crate::text_match::{similarity, text_match, Score};
use vstd::prelude::*;
use vstd::string::StringExecFns;

verus! {

/// Bit pattern of the single-precision `0.7`: a best score below it counts as
/// low confidence.
pub const LOW_CONFIDENCE_BITS: u32 = 0x3f33_3333;

/// `index` is the first position that holds the largest of `scores`.
pub open spec fn is_first_maximum(scores: Seq<u32>, index: int) -> bool {
    &&& 0 <= index < scores.len()
    &&& forall|j: int| 0 <= j < scores.len() ==> scores[j] <= scores[index]
    &&& forall|j: int| 0 <= j < index ==> scores[j] < scores[index]
}

/// The position that the matcher selects among `scores`.
pub open spec fn best_index(scores: Seq<u32>) -> int {
    choose|index: int| is_first_maximum(scores, index)
}

/// The bit patterns of a sequence of scores.
pub open spec fn bits_of(scores: Seq<Score>) -> Seq<u32> {
    Seq::new(scores.len(), |i: int| scores[i]@)
}

/// The scores of a transcript against each label of a vocabulary, in the
/// vocabulary's order.
pub open spec fn vocabulary_scores(transcript: Seq<char>, labels: Seq<Seq<char>>) -> Seq<u32> {
    Seq::new(labels.len(), |i: int| similarity(transcript, labels[i]))
}

/// At most one position is the first maximum.
pub proof fn lemma_first_maximum_unique(scores: Seq<u32>, a: int, b: int)
    requires
        is_first_maximum(scores, a),
        is_first_maximum(scores, b),
    ensures
        a == b,
{
    if a < b {
        assert(scores[a] < scores[b]);
        assert(scores[b] <= scores[a]);
    } else if b < a {
        assert(scores[b] < scores[a]);
        assert(scores[a] <= scores[b]);
    }
}

/// The selection is deterministic and total: every non-empty sequence of
/// scores has exactly one selected position, and it lies inside the sequence.
pub proof fn lemma_best_index_exists(scores: Seq<u32>)
    requires
        scores.len() > 0,
    ensures
        is_first_maximum(scores, best_index(scores)),
    decreases scores.len(),
{
    if scores.len() == 1 {
        assert(is_first_maximum(scores, 0));
    } else {
        let front = scores.drop_last();
        lemma_best_index_exists(front);
        let k = best_index(front);
        let last = scores.len() - 1;
        assert forall|j: int| 0 <= j < front.len() implies front[j] == scores[j] by {}
        if scores[last] > scores[k] {
            assert(is_first_maximum(scores, last));
        } else {
            assert(is_first_maximum(scores, k));
        }
    }
}

/// Ties go to the earlier entry: no position before the selected one holds a
/// score as large, and no position at all holds a larger one.
pub proof fn lemma_tie_goes_to_earlier(scores: Seq<u32>, other: int)
    requires
        0 <= other < scores.len(),
    ensures
        scores[other] <= scores[best_index(scores)],
        scores[other] == scores[best_index(scores)] ==> best_index(scores) <= other,
{
    lemma_best_index_exists(scores);
}

/// The position of the best score, the earliest one among equals; `None` for
/// an empty list.
pub fn best_match(scores: &Vec<Score>) -> (best: Option<usize>)
    ensures
        best is None <==> scores@.len() == 0,
        best matches Some(index) ==> is_first_maximum(bits_of(scores@), index as int) && index
            == best_index(bits_of(scores@)),
{
    if scores.len() == 0 {
        return None;
    }
    let ghost bits = bits_of(scores@);
    let mut best: usize = 0;
    let mut i: usize = 1;
    while i < scores.len()
        invariant
            bits == bits_of(scores@),
            0 <= best < i <= scores@.len(),
            forall|j: int| 0 <= j < i ==> bits[j] <= bits[best as int],
            forall|j: int| 0 <= j < best ==> bits[j] < bits[best as int],
        decreases scores@.len() - i,
    {
        if scores[i].to_bits() > scores[best].to_bits() {
            best = i;
        }
        i += 1;
    }
    proof {
        assert(is_first_maximum(bits, best as int));
        lemma_first_maximum_unique(bits, best as int, best_index(bits));
    }
    Some(best)
}

/// An ordered, non-empty list of intent labels. The order is the tie-break
/// priority, and the list never changes once it is made.
#[derive(Debug)]
pub struct Vocabulary {
    labels: Vec<String>,
}

impl View for Vocabulary {
    type V = Seq<Seq<char>>;

    closed spec fn view(&self) -> Seq<Seq<char>> {
        self.labels.deep_view()
    }
}

impl Vocabulary {
    #[verifier::type_invariant]
    spec fn is_nonempty(self) -> bool {
        self.labels@.len() > 0
    }

    /// A vocabulary of the given labels, in their order; `None` when there
    /// are none.
    pub fn new(labels: Vec<String>) -> (vocabulary: Option<Vocabulary>)
        ensures
            vocabulary is Some <==> labels@.len() > 0,
            vocabulary matches Some(v) ==> v@ == labels.deep_view(),
    {
        if labels.len() == 0 {
            None
        } else {
            Some(Vocabulary { labels })
        }
    }

    /// The number of labels, which is never zero.
    pub fn len(&self) -> (len: usize)
        ensures
            len == self@.len(),
            len > 0,
    {
        proof {
            use_type_invariant(self);
        }
        self.labels.len()
    }

    /// The label at `index`, if there is one.
    pub fn label(&self, index: usize) -> (label: Option<&String>)
        ensures
            label is Some <==> index < self@.len(),
            label matches Some(l) ==> l@ == self@[index as int],
    {
        if index < self.labels.len() {
            Some(&self.labels[index])
        } else {
            None
        }
    }
}

/// The vocabulary that the service listens for: `light`, `party`, `call`, in
/// this order of priority.
pub fn default_vocabulary() -> (vocabulary: Vocabulary)
    ensures
        vocabulary@ == seq!["light"@, "party"@, "call"@],
{
    let mut labels: Vec<String> = Vec::new();
    labels.push(String::from_str("light"));
    labels.push(String::from_str("party"));
    labels.push(String::from_str("call"));
    assert(labels.deep_view() =~= seq!["light"@, "party"@, "call"@]);
    Vocabulary { labels }
}

/// The threshold of low confidence that the service uses: `0.7`.
pub fn default_threshold() -> (threshold: Score)
    ensures
        threshold@ == LOW_CONFIDENCE_BITS,
{
    Score::from_bits(LOW_CONFIDENCE_BITS).unwrap()
}

/// The outcome of matching one transcript: the winning label, where it stands
/// in the vocabulary, and its score.
#[derive(Debug)]
pub struct MatchResult {
    pub label: String,
    pub index: usize,
    pub score: Score,
}

impl MatchResult {
    /// Whether the winning score lies below `threshold`. A low score is only
    /// a warning: the label stands.
    pub fn is_low_confidence(&self, threshold: Score) -> (low: bool)
        ensures
            low == (self.score@ < threshold@),
    {
        self.score.to_bits() < threshold.to_bits()
    }
}

/// `result` is the selection among `scores`, one score for each label: the
/// position of the best score, the earliest on a tie, with the label and the
/// score that stand there.
pub open spec fn selects(result: MatchResult, scores: Seq<u32>, labels: Seq<Seq<char>>) -> bool {
    &&& scores.len() == labels.len()
    &&& result.index == best_index(scores)
    &&& 0 <= result.index < labels.len()
    &&& result.label@ == labels[result.index as int]
    &&& result.score@ == scores[result.index as int]
}

/// What the matcher answers for a transcript and the labels of a vocabulary:
/// the selection among the scores of the transcript against each label.
pub open spec fn matches_vocabulary(
    result: MatchResult,
    transcript: Seq<char>,
    labels: Seq<Seq<char>>,
) -> bool {
    selects(result, vocabulary_scores(transcript, labels), labels)
}

/// The matcher is deterministic: two results for the same transcript and the
/// same vocabulary name the same position, the same label and the same score.
pub proof fn lemma_match_is_deterministic(
    a: MatchResult,
    b: MatchResult,
    transcript: Seq<char>,
    labels: Seq<Seq<char>>,
)
    requires
        matches_vocabulary(a, transcript, labels),
        matches_vocabulary(b, transcript, labels),
    ensures
        a.index == b.index,
        a.label@ == b.label@,
        a.score@ == b.score@,
{
}

/// The matcher never makes a label up: what it returns stands in the
/// vocabulary, at the selected position, whatever the scores are.
pub proof fn lemma_label_is_from_vocabulary(
    result: MatchResult,
    scores: Seq<u32>,
    labels: Seq<Seq<char>>,
)
    requires
        selects(result, scores, labels),
    ensures
        labels.contains(result.label@),
{
}

/// Picks the intent from the scores of a transcript against each label of
/// `vocabulary`, in the vocabulary's order: the label with the best score,
/// the earliest on a tie. `None` when there is not one score for each label.
pub fn select_intent(scores: &Vec<Score>, vocabulary: &Vocabulary) -> (result: Option<MatchResult>)
    ensures
        result is Some <==> scores@.len() == vocabulary@.len(),
        result matches Some(r) ==> selects(r, bits_of(scores@), vocabulary@),
{
    if scores.len() != vocabulary.len() {
        return None;
    }
    let index = best_match(scores).unwrap();
    let label = vocabulary.label(index).unwrap().clone();
    Some(MatchResult { label, index, score: scores[index] })
}

/// Scores `transcript` against every label of `vocabulary`, in order, and
/// returns the label with the best score; of several with the best score, the
/// earliest. The label is always one of the vocabulary, whatever the scores.
pub fn match_intent(transcript: &str, vocabulary: &Vocabulary) -> (result: MatchResult)
    ensures
        matches_vocabulary(result, transcript@, vocabulary@),
{
    let count = vocabulary.len();
    let mut scores: Vec<Score> = Vec::new();
    let mut i: usize = 0;
    while i < count
        invariant
            count == vocabulary@.len(),
            0 <= i <= count,
            scores@.len() == i,
            forall|j: int|
                0 <= j < i ==> (#[trigger] scores@[j])@ == similarity(transcript@, vocabulary@[j]),
        decreases count - i,
    {
        let label = vocabulary.label(i).unwrap();
        let score = text_match(transcript.to_owned(), label.clone());
        scores.push(score);
        i += 1;
    }
    assert(bits_of(scores@) =~= vocabulary_scores(transcript@, vocabulary@));
    select_intent(&scores, vocabulary).unwrap()
}

} // verus!
