use voice_intent::intent::{
    best_match, default_threshold, default_vocabulary, match_intent, select_intent, MatchResult,
    Vocabulary, LOW_CONFIDENCE_BITS,
};
use voice_intent::text_match::Score;

fn score(value: f32) -> Score {
    Score::from_bits(value.to_bits()).unwrap()
}

fn scores(values: &[f32]) -> Vec<Score> {
    values.iter().map(|v| score(*v)).collect()
}

fn vocabulary(labels: &[&str]) -> Vocabulary {
    Vocabulary::new(labels.iter().map(|l| l.to_string()).collect()).unwrap()
}

#[test]
fn best_match_of_nothing_is_none() {
    assert_eq!(best_match(&Vec::new()), None);
}

#[test]
fn best_match_picks_the_largest_score() {
    assert_eq!(best_match(&scores(&[0.2, 0.9, 0.4])), Some(1));
    assert_eq!(best_match(&scores(&[0.2, 0.3, 0.4])), Some(2));
    assert_eq!(best_match(&scores(&[0.5])), Some(0));
}

#[test]
fn best_match_gives_a_tie_to_the_earlier_entry() {
    assert_eq!(best_match(&scores(&[0.8, 0.8, 0.1])), Some(0));
    assert_eq!(best_match(&scores(&[0.1, 0.8, 0.8])), Some(1));
    assert_eq!(best_match(&scores(&[1.0, 1.0, 1.0])), Some(0));
}

#[test]
fn best_match_of_all_zero_scores_is_the_first_entry() {
    assert_eq!(best_match(&scores(&[0.0, 0.0, 0.0])), Some(0));
}

#[test]
fn vocabulary_cannot_be_empty() {
    assert!(Vocabulary::new(Vec::new()).is_none());
    assert!(Vocabulary::new(vec![String::from("light")]).is_some());
}

#[test]
fn vocabulary_keeps_its_labels_in_order() {
    let v = vocabulary(&["light", "party", "call"]);
    assert_eq!(v.len(), 3);
    assert_eq!(v.label(0).unwrap(), "light");
    assert_eq!(v.label(1).unwrap(), "party");
    assert_eq!(v.label(2).unwrap(), "call");
    assert!(v.label(3).is_none());
}

#[test]
fn default_vocabulary_is_light_party_call() {
    let v = default_vocabulary();
    assert_eq!(v.len(), 3);
    assert_eq!(v.label(0).unwrap(), "light");
    assert_eq!(v.label(1).unwrap(), "party");
    assert_eq!(v.label(2).unwrap(), "call");
}

#[test]
fn default_threshold_is_seven_tenths() {
    assert_eq!(default_threshold().to_bits(), 0.7f32.to_bits());
    assert_eq!(LOW_CONFIDENCE_BITS, 0.7f32.to_bits());
}

#[test]
fn match_finds_the_light_in_a_sentence() {
    let v = vocabulary(&["light", "party", "call"]);
    let result = match_intent("turn on the light please", &v);
    assert_eq!(result.label, "light");
    assert_eq!(result.index, 0);
    assert!(f32::from_bits(result.score.to_bits()) >= 0.7);
    assert_eq!(f32::from_bits(result.score.to_bits()), 1.0);
    assert!(!result.is_low_confidence(default_threshold()));
}

#[test]
fn match_of_an_empty_transcript_is_a_label_of_low_confidence() {
    let v = vocabulary(&["light", "party", "call"]);
    let result = match_intent("", &v);
    assert_eq!(result.label, "light");
    assert_eq!(result.index, 0);
    assert!(f32::from_bits(result.score.to_bits()) < 0.7);
    assert!(result.is_low_confidence(default_threshold()));
}

#[test]
fn match_picks_a_later_label_when_it_scores_best() {
    let v = vocabulary(&["light", "party", "call"]);
    let result = match_intent("let us have a party tonight", &v);
    assert_eq!(result.label, "party");
    assert_eq!(result.index, 1);
    let result = match_intent("please call home", &v);
    assert_eq!(result.label, "call");
    assert_eq!(result.index, 2);
}

#[test]
fn match_gives_a_tie_to_the_earlier_label() {
    let v = vocabulary(&["party", "light", "call"]);
    let result = match_intent("light party call", &v);
    assert_eq!(result.label, "party");
    assert_eq!(result.index, 0);
    let v = vocabulary(&["call", "party", "light"]);
    let result = match_intent("light party call", &v);
    assert_eq!(result.label, "call");
    assert_eq!(result.index, 0);
}

#[test]
fn match_is_the_same_on_every_call() {
    let v = vocabulary(&["light", "party", "call"]);
    let transcripts = ["", "light", "a party", "call me maybe", "nothing of the kind", "Light!"];
    for t in transcripts {
        let first = match_intent(t, &v);
        let second = match_intent(t, &v);
        assert_eq!(first.label, second.label);
        assert_eq!(first.index, second.index);
        assert_eq!(first.score.to_bits(), second.score.to_bits());
    }
}

#[test]
fn match_always_answers_with_a_label_of_the_vocabulary() {
    let labels = ["light", "party", "call"];
    let v = vocabulary(&labels);
    let transcripts = ["", " ", "xyzzy", "turn it off", "12345", "PARTY", "l", "?!"];
    for t in transcripts {
        let result = match_intent(t, &v);
        assert!(result.index < labels.len());
        assert_eq!(result.label, labels[result.index]);
    }
}

#[test]
fn low_confidence_is_strictly_below_the_threshold() {
    let at = MatchResult { label: String::from("light"), index: 0, score: score(0.7) };
    assert!(!at.is_low_confidence(default_threshold()));
    let below = MatchResult {
        label: String::from("light"),
        index: 0,
        score: Score::from_bits(LOW_CONFIDENCE_BITS - 1).unwrap(),
    };
    assert!(below.is_low_confidence(default_threshold()));
    let above = MatchResult { label: String::from("light"), index: 0, score: score(0.95) };
    assert!(!above.is_low_confidence(default_threshold()));
    assert!(above.is_low_confidence(score(0.96)));
}

#[test]
fn select_picks_the_label_of_the_best_score() {
    let v = vocabulary(&["light", "party", "call"]);
    let result = select_intent(&scores(&[0.25, 0.5, 0.75]), &v).unwrap();
    assert_eq!(result.label, "call");
    assert_eq!(result.index, 2);
    assert_eq!(result.score.to_bits(), 0.75f32.to_bits());
    let result = select_intent(&scores(&[0.25, 0.9, 0.75]), &v).unwrap();
    assert_eq!(result.label, "party");
    assert_eq!(result.index, 1);
    assert_eq!(result.score.to_bits(), 0.9f32.to_bits());
}

#[test]
fn select_gives_a_tie_to_the_earlier_label() {
    let v = vocabulary(&["light", "party", "call"]);
    let result = select_intent(&scores(&[0.5, 0.9, 0.9]), &v).unwrap();
    assert_eq!(result.label, "party");
    assert_eq!(result.index, 1);
    let result = select_intent(&scores(&[0.0, 0.0, 0.0]), &v).unwrap();
    assert_eq!(result.label, "light");
    assert_eq!(result.index, 0);
    assert_eq!(result.score.to_bits(), 0);
    assert!(result.is_low_confidence(default_threshold()));
}

#[test]
fn select_wants_one_score_for_each_label() {
    let v = vocabulary(&["light", "party", "call"]);
    assert!(select_intent(&scores(&[0.5, 0.9]), &v).is_none());
    assert!(select_intent(&scores(&[0.5, 0.9, 0.1, 0.2]), &v).is_none());
    assert!(select_intent(&Vec::new(), &v).is_none());
}
