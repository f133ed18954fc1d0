use kruti_typing::models::{best_wpm_of, Duration, Score};

#[test]
fn duration_word_counts() {
    assert_eq!(Duration::Seconds15.word_count(), 15);
    assert_eq!(Duration::Seconds30.word_count(), 30);
    assert_eq!(Duration::Minute1.word_count(), 60);
}

#[test]
fn duration_seconds() {
    assert_eq!(Duration::Seconds15.as_secs(), 15);
    assert_eq!(Duration::Seconds30.as_secs(), 30);
    assert_eq!(Duration::Minute1.as_secs(), 60);
}

#[test]
fn duration_labels() {
    assert_eq!(Duration::Seconds15.label(), "15s");
    assert_eq!(Duration::Seconds30.label(), "30s");
    assert_eq!(Duration::Minute1.label(), "1m");
}

#[test]
fn law_words_match_seconds_on_every_duration() {
    for d in [Duration::Seconds15, Duration::Seconds30, Duration::Minute1] {
        assert_eq!(d.word_count() as u64, d.as_secs());
    }
}

#[test]
fn score_holds_its_fields() {
    let s = Score { id: Some(3), wpm: 42, acc: 97, date: "2024-01-02 03:04:05".to_string() };
    let c = s.clone();
    assert_eq!(c.id, Some(3));
    assert_eq!(c.wpm, 42);
    assert_eq!(c.acc, 97);
    assert_eq!(c.date, "2024-01-02 03:04:05");
}

#[test]
fn best_wpm_of_stored_maximum() {
    assert_eq!(best_wpm_of(Some(73)), 73);
    assert_eq!(best_wpm_of(Some(-2)), -2);
    assert_eq!(best_wpm_of(None), 0);
}
