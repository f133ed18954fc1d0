use kruti_typing::models::Duration;
use kruti_typing::draw::draw_indices;
use kruti_typing::session::{Action, App, Event, Message, Pending};


fn answer(app: &mut App, mut act: Action) -> Action {
    loop {
        act = match act {
            Action::ReadClock { .. } => app.resume(Event::ClockRead(0)),
            Action::DrawWords { pool_len, count } => {
                app.resume(Event::WordsDrawn(draw_indices(pool_len, count)))
            }
            other => return other,
        }
    }
}

fn update(app: &mut App, msg: Message) -> Action {
    let act = app.update(msg);
    answer(app, act)
}

fn new_app(words: Vec<String>, best: Option<i32>) -> App {
    let (mut app, act) = App::new(words, best);
    let rest = answer(&mut app, act);
    assert!(matches!(rest, Action::Done));
    app
}

fn same_words(word: &str, n: usize) -> Vec<String> {
    vec![word.to_string(); n]
}

fn target_text(app: &App) -> String {
    app.target_words().join(" ")
}

#[test]
fn new_app_starts_fresh() {
    let app = new_app(same_words("ab", 20), Some(37));
    assert_eq!(app.duration(), Duration::Seconds15);
    assert_eq!(*app.target_words(), same_words("ab", 15));
    assert_eq!(app.typed_text(), "");
    assert_eq!(app.remaining_time(), 15);
    assert!(app.start_time().is_none());
    assert!(!app.running() && !app.completed());
    assert_eq!(app.wpm(), 0);
    assert_eq!(app.accuracy(), 100);
    assert_eq!(app.best_wpm(), 37);
    assert_eq!(app.pending(), Pending::Idle);
}

#[test]
fn new_app_without_stored_best_counts_zero() {
    let app = new_app(same_words("ab", 3), None);
    assert_eq!(app.best_wpm(), 0);
    assert_eq!(app.target_words().len(), 3);
}

#[test]
fn random_selection_draws_distinct_pool_entries() {
    let pool: Vec<String> = (0..40).map(|i| format!("w{}", i)).collect();
    for _ in 0..20 {
        let app = new_app(pool.clone(), None);
        assert_eq!(app.target_words().len(), 15);
        let mut seen = std::collections::HashSet::new();
        for w in app.target_words() {
            assert!(pool.contains(w));
            assert!(seen.insert(w.clone()));
        }
    }
}

#[test]
fn first_input_starts_the_clock_and_asks_for_rates() {
    let mut app = new_app(same_words("ab", 20), None);
    let act = update(&mut app, Message::InputChanged("ab a".to_string()));
    assert!(app.running());
    assert!(app.start_time().is_some());
    assert_eq!(app.current_word_index(), 1);
    assert_eq!(*app.error_positions(), vec![1]);
    match act {
        Action::MeasureRates(r) => {
            assert!(r.start_time.is_some());
            assert_eq!(r.typed_bytes, 4);
            assert_eq!(r.accuracy_basis, Some((1, 2)));
        }
        other => panic!("unexpected {:?}", other),
    }
    assert_eq!(app.pending(), Pending::Rates { with_accuracy: true, then_finish: false });
    let act = app.resume(Event::RatesMeasured { wpm: -5, accuracy: Some(250) });
    assert!(matches!(act, Action::Done));
    assert_eq!(app.wpm(), 0);
    assert_eq!(app.accuracy(), 100);
    assert_eq!(app.pending(), Pending::Idle);
}

#[test]
fn rates_are_kept_in_range() {
    let mut app = new_app(same_words("ab", 20), None);
    update(&mut app, Message::InputChanged("ab".to_string()));
    app.resume(Event::RatesMeasured { wpm: 88, accuracy: Some(-3) });
    assert_eq!(app.wpm(), 88);
    assert_eq!(app.accuracy(), 0);
}

#[test]
fn whitespace_only_input_resets_rates() {
    let mut app = new_app(same_words("ab", 20), None);
    update(&mut app, Message::InputChanged("x".to_string()));
    app.resume(Event::RatesMeasured { wpm: 50, accuracy: Some(40) });
    assert_eq!(app.wpm(), 50);
    assert_eq!(app.accuracy(), 40);
    let act = update(&mut app, Message::InputChanged("   ".to_string()));
    assert!(matches!(act, Action::Done));
    assert_eq!(app.wpm(), 0);
    assert_eq!(app.accuracy(), 100);
    assert!(app.running());
}

#[test]
fn deleting_text_updates_stats_without_timer() {
    let mut app = new_app(same_words("ab", 20), None);
    update(&mut app, Message::InputChanged("ab zz".to_string()));
    app.resume(Event::RatesMeasured { wpm: 10, accuracy: Some(50) });
    let act = update(&mut app, Message::InputChanged("ab".to_string()));
    assert_eq!(app.typed_text(), "ab");
    assert_eq!(app.current_word_index(), 0);
    assert_eq!(*app.error_positions(), vec![1]);
    match act {
        Action::MeasureRates(r) => assert_eq!(r.accuracy_basis, Some((1, 1))),
        other => panic!("unexpected {:?}", other),
    }
}

#[test]
fn exact_text_finishes_and_saves() {
    let mut app = new_app(same_words("ab", 2), Some(3));
    let text = target_text(&app);
    assert_eq!(text, "ab ab");
    let act = update(&mut app, Message::InputChanged(text));
    match act {
        Action::MeasureRates(r) => assert_eq!(r.accuracy_basis, Some((2, 2))),
        other => panic!("unexpected {:?}", other),
    }
    assert_eq!(app.pending(), Pending::Rates { with_accuracy: true, then_finish: true });
    let act = app.resume(Event::RatesMeasured { wpm: 61, accuracy: Some(100) });
    match act {
        Action::SaveScore(rec) => {
            assert_eq!(rec.wpm, 61);
            assert_eq!(rec.accuracy, 100);
            assert_eq!(rec.date.len(), 19);
            assert_ne!(rec.date, "%Y-%m-%d %H:%M:%S");
            let c: Vec<char> = rec.date.chars().collect();
            for (i, ch) in c.iter().enumerate() {
                match i {
                    4 | 7 => assert_eq!(*ch, '-'),
                    10 => assert_eq!(*ch, ' '),
                    13 | 16 => assert_eq!(*ch, ':'),
                    _ => assert!(ch.is_ascii_digit()),
                }
            }
            let month: u32 = rec.date[5..7].parse().unwrap();
            assert!((1..=12).contains(&month));
        }
        other => panic!("unexpected {:?}", other),
    }
    assert!(app.completed() && !app.running());
    assert_eq!(app.pending(), Pending::BestWpm);
    let act = app.resume(Event::BestWpmLoaded(Some(61)));
    assert!(matches!(act, Action::Done));
    assert_eq!(app.best_wpm(), 61);
}

#[test]
fn unreadable_best_keeps_old_best() {
    let mut app = new_app(same_words("ab", 1), Some(9));
    update(&mut app, Message::StopTest);
    update(&mut app, Message::InputChanged("ab".to_string()));
    app.resume(Event::RatesMeasured { wpm: 5, accuracy: Some(100) });
    app.resume(Event::BestWpmLoaded(None));
    assert_eq!(app.best_wpm(), 9);
    assert!(app.completed());
}

#[test]
fn law_completed_test_ignores_input() {
    let mut app = new_app(same_words("ab", 1), None);
    update(&mut app, Message::InputChanged("ab".to_string()));
    app.resume(Event::RatesMeasured { wpm: 5, accuracy: Some(100) });
    app.resume(Event::BestWpmLoaded(Some(5)));
    assert!(app.completed());
    let act = update(&mut app, Message::InputChanged("something else".to_string()));
    assert!(matches!(act, Action::Done));
    assert_eq!(app.typed_text(), "ab");
}

#[test]
fn stop_test_finishes_when_something_typed() {
    let mut app = new_app(same_words("ab", 20), None);
    let act = update(&mut app, Message::StopTest);
    assert!(matches!(act, Action::Done));
    assert!(!app.completed());
    update(&mut app, Message::InputChanged("a".to_string()));
    app.resume(Event::RatesMeasured { wpm: 12, accuracy: Some(0) });
    let act = update(&mut app, Message::StopTest);
    match act {
        Action::SaveScore(rec) => {
            assert_eq!(rec.wpm, 12);
            assert_eq!(rec.accuracy, 0);
        }
        other => panic!("unexpected {:?}", other),
    }
    assert!(app.completed() && !app.running());
}

#[test]
fn law_duration_locked_while_running() {
    let mut app = new_app(same_words("ab", 80), None);
    update(&mut app, Message::InputChanged("a".to_string()));
    app.resume(Event::RatesMeasured { wpm: 1, accuracy: Some(0) });
    let act = update(&mut app, Message::DurationSelected(Duration::Minute1));
    assert!(matches!(act, Action::Done));
    assert_eq!(app.duration(), Duration::Seconds15);
    assert_eq!(app.target_words().len(), 15);
}

#[test]
fn duration_change_draws_new_text() {
    let mut app = new_app(same_words("ab", 80), None);
    let act = update(&mut app, Message::DurationSelected(Duration::Minute1));
    assert!(matches!(act, Action::Done));
    assert_eq!(app.duration(), Duration::Minute1);
    assert_eq!(app.remaining_time(), 60);
    assert_eq!(app.target_words().len(), 60);
    update(&mut app, Message::DurationSelected(Duration::Seconds30));
    assert_eq!(app.remaining_time(), 30);
    assert_eq!(app.target_words().len(), 30);
}

#[test]
fn law_reset_clears() {
    let mut app = new_app(same_words("ab", 20), None);
    update(&mut app, Message::InputChanged("ab x".to_string()));
    app.resume(Event::RatesMeasured { wpm: 30, accuracy: Some(50) });
    let act = update(&mut app, Message::Reset);
    assert!(matches!(act, Action::Done));
    assert!(!app.running() && !app.completed());
    assert!(app.start_time().is_none());
    assert_eq!(app.typed_text(), "");
    assert_eq!(app.wpm(), 0);
    assert_eq!(app.accuracy(), 100);
    assert_eq!(app.remaining_time(), 15);
    assert!(app.error_positions().is_empty());
    assert_eq!(app.current_word_index(), 0);
}

#[test]
fn paging_stays_on_the_only_page() {
    let mut app = new_app(same_words("ab", 20), None);
    assert!(matches!(update(&mut app, Message::NextPage), Action::Done));
    assert_eq!(app.current_page(), 0);
    assert!(matches!(update(&mut app, Message::PrevPage), Action::Done));
    assert_eq!(app.current_page(), 0);
}

#[test]
fn tick_without_running_test_does_nothing() {
    let mut app = new_app(same_words("ab", 20), None);
    assert!(matches!(update(&mut app, Message::Tick), Action::Done));
    assert_eq!(app.remaining_time(), 15);
}

#[test]
fn tick_during_test_asks_for_rates() {
    let mut app = new_app(same_words("ab", 20), None);
    update(&mut app, Message::InputChanged("ab".to_string()));
    app.resume(Event::RatesMeasured { wpm: 1, accuracy: Some(100) });
    let act = update(&mut app, Message::Tick);
    assert!(matches!(act, Action::MeasureRates(_)));
    assert!(app.remaining_time() >= 1 && app.remaining_time() <= 15);
}

#[test]
fn load_file_replaces_words() {
    let mut app = new_app(same_words("ab", 20), None);
    let act = update(&mut app, Message::LoadFile);
    assert!(matches!(act, Action::ChooseWordFile));
    assert_eq!(app.pending(), Pending::WordFile);
    let act = app.resume(Event::WordFileRead(Some("kal  kal\nkal".to_string())));
    match act {
        Action::DrawWords { pool_len, count } => {
            assert_eq!(pool_len, 3);
            assert_eq!(count, 15);
        }
        other => panic!("unexpected {:?}", other),
    }
    assert_eq!(app.words().len(), 20);
    let act = app.resume(Event::WordsDrawn(vec![2, 0, 1]));
    assert!(matches!(act, Action::Done));
    assert_eq!(*app.words(), same_words("kal", 3));
    assert_eq!(*app.target_words(), same_words("kal", 3));
    assert_eq!(app.pending(), Pending::Idle);
}

#[test]
fn empty_or_missing_file_keeps_words() {
    let mut app = new_app(same_words("ab", 20), None);
    update(&mut app, Message::LoadFile);
    app.resume(Event::WordFileRead(Some(" \n ".to_string())));
    assert_eq!(app.words().len(), 20);
    update(&mut app, Message::LoadFile);
    app.resume(Event::WordFileRead(None));
    assert_eq!(app.words().len(), 20);
}

#[test]
fn unexpected_answer_changes_nothing() {
    let mut app = new_app(same_words("ab", 20), Some(4));
    let act = app.resume(Event::BestWpmLoaded(Some(99)));
    assert!(matches!(act, Action::Done));
    assert_eq!(app.best_wpm(), 4);
    app.resume(Event::RatesMeasured { wpm: 50, accuracy: Some(50) });
    assert_eq!(app.wpm(), 0);
    assert_eq!(app.accuracy(), 100);
}

fn two_words_drawn(order: Vec<usize>) -> App {
    let (mut app, act) = App::new(vec!["a".to_string(), "b".to_string()], None);
    match act {
        Action::DrawWords { pool_len, count } => {
            assert_eq!(pool_len, 2);
            assert_eq!(count, 15);
        }
        other => panic!("unexpected {:?}", other),
    }
    assert!(app.target_words().is_empty());
    assert!(matches!(app.resume(Event::WordsDrawn(order)), Action::Done));
    app
}

#[test]
fn drawn_positions_become_the_target_words() {
    let mut app = two_words_drawn(vec![1, 0]);
    assert_eq!(*app.target_words(), vec!["b".to_string(), "a".to_string()]);
    update(&mut app, Message::InputChanged("zz".to_string()));
    app.resume(Event::RatesMeasured { wpm: 1, accuracy: Some(0) });
    let act = app.update(Message::Reset);
    assert!(matches!(act, Action::DrawWords { pool_len: 2, count: 15 }));
    assert!(matches!(app.resume(Event::WordsDrawn(vec![0, 1])), Action::Done));
    assert_eq!(*app.target_words(), vec!["a".to_string(), "b".to_string()]);
    assert_eq!(app.typed_text(), "");
    assert!(app.error_positions().is_empty());
    assert_eq!(app.current_word_index(), 0);
}

#[test]
fn law_invalid_draw_dropped() {
    let mut app = two_words_drawn(vec![0, 1]);
    for bad in [vec![0], vec![0, 0], vec![0, 2], vec![0, 1, 1]] {
        let act = app.update(Message::Reset);
        assert!(matches!(act, Action::DrawWords { .. }));
        assert!(matches!(app.resume(Event::WordsDrawn(bad)), Action::Done));
        assert_eq!(*app.target_words(), vec!["a".to_string(), "b".to_string()]);
        assert_eq!(app.pending(), Pending::Idle);
    }
}

#[test]
fn law_draw_sets_targets_for_a_new_duration() {
    let mut app = two_words_drawn(vec![0, 1]);
    let act = app.update(Message::DurationSelected(Duration::Seconds30));
    assert!(matches!(act, Action::DrawWords { pool_len: 2, count: 30 }));
    assert_eq!(app.duration(), Duration::Seconds15);
    app.resume(Event::WordsDrawn(vec![1, 0]));
    assert_eq!(app.duration(), Duration::Seconds30);
    assert_eq!(app.remaining_time(), 30);
    assert_eq!(*app.target_words(), vec!["b".to_string(), "a".to_string()]);
}

#[test]
fn law_exact_text_all_correct() {
    let mut app = two_words_drawn(vec![1, 0]);
    let act = update(&mut app, Message::InputChanged("b a".to_string()));
    match act {
        Action::MeasureRates(r) => assert_eq!(r.accuracy_basis, Some((2, 2))),
        other => panic!("unexpected {:?}", other),
    }
    assert!(app.error_positions().is_empty());
}

#[test]
fn law_tick_reads_from_start() {
    let mut app = new_app(same_words("ab", 20), None);
    update(&mut app, Message::InputChanged("ab".to_string()));
    app.resume(Event::RatesMeasured { wpm: 1, accuracy: Some(100) });
    let start = app.start_time().expect("started");
    match app.update(Message::Tick) {
        Action::ReadClock { since } => assert_eq!(since, start),
        other => panic!("unexpected {:?}", other),
    }
    assert_eq!(app.pending(), Pending::Clock { tick: true });
    let act = app.resume(Event::ClockRead(15));
    assert!(matches!(act, Action::SaveScore(_)));
    assert!(app.completed());
}

#[test]
fn law_input_reads_from_start() {
    let mut app = new_app(same_words("ab", 20), None);
    let act = app.update(Message::InputChanged("a".to_string()));
    let start = app.start_time().expect("started");
    match act {
        Action::ReadClock { since } => assert_eq!(since, start),
        other => panic!("unexpected {:?}", other),
    }
    app.resume(Event::ClockRead(3));
    app.resume(Event::RatesMeasured { wpm: 1, accuracy: Some(0) });
    assert_eq!(app.remaining_time(), 12);
    match app.update(Message::InputChanged("ab".to_string())) {
        Action::ReadClock { since } => assert_eq!(since, start),
        other => panic!("unexpected {:?}", other),
    }
    let act = app.resume(Event::ClockRead(20));
    assert_eq!(app.pending(), Pending::Rates { with_accuracy: true, then_finish: true });
    assert!(matches!(act, Action::MeasureRates(_)));
}

#[test]
fn law_errors_only_grow() {
    let mut app = new_app(same_words("ab", 20), None);
    update(&mut app, Message::InputChanged("x ab y".to_string()));
    app.resume(Event::RatesMeasured { wpm: 1, accuracy: Some(0) });
    assert_eq!(*app.error_positions(), vec![0, 2]);
    update(&mut app, Message::InputChanged("ab".to_string()));
    app.resume(Event::RatesMeasured { wpm: 1, accuracy: Some(100) });
    assert_eq!(*app.error_positions(), vec![0, 2]);
    update(&mut app, Message::InputChanged("ab ab ab q".to_string()));
    assert_eq!(*app.error_positions(), vec![0, 2, 3]);
}

fn started(app: &mut App) {
    update(app, Message::InputChanged("ab".to_string()));
    app.resume(Event::RatesMeasured { wpm: 7, accuracy: Some(100) });
}

#[test]
fn law_time_up_finishes() {
    let mut app = new_app(same_words("ab", 20), None);
    started(&mut app);
    let act = app.tick_with(20);
    match act {
        Action::SaveScore(rec) => {
            assert_eq!(rec.wpm, 7);
            assert_eq!(rec.accuracy, 100);
        }
        other => panic!("unexpected {:?}", other),
    }
    assert!(app.completed() && !app.running());
}

#[test]
fn law_time_up_while_typing_finishes() {
    let mut app = new_app(same_words("ab", 20), None);
    started(&mut app);
    let act = app.input_with("ab ab".to_string(), std::time::Instant::now(), 20);
    assert!(matches!(act, Action::MeasureRates(_)));
    assert_eq!(app.pending(), Pending::Rates { with_accuracy: true, then_finish: true });
    let act = app.resume(Event::RatesMeasured { wpm: 9, accuracy: Some(100) });
    assert!(matches!(act, Action::SaveScore(_)));
    assert!(app.completed());
    assert_eq!(app.remaining_time(), 15);
}

#[test]
fn observe_elapsed_sets_remaining_or_reports_time_up() {
    let mut app = new_app(same_words("ab", 20), None);
    assert!(!app.observe_elapsed(4));
    assert_eq!(app.remaining_time(), 11);
    assert!(!app.observe_elapsed(14));
    assert_eq!(app.remaining_time(), 1);
    assert!(app.observe_elapsed(15));
    assert_eq!(app.remaining_time(), 1);
    assert!(app.observe_elapsed(1000));
}

#[test]
fn input_with_starts_the_clock_at_the_given_reading() {
    let mut app = new_app(same_words("ab", 20), None);
    let now = std::time::Instant::now();
    let act = app.input_with("ab".to_string(), now, 0);
    assert!(matches!(act, Action::MeasureRates(_)));
    assert_eq!(app.start_time(), Some(now));
    assert!(app.running());
    assert_eq!(app.remaining_time(), 15);
}

#[test]
fn input_with_counts_down_while_time_is_left() {
    let mut app = new_app(same_words("ab", 20), None);
    let start = std::time::Instant::now();
    app.input_with("ab".to_string(), start, 0);
    app.resume(Event::RatesMeasured { wpm: 3, accuracy: Some(100) });
    app.input_with("ab a".to_string(), std::time::Instant::now(), 6);
    assert_eq!(app.remaining_time(), 9);
    assert_eq!(app.start_time(), Some(start));
    assert!(app.running() && !app.completed());
}

#[test]
fn input_with_past_the_limit_finishes() {
    let mut app = new_app(same_words("ab", 20), None);
    app.input_with("ab".to_string(), std::time::Instant::now(), 0);
    app.resume(Event::RatesMeasured { wpm: 3, accuracy: Some(100) });
    let act = app.input_with("ab ab".to_string(), std::time::Instant::now(), 15);
    assert!(matches!(act, Action::MeasureRates(_)));
    assert_eq!(app.pending(), Pending::Rates { with_accuracy: true, then_finish: true });
    assert!(matches!(app.resume(Event::RatesMeasured { wpm: 4, accuracy: Some(100) }), Action::SaveScore(_)));
    assert!(app.completed() && !app.running());
}

#[test]
fn tick_with_counts_down_or_finishes() {
    let mut app = new_app(same_words("ab", 20), None);
    assert!(matches!(app.tick_with(100), Action::Done));
    assert!(!app.completed());
    app.input_with("ab".to_string(), std::time::Instant::now(), 0);
    app.resume(Event::RatesMeasured { wpm: 5, accuracy: Some(100) });
    let act = app.tick_with(10);
    assert!(matches!(act, Action::MeasureRates(_)));
    assert_eq!(app.remaining_time(), 5);
    app.resume(Event::RatesMeasured { wpm: 6, accuracy: Some(100) });
    match app.tick_with(15) {
        Action::SaveScore(rec) => assert_eq!(rec.wpm, 6),
        other => panic!("unexpected {:?}", other),
    }
    assert!(app.completed() && !app.running());
    assert_eq!(app.remaining_time(), 5);
}
