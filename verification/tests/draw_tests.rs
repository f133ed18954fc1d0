use kruti_typing::draw::{check_draw, draw_indices, pick_words};
use kruti_typing::sys::seconds_since;

#[test]
fn draw_indices_gives_distinct_positions_in_range() {
    for _ in 0..50 {
        let idx = draw_indices(40, 15);
        assert_eq!(idx.len(), 15);
        let mut seen = std::collections::HashSet::new();
        for i in &idx {
            assert!(*i < 40);
            assert!(seen.insert(*i));
        }
        assert!(check_draw(&idx, 40, 15));
    }
}

#[test]
fn draw_indices_takes_the_whole_small_pool() {
    let mut idx = draw_indices(3, 15);
    assert_eq!(idx.len(), 3);
    idx.sort();
    assert_eq!(idx, vec![0, 1, 2]);
    assert!(draw_indices(0, 15).is_empty());
}

#[test]
fn check_draw_rejects_bad_draws() {
    assert!(check_draw(&vec![2, 0, 1], 3, 15));
    assert!(!check_draw(&vec![0, 1], 3, 15));
    assert!(!check_draw(&vec![0, 1, 1], 3, 15));
    assert!(!check_draw(&vec![0, 1, 3], 3, 15));
    assert!(check_draw(&vec![4, 1], 5, 2));
    assert!(!check_draw(&vec![4, 1, 2], 5, 2));
}

#[test]
fn pick_words_follows_positions() {
    let pool = vec!["a".to_string(), "b".to_string(), "c".to_string()];
    assert_eq!(pick_words(&pool, &vec![2, 0]), vec!["c".to_string(), "a".to_string()]);
}

#[test]
fn seconds_since_reads_the_clock() {
    let now = std::time::Instant::now();
    assert!(seconds_since(now) < 5);
    let past = now.checked_sub(std::time::Duration::from_secs(30)).expect("clock too young");
    assert!(seconds_since(past) >= 30);
}
