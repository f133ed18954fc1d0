//! Properties of the typing test that span its operations.

use std::time::Instant;
use vstd::prelude::*;

use crate::layout::{layout_of, line_width, page_len, page_start, PageLayout, WordState};
use crate::models::Duration;
use crate::session::{input_post, input_request, rate_request, resume_post, tick_post, update_post, with_stats};
use crate::draw::{picks, valid_draw};
use crate::session::{Action, AppView, Event, Message, Pending};
use crate::stats::{compared_len, count_matches, new_mismatches};
use crate::text::{is_word, join_words, lemma_split_join, lemma_split_words_shape, split_words};

verus! {

/// A test lasts as many seconds as it draws words.
pub proof fn law_words_match_seconds(d: Duration)
    ensures
        d.word_count() as u64 == d.as_secs(),
{
}

/// Once a test is completed, a new input text changes nothing but ends the step.
pub proof fn law_completed_test_ignores_input(
    pre: AppView,
    text: Seq<char>,
    now: Instant,
    e: u64,
    post: AppView,
    act: Action,
)
    requires
        pre.completed,
        input_post(pre, text, now, e, post, act),
    ensures
        post == (AppView { pending: Pending::Idle, ..pre }),
        act == Action::Done,
{
}

/// While a test runs, choosing another duration changes nothing.
pub proof fn law_duration_locked_while_running(
    pre: AppView,
    d: Duration,
    post: AppView,
    act: Action,
)
    requires
        pre.running,
        update_post(pre, Message::DurationSelected(d), post, act),
    ensures
        post == (AppView { pending: Pending::Idle, ..pre }),
        act == Action::Done,
{
}

/// A reset stops the test and clears the typed text and the scores, whatever
/// the state was, and asks for a fresh draw of target words from the word
/// list for the current duration.
pub proof fn law_reset_clears(pre: AppView, post: AppView, act: Action)
    requires
        update_post(pre, Message::Reset, post, act),
    ensures
        !post.running,
        !post.completed,
        post.start_time is None,
        post.typed_text.len() == 0,
        post.wpm == 0,
        post.accuracy == 100,
        post.remaining_time == post.duration.as_secs(),
        post.error_positions.len() == 0,
        post.duration == pre.duration,
        post.words == pre.words,
        post.pending == (Pending::Draw { duration: pre.duration, set_clock: false, from_incoming: false }),
        act == (Action::DrawWords {
            pool_len: pre.words.len() as usize,
            count: pre.duration.word_count() as usize,
        }),
{
}

/// A valid draw answered to a pending draw from the word list puts the words
/// at the drawn positions in place as the target words, for the duration
/// asked, with nothing typed of them.
pub proof fn law_draw_sets_targets(
    pre: AppView,
    idx: Vec<usize>,
    d: Duration,
    set_clock: bool,
    post: AppView,
    act: Action,
)
    requires
        pre.pending == (Pending::Draw { duration: d, set_clock, from_incoming: false }),
        valid_draw(idx@, pre.words.len(), d.word_count() as nat),
        resume_post(pre, Event::WordsDrawn(idx), post, act),
    ensures
        post.target_words == picks(pre.words, idx@),
        post.words == pre.words,
        post.duration == d,
        post.typed_text.len() == 0,
        post.error_positions.len() == 0,
        set_clock ==> post.remaining_time == d.as_secs(),
        !set_clock ==> post.remaining_time == pre.remaining_time,
        post.pending == Pending::Idle,
        act == Action::Done,
{
}

/// A draw answer that is not a valid draw changes nothing.
pub proof fn law_invalid_draw_dropped(pre: AppView, idx: Vec<usize>, post: AppView, act: Action)
    requires
        pre.pending matches Pending::Draw { duration, from_incoming: false, .. } && !valid_draw(
            idx@,
            pre.words.len(),
            duration.word_count() as nat,
        ),
        resume_post(pre, Event::WordsDrawn(idx), post, act),
    ensures
        post == (AppView { pending: Pending::Idle, ..pre }),
        act == Action::Done,
{
}

/// The clock of a running test is read from the start of the test: a tick
/// asks for the seconds since `start_time`.
pub proof fn law_tick_reads_from_start(pre: AppView, post: AppView, act: Action)
    requires
        pre.running,
        !pre.completed,
        pre.start_time is Some,
        update_post(pre, Message::Tick, post, act),
    ensures
        act == (Action::ReadClock { since: pre.start_time->0 }),
        post.pending == (Pending::Clock { tick: true }),
{
}

/// A new text in a running test asks for the seconds since the start of the
/// test; a first text that starts the test asks for the seconds since the
/// instant it set as the start.
pub proof fn law_input_reads_from_start(pre: AppView, text: String, post: AppView, act: Action)
    requires
        pre.wf(),
        !pre.completed,
        byte_len_not_shorter(pre, text@),
        pre.running || text@.len() > 0,
        update_post(pre, Message::InputChanged(text), post, act),
    ensures
        post.start_time is Some,
        act == (Action::ReadClock { since: post.start_time->0 }),
        pre.running ==> post.start_time == pre.start_time,
        post.pending == (Pending::Clock { tick: false }),
{
    let now = choose|now: Instant| input_request(pre, text@, now, post, act);
}

/// Typing exactly the target text (without deleting) ends the test: either at
/// once, or right after the speed is measured.
pub proof fn law_exact_text_finishes(
    pre: AppView,
    text: Seq<char>,
    now: Instant,
    e: u64,
    post: AppView,
    act: Action,
)
    requires
        !pre.completed,
        byte_len_not_shorter(pre, text),
        text == join_words(pre.target_words),
        input_post(pre, text, now, e, post, act),
    ensures
        (post.completed && act is SaveScore) || (post.pending matches Pending::Rates {
            then_finish: true,
            ..
        }),
{
}

/// The new text is not shorter, in bytes, than the text typed before.
pub open spec fn byte_len_not_shorter(pre: AppView, text: Seq<char>) -> bool {
    !(crate::session::byte_len(text) < crate::session::byte_len(pre.typed_text))
}

/// When the typed text is exactly the target words joined with spaces, every
/// typed word counts as correct: the accuracy is asked for with as many
/// correct words as typed words, and no position is recorded as wrong.
pub proof fn law_exact_text_all_correct(s: AppView)
    requires
        s.wf(),
        forall|i: int| 0 <= i < s.target_words.len() ==> is_word(#[trigger] s.target_words[i]),
        s.target_words.len() > 0,
        s.typed_text == join_words(s.target_words),
    ensures
        with_stats(s).error_positions == s.error_positions,
        rate_request(s) matches Some(r) && r.accuracy_basis == Some(
            (s.target_words.len() as usize, s.target_words.len() as i32),
        ),
{
    lemma_split_join(s.target_words);
    lemma_split_words_shape(s.typed_text);
    let tw = split_words(s.typed_text);
    assert(tw == s.target_words);
    let m = compared_len(tw, s.target_words);
    lemma_all_match(tw, m);
    lemma_no_new_mismatch(s.error_positions, tw, m);
    assert(s.error_positions + new_mismatches(s.error_positions, tw, tw, m) =~= s.error_positions);
    assert(tw.len() <= 60);
    assert((tw.len() as i32) == tw.len());
}

proof fn lemma_all_match(tw: Seq<Seq<char>>, k: int)
    requires
        0 <= k <= tw.len(),
    ensures
        count_matches(tw, tw, k) == k,
    decreases k,
{
    if k > 0 {
        lemma_all_match(tw, k - 1);
    }
}

proof fn lemma_no_new_mismatch(recorded: Seq<usize>, tw: Seq<Seq<char>>, k: int)
    requires
        0 <= k <= tw.len(),
    ensures
        new_mismatches(recorded, tw, tw, k) == Seq::<usize>::empty(),
    decreases k,
{
    if k > 0 {
        lemma_no_new_mismatch(recorded, tw, k - 1);
    }
}

/// Bringing the statistics up to date never forgets a recorded wrong
/// position: the old record is a prefix of the new one.
pub proof fn law_errors_only_grow(s: AppView)
    ensures
        with_stats(s).error_positions.len() >= s.error_positions.len(),
        with_stats(s).error_positions.subrange(0, s.error_positions.len() as int)
            == s.error_positions,
{
    let w = with_stats(s);
    assert(w.error_positions.subrange(0, s.error_positions.len() as int) =~= s.error_positions);
}

/// The accuracy asked for is never above 100 percent: at most as many
/// correct words as typed words, and at least one typed word.
pub proof fn law_accuracy_basis_bounded(s: AppView)
    requires
        split_words(s.typed_text).len() <= i32::MAX,
    ensures
        rate_request(s) matches Some(r) ==> (r.accuracy_basis matches Some(b) ==> b.0 <= b.1
            && b.1 > 0),
{
    let tw = split_words(s.typed_text);
    lemma_matches_bounded(tw, s.target_words, compared_len(tw, s.target_words));
}

proof fn lemma_matches_bounded(tw: Seq<Seq<char>>, tg: Seq<Seq<char>>, k: int)
    requires
        k >= 0,
    ensures
        count_matches(tw, tg, k) <= k,
    decreases k,
{
    if k > 0 {
        lemma_matches_bounded(tw, tg, k - 1);
    }
}

/// The layout shows every target word of the page exactly where its
/// position puts it: word `i` is cell `i % w` of line `i / w`.
pub proof fn law_layout_places_every_word(s: AppView, r: PageLayout, i: int)
    requires
        s.wf(),
        layout_of(s, r),
        0 <= i < page_len(s),
    ensures
        ({
            let w = line_width(s.duration);
            &&& i / w < r.lines@.len()
            &&& i % w < r.lines@[i / w]@.len()
            &&& r.lines@[i / w]@[i % w].index == i
        }),
{
    let w = line_width(s.duration);
    let len = page_len(s);
    let l = i / w;
    let k = i % w;
    assert(l * w + k == i && 0 <= k < w && l >= 0) by (nonlinear_arith)
        requires
            w > 0,
            l == i / w,
            k == i % w,
            i >= 0,
    ;
    assert(l < (len + w - 1) / w) by (nonlinear_arith)
        requires
            w > 0,
            l * w + k == i,
            0 <= k < w,
            i < len,
            l >= 0,
    ;
    assert(k < (if len - l * w < w {
        len - l * w
    } else {
        w
    }));
}


/// When the time of a running test is up, a tick ends the test and hands
/// the score out to be stored.
pub proof fn law_time_up_finishes(pre: AppView, e: u64, post: AppView, act: Action)
    requires
        pre.running,
        !pre.completed,
        pre.start_time is Some,
        e >= pre.duration.as_secs(),
        tick_post(pre, e, post, act),
    ensures
        post.completed,
        !post.running,
        act matches Action::SaveScore(rec) && rec.wpm == pre.wpm && rec.accuracy == pre.accuracy,
{
}

/// When the time is up as the user types, the test ends: at once, or right
/// after the speed is measured.
pub proof fn law_time_up_while_typing_finishes(
    pre: AppView,
    text: Seq<char>,
    now: Instant,
    e: u64,
    post: AppView,
    act: Action,
)
    requires
        pre.running,
        !pre.completed,
        pre.start_time is Some,
        byte_len_not_shorter(pre, text),
        e >= pre.duration.as_secs(),
        input_post(pre, text, now, e, post, act),
    ensures
        (post.completed && act is SaveScore) || (post.pending matches Pending::Rates {
            then_finish: true,
            ..
        }),
{
}

/// Choosing a duration before the test runs asks for a draw of as many
/// target words as the duration calls for, from the word list, and for the
/// clock to be set to the whole duration.
pub proof fn law_duration_asks_draw(pre: AppView, d: Duration, post: AppView, act: Action)
    requires
        !pre.running,
        update_post(pre, Message::DurationSelected(d), post, act),
    ensures
        act == (Action::DrawWords {
            pool_len: pre.words.len() as usize,
            count: d.word_count() as usize,
        }),
        post.pending == (Pending::Draw { duration: d, set_clock: true, from_incoming: false }),
{
}

/// Stopping a test that runs or holds typed text ends it and hands the
/// score out to be stored.
pub proof fn law_stop_finishes(pre: AppView, post: AppView, act: Action)
    requires
        pre.running || pre.typed_text.len() > 0,
        update_post(pre, Message::StopTest, post, act),
    ensures
        post.completed,
        !post.running,
        act matches Action::SaveScore(rec) && rec.wpm == pre.wpm && rec.accuracy == pre.accuracy,
{
}

/// The best speed read back after a score is stored becomes the best speed shown.
pub proof fn law_best_follows_store(pre: AppView, best: i32, post: AppView, act: Action)
    requires
        pre.pending == Pending::BestWpm,
        resume_post(pre, Event::BestWpmLoaded(Some(best)), post, act),
    ensures
        post.best_wpm == best,
        post.pending == Pending::Idle,
{
}

/// A word file with at least one word asks for a draw from its words; a
/// valid draw then makes them the word list and the drawn ones the target words.
pub proof fn law_word_file_replaces_words(
    pre: AppView,
    content: String,
    mid: AppView,
    act1: Action,
    idx: Vec<usize>,
    post: AppView,
    act2: Action,
)
    requires
        pre.pending == Pending::WordFile,
        split_words(content@).len() > 0,
        resume_post(pre, Event::WordFileRead(Some(content)), mid, act1),
        valid_draw(idx@, split_words(content@).len(), pre.duration.word_count() as nat),
        resume_post(mid, Event::WordsDrawn(idx), post, act2),
    ensures
        act1 == (Action::DrawWords {
            pool_len: split_words(content@).len() as usize,
            count: pre.duration.word_count() as usize,
        }),
        post.words == split_words(content@),
        post.target_words == picks(split_words(content@), idx@),
        post.typed_text.len() == 0,
        post.duration == pre.duration,
{
}

/// The first non-empty text of a test that does not run starts the clock at
/// the reading taken for the step.
pub proof fn law_first_input_starts_clock(
    pre: AppView,
    text: Seq<char>,
    now: Instant,
    e: u64,
    post: AppView,
    act: Action,
)
    requires
        !pre.completed,
        !pre.running,
        text.len() > 0,
        byte_len_not_shorter(pre, text),
        input_post(pre, text, now, e, post, act),
    ensures
        post.start_time == Some(now),
        post.running || post.completed,
        post.typed_text == text,
{
}

/// As the user types in a running test, the remaining time is the duration
/// less the elapsed seconds while time is left.
pub proof fn law_typing_counts_down(
    pre: AppView,
    text: Seq<char>,
    now: Instant,
    e: u64,
    post: AppView,
    act: Action,
)
    requires
        pre.running,
        !pre.completed,
        pre.start_time is Some,
        byte_len_not_shorter(pre, text),
        e < pre.duration.as_secs(),
        input_post(pre, text, now, e, post, act),
    ensures
        post.remaining_time == pre.duration.as_secs() - e,
        post.start_time == pre.start_time,
{
}


/// The positions below `k`, as integers.
pub open spec fn positions(k: int) -> Seq<int> {
    Seq::new(k as nat, |i: int| i)
}

/// The number of correct words below `k` is the number of positions below
/// `k` at which the typed word is, character for character, the target word.
pub proof fn law_correct_words_are_equal_words(tw: Seq<Seq<char>>, tg: Seq<Seq<char>>, k: int)
    requires
        0 <= k,
    ensures
        count_matches(tw, tg, k) == positions(k).filter(|i: int| tw[i] == tg[i]).len(),
    decreases k,
{
    reveal(Seq::filter);
    let p = |i: int| tw[i] == tg[i];
    if k > 0 {
        law_correct_words_are_equal_words(tw, tg, k - 1);
        assert(positions(k).drop_last() =~= positions(k - 1));
        assert(positions(k).last() == k - 1);
        assert(positions(k).filter(p) == if p(k - 1) {
            positions(k - 1).filter(p).push(k - 1)
        } else {
            positions(k - 1).filter(p)
        });
    } else {
        assert(positions(k).len() == 0);
    }
}

/// A typed word that differs from its target word is never counted: with
/// such a word below `k`, fewer than `k` words are correct.
pub proof fn law_wrong_word_not_counted(tw: Seq<Seq<char>>, tg: Seq<Seq<char>>, k: int, j: int)
    requires
        0 <= j < k,
        tw[j] != tg[j],
    ensures
        count_matches(tw, tg, k) < k,
    decreases k,
{
    lemma_matches_bounded(tw, tg, k - 1);
    if j < k - 1 {
        law_wrong_word_not_counted(tw, tg, k - 1, j);
    }
}

/// The accuracy asked for counts exactly the typed words equal to their
/// target words; with a typed word that differs from its target, fewer words
/// are correct than typed.
pub proof fn law_accuracy_counts_equal_words(s: AppView, j: int)
    requires
        rate_request(s) matches Some(r) && r.accuracy_basis is Some,
        split_words(s.typed_text).len() <= 60,
    ensures
        ({
            let tw = split_words(s.typed_text);
            let m = compared_len(tw, s.target_words);
            let basis = rate_request(s)->0.accuracy_basis->0;
            &&& basis.0 == positions(m).filter(|i: int| tw[i] == s.target_words[i]).len()
            &&& basis.1 == tw.len()
            &&& (0 <= j < m && tw[j] != s.target_words[j]) ==> basis.0 < basis.1
        }),
{
    let tw = split_words(s.typed_text);
    let m = compared_len(tw, s.target_words);
    law_correct_words_are_equal_words(tw, s.target_words, m);
    lemma_matches_bounded(tw, s.target_words, m);
    if 0 <= j < m && tw[j] != s.target_words[j] {
        law_wrong_word_not_counted(tw, s.target_words, m, j);
    }
    assert((tw.len() as i32) == tw.len());
}

/// While time is left, a new text that is not exactly the target text does
/// not end a running test: it keeps running, the remaining time is the
/// duration less the elapsed seconds, and no score is handed out.
pub proof fn law_typing_with_time_left_continues(
    pre: AppView,
    text: Seq<char>,
    now: Instant,
    e: u64,
    post: AppView,
    act: Action,
)
    requires
        pre.running,
        !pre.completed,
        pre.start_time is Some,
        byte_len_not_shorter(pre, text),
        e < pre.duration.as_secs(),
        text != join_words(pre.target_words),
        input_post(pre, text, now, e, post, act),
    ensures
        post.running,
        !post.completed,
        post.remaining_time == pre.duration.as_secs() - e,
        !(act is SaveScore),
        !(post.pending matches Pending::Rates { then_finish: true, .. }),
{
}

/// The same for the answer to a clock reading asked for by a new text.
pub proof fn law_clock_answer_with_time_left_continues(pre: AppView, e: u64, post: AppView, act: Action)
    requires
        pre.pending == (Pending::Clock { tick: false }),
        pre.running,
        !pre.completed,
        e < pre.duration.as_secs(),
        pre.typed_text != join_words(pre.target_words),
        resume_post(pre, Event::ClockRead(e), post, act),
    ensures
        post.running,
        !post.completed,
        post.remaining_time == pre.duration.as_secs() - e,
        !(act is SaveScore),
        !(post.pending matches Pending::Rates { then_finish: true, .. }),
{
}

/// While time is left, a tick does not end a running test: it keeps
/// running, with the duration less the elapsed seconds remaining.
pub proof fn law_tick_with_time_left_continues(pre: AppView, e: u64, post: AppView, act: Action)
    requires
        pre.running,
        !pre.completed,
        pre.start_time is Some,
        e < pre.duration.as_secs(),
        tick_post(pre, e, post, act),
    ensures
        post.running,
        !post.completed,
        post.remaining_time == pre.duration.as_secs() - e,
        !(act is SaveScore),
        !(post.pending matches Pending::Rates { then_finish: true, .. }),
{
}

/// The same for the answer to a clock reading asked for by a tick.
pub proof fn law_tick_answer_with_time_left_continues(pre: AppView, e: u64, post: AppView, act: Action)
    requires
        pre.pending == (Pending::Clock { tick: true }),
        pre.running,
        !pre.completed,
        e < pre.duration.as_secs(),
        resume_post(pre, Event::ClockRead(e), post, act),
    ensures
        post.running,
        !post.completed,
        post.remaining_time == pre.duration.as_secs() - e,
        !(act is SaveScore),
        !(post.pending matches Pending::Rates { then_finish: true, .. }),
{
}

/// The speed shown after a measurement is the measured speed (0 when it is
/// negative), whatever the speed was before, and a test that ends then saves
/// it; a requested accuracy is the measured one kept within 0 to 100.
pub proof fn law_speed_is_latest_measurement(
    pre: AppView,
    wpm: i32,
    accuracy: Option<i32>,
    post: AppView,
    act: Action,
)
    requires
        pre.pending matches Pending::Rates { .. },
        resume_post(pre, Event::RatesMeasured { wpm, accuracy }, post, act),
    ensures
        post.wpm == if wpm < 0 {
            0
        } else {
            wpm
        },
        post.wpm >= 0,
        (pre.pending matches Pending::Rates { with_accuracy: true, .. }) && accuracy is Some
            ==> 0 <= post.accuracy <= 100 && (0 <= accuracy->0 <= 100 ==> post.accuracy
            == accuracy->0),
        act matches Action::SaveScore(rec) ==> rec.wpm == post.wpm,
{
}

/// The layout marks a typed target word Correct exactly when the typed word
/// is, character for character, the target word, and Wrong otherwise; the
/// next word is Current and the later ones Upcoming.
pub proof fn law_layout_marks_equal_words(s: AppView, r: PageLayout, l: int, k: int)
    requires
        layout_of(s, r),
        0 <= l < r.lines@.len(),
        0 <= k < r.lines@[l]@.len(),
    ensures
        ({
            let tw = split_words(s.typed_text);
            let i = page_start(s) + l * line_width(s.duration) + k;
            let state = r.lines@[l]@[k].state;
            &&& i < tw.len() ==> ((state == WordState::Correct) == (tw[i] == s.target_words[i]))
            &&& i < tw.len() ==> (state == WordState::Correct || state == WordState::Wrong)
            &&& i == tw.len() ==> state == WordState::Current
            &&& i > tw.len() ==> state == WordState::Upcoming
        }),
{
}

} // verus!
