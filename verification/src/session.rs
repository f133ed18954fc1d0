//! The typing test as a state machine: `App::update` reacts to a user
//! message, `App::resume` to the answer of the outside world to the action
//! that the previous step asked for.

use std::time::Instant;
use vstd::prelude::*;
use vstd::utf8::encode_utf8;

use crate::layout::{layout_of, PageLayout, WordCell, WordState, word_state, line_width, page_len, page_start};
use crate::layout::words_per_page;
use crate::draw::{check_draw, is_selection, lemma_selection_len, pick_words, picks, valid_draw};
use crate::models::Duration;
use crate::stats::{compared_len, copy_indices, count_matches, new_mismatches, score_words, strings_chars};
use crate::stats::{lemma_new_mismatches_shape, lemma_record_no_duplicates};
use crate::sys::{is_local_timestamp, local_timestamp};
use crate::text::{chars_equal, count_non_white_chars, join_with_spaces, split_chars};
use crate::text::{count_non_white, join_words, split_whitespace, split_words, string_chars};
use crate::text::{clone_strings, lemma_split_words_shape, string_views};

verus! {

/// What the user did.
#[derive(Debug, Clone)]
pub enum Message {
    InputChanged(String),
    DurationSelected(Duration),
    LoadFile,
    Reset,
    StopTest,
    NextPage,
    PrevPage,
    Tick,
}

/// What is needed to measure the typing speed and the accuracy: the start of
/// the test (if any), the length of the typed text in bytes, and, when an
/// accuracy is wanted, the number of correct words and of typed words.
#[derive(Debug, Clone, Copy)]
pub struct RateRequest {
    pub start_time: Option<Instant>,
    pub typed_bytes: usize,
    pub accuracy_basis: Option<(usize, i32)>,
}

/// A finished test, to be stored.
#[derive(Debug)]
pub struct ScoreRecord {
    pub wpm: i32,
    pub accuracy: i32,
    pub date: String,
}

/// What a step asks of the outside world.
#[derive(Debug)]
pub enum Action {
    /// Nothing: the step is over.
    Done,
    /// Measure words per minute and accuracy, then answer `RatesMeasured`.
    MeasureRates(RateRequest),
    /// Store the score and show it, then answer `BestWpmLoaded` with the best
    /// stored speed (`None` when it could not be read).
    SaveScore(ScoreRecord),
    /// Let the user pick a word file, then answer `WordFileRead`.
    ChooseWordFile,
    /// Read the whole seconds elapsed since `since`, then answer `ClockRead`.
    ReadClock { since: Instant },
    /// Draw `min(count, pool_len)` distinct positions of a pool of
    /// `pool_len` words at random, then answer `WordsDrawn`.
    DrawWords { pool_len: usize, count: usize },
}

/// The answer of the outside world to an action.
#[derive(Debug)]
pub enum Event {
    RatesMeasured { wpm: i32, accuracy: Option<i32> },
    BestWpmLoaded(Option<i32>),
    WordFileRead(Option<String>),
    ClockRead(u64),
    WordsDrawn(Vec<usize>),
}

/// The answer that the state machine waits for.
#[derive(Debug, Clone, Copy, PartialEq, Eq, Structural)]
pub enum Pending {
    Idle,
    Rates { with_accuracy: bool, then_finish: bool },
    BestWpm,
    WordFile,
    /// A clock reading, for a new text (`tick` false) or for a tick.
    Clock { tick: bool },
    /// A draw of target words for a test of `duration`, from the word list or
    /// from the words of a file just read (`from_incoming`); `set_clock` says
    /// whether the remaining time becomes the whole duration.
    Draw { duration: Duration, set_clock: bool, from_incoming: bool },
}

/// The state of the typing test.
pub struct App {
    words: Vec<String>,
    target_words: Vec<String>,
    typed_text: String,
    duration: Duration,
    remaining_time: u64,
    start_time: Option<Instant>,
    running: bool,
    completed: bool,
    wpm: i32,
    accuracy: i32,
    best_wpm: i32,
    current_word_index: usize,
    current_page: usize,
    error_positions: Vec<usize>,
    pending: Pending,
    incoming: Vec<String>,
}

/// The mathematical model of `App`: strings become character sequences.
#[verifier::ext_equal]
pub struct AppView {
    pub words: Seq<Seq<char>>,
    pub target_words: Seq<Seq<char>>,
    pub typed_text: Seq<char>,
    pub duration: Duration,
    pub remaining_time: u64,
    pub start_time: Option<Instant>,
    pub running: bool,
    pub completed: bool,
    pub wpm: i32,
    pub accuracy: i32,
    pub best_wpm: i32,
    pub current_word_index: usize,
    pub current_page: usize,
    pub error_positions: Seq<usize>,
    pub pending: Pending,
    pub incoming: Seq<Seq<char>>,
}

impl View for App {
    type V = AppView;

    closed spec fn view(&self) -> AppView {
        AppView {
            words: string_views(self.words@),
            target_words: string_views(self.target_words@),
            typed_text: self.typed_text@,
            duration: self.duration,
            remaining_time: self.remaining_time,
            start_time: self.start_time,
            running: self.running,
            completed: self.completed,
            wpm: self.wpm,
            accuracy: self.accuracy,
            best_wpm: self.best_wpm,
            current_word_index: self.current_word_index,
            current_page: self.current_page,
            error_positions: self.error_positions@,
            pending: self.pending,
            incoming: string_views(self.incoming@),
        }
    }
}

/// Length of a text in UTF-8 bytes (`str::len`).
pub open spec fn byte_len(s: Seq<char>) -> usize {
    encode_utf8(s).len() as usize
}

/// Number of pages of `n` words, `per_page` words to a page.
pub open spec fn pages_of(n: int, per_page: int) -> int {
    if per_page <= 0 {
        0
    } else {
        (n + per_page - 1) / per_page
    }
}

/// `s` with no answer awaited.
pub open spec fn idle(s: AppView) -> AppView {
    AppView { pending: Pending::Idle, ..s }
}

/// The statistics brought up to date with the typed text: the current word
/// and the recorded wrong positions; with nothing typed, zero speed and full
/// accuracy. The page stays, since a page holds all the target words.
pub open spec fn with_stats(s: AppView) -> AppView {
    let tw = split_words(s.typed_text);
    let index: usize = if tw.len() > 0 {
        (tw.len() - 1) as usize
    } else {
        0
    };
    if tw.len() > 0 {
        AppView {
            current_word_index: index,
            error_positions: s.error_positions + new_mismatches(
                s.error_positions,
                tw,
                s.target_words,
                compared_len(tw, s.target_words),
            ),
            ..s
        }
    } else {
        AppView { current_word_index: index, wpm: 0, accuracy: 100, ..s }
    }
}

/// The measurement that the typed text calls for, if any.
pub open spec fn rate_request(s: AppView) -> Option<RateRequest> {
    let tw = split_words(s.typed_text);
    if tw.len() > 0 && count_non_white(s.typed_text) > 0 {
        Some(
            RateRequest {
                start_time: s.start_time,
                typed_bytes: byte_len(s.typed_text),
                accuracy_basis: if (tw.len() as i32) > 0 {
                    Some(
                        (
                            count_matches(tw, s.target_words, compared_len(tw, s.target_words))
                                as usize,
                            tw.len() as i32,
                        ),
                    )
                } else {
                    None
                },
            },
        )
    } else {
        None
    }
}

/// The test ends: no longer running, completed, and the score goes out to be stored.
pub open spec fn finishes(s: AppView, post: AppView, act: Action) -> bool {
    &&& post == AppView { completed: true, running: false, pending: Pending::BestWpm, ..s }
    &&& act matches Action::SaveScore(rec) && rec.wpm == s.wpm && rec.accuracy == s.accuracy
        && is_local_timestamp(rec.date@)
}

/// After the statistics: measure the rates if asked (and finish after), or
/// finish, or stop.
pub open spec fn continues(
    s: AppView,
    req: Option<RateRequest>,
    finish: bool,
    post: AppView,
    act: Action,
) -> bool {
    match req {
        Some(r) => {
            &&& post == AppView {
                pending: Pending::Rates { with_accuracy: r.accuracy_basis is Some, then_finish: finish },
                ..s
            }
            &&& act == Action::MeasureRates(r)
        },
        None => if finish {
            finishes(s, post, act)
        } else {
            post == idle(s) && act == Action::Done
        },
    }
}

/// Whether a new text is taken up as typing (not a completed test, and not
/// shorter in bytes than what was typed).
pub open spec fn input_grows(pre: AppView, text: Seq<char>) -> bool {
    !pre.completed && !(byte_len(text) < byte_len(pre.typed_text))
}

/// The state once a growing text is taken: typed, and the clock started at
/// `now` when the test did not run and the text is not empty.
pub open spec fn input_start(pre: AppView, text: Seq<char>, now: Instant) -> AppView {
    let starts = !pre.running && text.len() > 0;
    AppView {
        typed_text: text,
        running: pre.running || starts,
        start_time: if starts {
            Some(now)
        } else {
            pre.start_time
        },
        ..pre
    }
}

/// Whether the timer runs in `s`.
pub open spec fn timed(s: AppView) -> bool {
    s.running && !s.completed && s.start_time is Some
}

/// After the clock of a running test read `e` seconds for a new text: the
/// statistics, then the end of the test when time is up or the target text
/// is typed, else the remaining time.
pub open spec fn input_clock_post(s: AppView, e: u64, post: AppView, act: Action) -> bool {
    let s2 = with_stats(s);
    let timed_out = e >= s2.duration.as_secs();
    let s3 = if timed_out {
        s2
    } else {
        AppView { remaining_time: (s2.duration.as_secs() - e) as u64, ..s2 }
    };
    let finish = timed_out || s3.typed_text == join_words(s3.target_words);
    continues(s3, rate_request(s), finish, post, act)
}

/// A text taken while the timer does not run: the statistics, and the end of
/// the test when the target text is typed.
pub open spec fn input_untimed_post(s: AppView, post: AppView, act: Action) -> bool {
    continues(with_stats(s), rate_request(s), s.typed_text == join_words(s.target_words), post, act)
}

/// The part of a new-text step that needs no clock: a completed test ignores
/// it, a shorter text only updates the statistics.
pub open spec fn input_no_clock_post(pre: AppView, text: Seq<char>, post: AppView, act: Action) -> bool {
    if pre.completed {
        post == idle(pre) && act == Action::Done
    } else {
        let s1 = AppView { typed_text: text, ..pre };
        continues(with_stats(s1), rate_request(s1), false, post, act)
    }
}

/// The whole step for a new input text, given the clock reading `now` and
/// `e`, the whole seconds from the start of the test to the reading.
pub open spec fn input_post(
    pre: AppView,
    text: Seq<char>,
    now: Instant,
    e: u64,
    post: AppView,
    act: Action,
) -> bool {
    if !input_grows(pre, text) {
        input_no_clock_post(pre, text, post, act)
    } else {
        let s1 = input_start(pre, text, now);
        if timed(s1) {
            input_clock_post(s1, e, post, act)
        } else {
            input_untimed_post(s1, post, act)
        }
    }
}

/// What `update` does with a new text, given the clock reading `now`: where
/// the timer runs, it asks for the seconds since the start of the test.
pub open spec fn input_request(pre: AppView, text: Seq<char>, now: Instant, post: AppView, act: Action) -> bool {
    if !input_grows(pre, text) {
        input_no_clock_post(pre, text, post, act)
    } else {
        let s1 = input_start(pre, text, now);
        if timed(s1) {
            &&& post == (AppView { pending: Pending::Clock { tick: false }, ..s1 })
            &&& act == (Action::ReadClock { since: s1.start_time->0 })
        } else {
            input_untimed_post(s1, post, act)
        }
    }
}

/// After the clock of a running test read `e` seconds at a tick: the end of
/// the test when time is up, else the remaining time and the statistics.
pub open spec fn tick_clock_post(pre: AppView, e: u64, post: AppView, act: Action) -> bool {
    if e >= pre.duration.as_secs() {
        finishes(pre, post, act)
    } else {
        let s1 = AppView { remaining_time: (pre.duration.as_secs() - e) as u64, ..pre };
        continues(with_stats(s1), rate_request(s1), false, post, act)
    }
}

/// The whole step for a clock tick, `e` being the whole seconds since the start.
pub open spec fn tick_post(pre: AppView, e: u64, post: AppView, act: Action) -> bool {
    if timed(pre) {
        tick_clock_post(pre, e, post, act)
    } else {
        post == idle(pre) && act == Action::Done
    }
}

/// What `update` does with a tick: where the timer runs, it asks for the
/// seconds since the start of the test.
pub open spec fn tick_request(pre: AppView, post: AppView, act: Action) -> bool {
    if timed(pre) {
        &&& post == (AppView { pending: Pending::Clock { tick: true }, ..pre })
        &&& act == (Action::ReadClock { since: pre.start_time->0 })
    } else {
        post == idle(pre) && act == Action::Done
    }
}

/// `s` waiting for a draw of target words for `duration` from the word list
/// (or from `incoming`), and the request for it.
pub open spec fn asks_draw(
    s: AppView,
    duration: Duration,
    set_clock: bool,
    from_incoming: bool,
    post: AppView,
    act: Action,
) -> bool {
    let pool = if from_incoming {
        s.incoming
    } else {
        s.words
    };
    &&& post == (AppView {
        pending: Pending::Draw { duration, set_clock, from_incoming },
        ..s
    })
    &&& act == (Action::DrawWords {
        pool_len: pool.len() as usize,
        count: duration.word_count() as usize,
    })
}

/// The test after the draw `idx` of target words from `pool` for `duration`:
/// the words at the drawn positions, nothing typed of them.
pub open spec fn drawn_state(
    s: AppView,
    pool: Seq<Seq<char>>,
    idx: Seq<usize>,
    duration: Duration,
    set_clock: bool,
) -> AppView {
    AppView {
        words: pool,
        target_words: picks(pool, idx),
        typed_text: seq![],
        duration,
        remaining_time: if set_clock {
            duration.as_secs()
        } else {
            s.remaining_time
        },
        current_word_index: 0,
        current_page: 0,
        error_positions: seq![],
        pending: Pending::Idle,
        incoming: seq![],
        ..s
    }
}

/// The state after a reset, before new target words are drawn.
pub open spec fn reset_state(s: AppView) -> AppView {
    AppView {
        running: false,
        completed: false,
        start_time: None,
        remaining_time: s.duration.as_secs(),
        typed_text: seq![],
        wpm: 0,
        accuracy: 100,
        current_word_index: 0,
        current_page: 0,
        error_positions: seq![],
        pending: Pending::Idle,
        ..s
    }
}

/// What `App::update` does with each message.
pub open spec fn update_post(pre: AppView, msg: Message, post: AppView, act: Action) -> bool {
    match msg {
        Message::InputChanged(text) => if !input_grows(pre, text@) {
            input_no_clock_post(pre, text@, post, act)
        } else {
            exists|now: Instant| input_request(pre, text@, now, post, act)
        },
        Message::DurationSelected(d) => if pre.running {
            post == idle(pre) && act == Action::Done
        } else {
            asks_draw(pre, d, true, false, post, act)
        },
        Message::LoadFile => post == (AppView { pending: Pending::WordFile, ..pre }) && act
            == Action::ChooseWordFile,
        Message::Reset => asks_draw(reset_state(pre), pre.duration, false, false, post, act),
        Message::StopTest => if pre.running || pre.typed_text.len() > 0 {
            finishes(pre, post, act)
        } else {
            post == idle(pre) && act == Action::Done
        },
        Message::NextPage => {
            &&& act == Action::Done
            &&& if pre.current_page + 1 < pages_of(
                pre.target_words.len() as int,
                words_per_page(pre),
            ) {
                post == (AppView { current_page: (pre.current_page + 1) as usize, ..idle(pre) })
            } else {
                post == idle(pre)
            }
        },
        Message::PrevPage => {
            &&& act == Action::Done
            &&& if pre.current_page > 0 {
                post == (AppView { current_page: (pre.current_page - 1) as usize, ..idle(pre) })
            } else {
                post == idle(pre)
            }
        },
        Message::Tick => tick_request(pre, post, act),
    }
}

/// Accuracy kept within 0 to 100.
pub open spec fn clamp_percent(a: i32) -> i32 {
    if a < 0 {
        0
    } else if a > 100 {
        100
    } else {
        a
    }
}

/// What `App::resume` does with each answer.
pub open spec fn resume_post(pre: AppView, ev: Event, post: AppView, act: Action) -> bool {
    match (ev, pre.pending) {
        (
            Event::RatesMeasured { wpm, accuracy },
            Pending::Rates { with_accuracy, then_finish },
        ) => {
            let s1 = AppView {
                wpm: if wpm < 0 {
                    0
                } else {
                    wpm
                },
                accuracy: if with_accuracy && accuracy is Some {
                    clamp_percent(accuracy->0)
                } else {
                    pre.accuracy
                },
                ..pre
            };
            if then_finish {
                finishes(s1, post, act)
            } else {
                post == idle(s1) && act == Action::Done
            }
        },
        (Event::BestWpmLoaded(best), Pending::BestWpm) => {
            &&& post == (AppView {
                best_wpm: if best is Some {
                    best->0
                } else {
                    pre.best_wpm
                },
                ..idle(pre)
            })
            &&& act == Action::Done
        },
        (Event::WordFileRead(content), Pending::WordFile) => {
            if content is Some && split_words(content->0@).len() > 0 {
                asks_draw(
                    AppView { incoming: split_words(content->0@), ..pre },
                    pre.duration,
                    false,
                    true,
                    post,
                    act,
                )
            } else {
                post == idle(pre) && act == Action::Done
            }
        },
        (Event::ClockRead(e), Pending::Clock { tick }) => if tick {
            tick_clock_post(pre, e, post, act)
        } else {
            input_clock_post(pre, e, post, act)
        },
        (Event::WordsDrawn(idx), Pending::Draw { duration, set_clock, from_incoming }) => {
            let pool = if from_incoming {
                pre.incoming
            } else {
                pre.words
            };
            &&& act == Action::Done
            &&& if valid_draw(idx@, pool.len(), duration.word_count() as nat) {
                post == drawn_state(pre, pool, idx@, duration, set_clock)
            } else {
                post == idle(pre)
            }
        },
        _ => post == pre && act == Action::Done,
    }
}

impl AppView {
    /// The words typed so far.
    pub open spec fn typed_words(self) -> Seq<Seq<char>> {
        split_words(self.typed_text)
    }

    /// The part of the invariant that does not concern the target text.
    pub open spec fn wf_clock_and_scores(self) -> bool {
        &&& 1 <= self.remaining_time <= self.duration.as_secs()
        &&& 0 <= self.accuracy <= 100
        &&& self.wpm >= 0
        &&& self.running ==> self.start_time is Some
        &&& !(self.running && self.completed)
    }

    /// The invariant of the typing test.
    pub open spec fn wf(self) -> bool {
        &&& self.wf_clock_and_scores()
        &&& (is_selection(self.target_words, self.words, self.duration.word_count() as nat)
            || self.target_words.len() == 0)
        &&& self.current_page == 0
        &&& (self.pending matches Pending::Draw { duration, set_clock, .. } ==> (set_clock
            || duration == self.duration))
        &&& self.error_positions.no_duplicates()
        &&& forall|i: int|
            0 <= i < self.error_positions.len() ==> (#[trigger] self.error_positions[i])
                < self.target_words.len()
    }
}

impl App {
    #[verifier::type_invariant]
    spec fn inv(self) -> bool {
        self@.wf()
    }

    /// A fresh 15-second test over `words`, waiting for its target words: the
    /// action asks for the draw. `stored_best` is the best stored speed
    /// (`None` when it could not be read, which counts as 0).
    pub fn new(words: Vec<String>, stored_best: Option<i32>) -> (r: (App, Action))
        ensures
            r.0@.wf(),
            asks_draw(
                AppView {
                    words: string_views(words@),
                    target_words: seq![],
                    typed_text: seq![],
                    duration: Duration::Seconds15,
                    remaining_time: 15,
                    start_time: None,
                    running: false,
                    completed: false,
                    wpm: 0,
                    accuracy: 100,
                    best_wpm: if stored_best is Some {
                        stored_best->0
                    } else {
                        0
                    },
                    current_word_index: 0,
                    current_page: 0,
                    error_positions: seq![],
                    pending: Pending::Idle,
                    incoming: seq![],
                },
                Duration::Seconds15,
                false,
                false,
                r.0@,
                r.1,
            ),
    {
        let duration = Duration::Seconds15;
        let best_wpm = match stored_best {
            Some(b) => b,
            None => 0,
        };
        let pool_len = words.len();
        let app = App {
            words,
            target_words: Vec::new(),
            typed_text: String::new(),
            duration,
            remaining_time: duration.as_secs(),
            start_time: None,
            running: false,
            completed: false,
            wpm: 0,
            accuracy: 100,
            best_wpm,
            current_word_index: 0,
            current_page: 0,
            error_positions: Vec::new(),
            pending: Pending::Draw { duration, set_clock: false, from_incoming: false },
            incoming: Vec::new(),
        };
        assert(string_views(app.target_words@) =~= Seq::<Seq<char>>::empty());
        assert(string_views(app.incoming@) =~= Seq::<Seq<char>>::empty());
        assert(app.error_positions@ =~= Seq::<usize>::empty());
        (app, Action::DrawWords { pool_len, count: duration.word_count() as usize })
    }

    /// Waits for a draw of target words for `duration`.
    fn ask_draw(&mut self, duration: Duration, set_clock: bool, from_incoming: bool) -> (act: Action)
        requires
            old(self)@.wf(),
            set_clock || duration == old(self)@.duration,
        ensures
            final(self)@.wf(),
            asks_draw(old(self)@, duration, set_clock, from_incoming, final(self)@, act),
    {
        self.pending = Pending::Draw { duration, set_clock, from_incoming };
        let pool_len = if from_incoming {
            self.incoming.len()
        } else {
            self.words.len()
        };
        Action::DrawWords { pool_len, count: duration.word_count() as usize }
    }

    /// Takes a draw of target words for `duration`: a valid draw puts the
    /// drawn words in place; any other answer is dropped.
    fn apply_draw(
        &mut self,
        idx: Vec<usize>,
        duration: Duration,
        set_clock: bool,
        from_incoming: bool,
    ) -> (act: Action)
        requires
            old(self)@.wf(),
            set_clock || duration == old(self)@.duration,
        ensures
            final(self)@.wf(),
            act == Action::Done,
            ({
                let pool = if from_incoming {
                    old(self)@.incoming
                } else {
                    old(self)@.words
                };
                if valid_draw(idx@, pool.len(), duration.word_count() as nat) {
                    final(self)@ == drawn_state(old(self)@, pool, idx@, duration, set_clock)
                } else {
                    final(self)@ == idle(old(self)@)
                }
            }),
    {
        let pool = if from_incoming {
            clone_strings(&self.incoming)
        } else {
            clone_strings(&self.words)
        };
        let count = duration.word_count() as usize;
        if !check_draw(&idx, pool.len(), count) {
            self.pending = Pending::Idle;
            return Action::Done;
        }
        let targets = pick_words(&pool, &idx);
        let remaining = if set_clock {
            duration.as_secs()
        } else {
            self.remaining_time
        };
        proof {
            assert(valid_draw(idx@, string_views(pool@).len(), duration.word_count() as nat));
        }
        *self = App {
            words: pool,
            target_words: targets,
            typed_text: String::new(),
            duration,
            remaining_time: remaining,
            start_time: self.start_time,
            running: self.running,
            completed: self.completed,
            wpm: self.wpm,
            accuracy: self.accuracy,
            best_wpm: self.best_wpm,
            current_word_index: 0,
            current_page: 0,
            error_positions: Vec::new(),
            pending: Pending::Idle,
            incoming: Vec::new(),
        };
        Action::Done
    }

    /// Whether the typed text is the target words joined with single spaces.
    fn typed_matches_target(&self) -> (r: bool)
        ensures
            r == (self@.typed_text == join_words(self@.target_words)),
    {
        let typed = string_chars(self.typed_text.as_str());
        let joined = join_with_spaces(&self.target_words);
        chars_equal(&typed, &joined)
    }

    /// Brings the statistics up to date with the typed text, and says what
    /// must be measured for the speed and the accuracy.
    fn update_stats(&mut self) -> (req: Option<RateRequest>)
        requires
            old(self)@.wf(),
        ensures
            final(self)@.wf(),
            final(self)@ == with_stats(old(self)@),
            req == rate_request(old(self)@),
    {
        let ghost pre = self@;
        let chars = string_chars(self.typed_text.as_str());
        let typed = split_chars(&chars);
        proof {
            lemma_split_words_shape(pre.typed_text);
        }
        let n_typed = typed.len();
        self.current_word_index = if n_typed > 0 {
            n_typed - 1
        } else {
            0
        };
        let n = self.target_words.len();
        proof {
            if self@.target_words.len() > 0 {
                lemma_selection_len(self@.target_words, self@.words, self@.duration.word_count() as nat);
            }
        }
        let per_page = self.words_per_page();
        let total_pages = if per_page == 0 {
            0
        } else {
            (n + per_page - 1) / per_page
        };
        if n > 0 {
            assert((n + n - 1) / (n as int) <= 1) by (nonlinear_arith)
                requires
                    n >= 1,
            ;
        }
        if total_pages > 1 {
            let new_page = self.current_word_index / per_page;
            if new_page != self.current_page && new_page < total_pages {
                self.current_page = new_page;
            }
        }
        if n_typed > 0 {
            let targets = strings_chars(&self.target_words);
            let mut recorded = copy_indices(&self.error_positions);
            let correct = score_words(&typed, &targets, &mut recorded);
            proof {
                let tw = pre.typed_words();
                let m = compared_len(tw, pre.target_words);
                lemma_new_mismatches_shape(pre.error_positions, tw, pre.target_words, m);
                lemma_record_no_duplicates(pre.error_positions, tw, pre.target_words, m);
                let all = recorded@;
                assert forall|i: int| 0 <= i < all.len() implies (#[trigger] all[i])
                    < pre.target_words.len() by {
                    if i >= pre.error_positions.len() {
                        let nm = new_mismatches(pre.error_positions, tw, pre.target_words, m);
                        assert(nm[i - pre.error_positions.len()] == all[i]);
                    }
                }
            }
            self.error_positions = recorded;
            let total_chars = count_non_white_chars(&chars);
            if total_chars > 0 {
                let count = n_typed as i32;
                let basis = if count > 0 {
                    Some((correct, count))
                } else {
                    None
                };
                Some(
                    RateRequest {
                        start_time: self.start_time,
                        typed_bytes: self.typed_text.as_str().len(),
                        accuracy_basis: basis,
                    },
                )
            } else {
                None
            }
        } else {
            self.wpm = 0;
            self.accuracy = 100;
            None
        }
    }

    /// Ends the test and hands its score out to be stored.
    fn finish_test(&mut self) -> (act: Action)
        requires
            old(self)@.wf(),
        ensures
            final(self)@.wf(),
            finishes(old(self)@, final(self)@, act),
    {
        self.running = false;
        self.completed = true;
        let date = local_timestamp("%Y-%m-%d %H:%M:%S");
        self.pending = Pending::BestWpm;
        Action::SaveScore(ScoreRecord { wpm: self.wpm, accuracy: self.accuracy, date })
    }

    /// After the statistics: asks for the rates if needed, else finishes or stops.
    fn after_stats(&mut self, req: Option<RateRequest>, finish: bool) -> (act: Action)
        requires
            old(self)@.wf(),
        ensures
            final(self)@.wf(),
            continues(old(self)@, req, finish, final(self)@, act),
    {
        match req {
            Some(r) => {
                let with_accuracy = r.accuracy_basis.is_some();
                self.pending = Pending::Rates { with_accuracy, then_finish: finish };
                Action::MeasureRates(r)
            },
            None => {
                if finish {
                    self.finish_test()
                } else {
                    self.pending = Pending::Idle;
                    Action::Done
                }
            },
        }
    }

    /// Takes a reading of the whole seconds since the start of the test: when
    /// the time is up, says so and changes nothing; else sets the remaining time.
    pub fn observe_elapsed(&mut self, elapsed: u64) -> (timed_out: bool)
        ensures
            final(self)@.wf(),
            timed_out == (elapsed >= old(self)@.duration.as_secs()),
            final(self)@ == if timed_out {
                old(self)@
            } else {
                AppView {
                    remaining_time: (old(self)@.duration.as_secs() - elapsed) as u64,
                    ..old(self)@
                }
            },
    {
        proof {
            use_type_invariant(&*self);
        }
        if elapsed >= self.duration.as_secs() {
            true
        } else {
            self.remaining_time = self.duration.as_secs() - elapsed;
            false
        }
    }

    /// A new text that is not taken up as typing: ignored by a completed
    /// test; a shorter text only updates the statistics.
    fn input_no_clock(&mut self, text: String) -> (act: Action)
        requires
            old(self)@.wf(),
            !input_grows(old(self)@, text@),
        ensures
            final(self)@.wf(),
            input_no_clock_post(old(self)@, text@, final(self)@, act),
    {
        if self.completed {
            self.pending = Pending::Idle;
            return Action::Done;
        }
        self.typed_text = text;
        let req = self.update_stats();
        self.after_stats(req, false)
    }

    /// Takes a growing text, starting the clock at `now` when the test did not run.
    fn input_take(&mut self, text: String, now: Instant)
        requires
            old(self)@.wf(),
            input_grows(old(self)@, text@),
        ensures
            final(self)@.wf(),
            final(self)@ == input_start(old(self)@, text@, now),
    {
        self.typed_text = text;
        if !self.running && !self.typed_text.as_str().is_empty() {
            self.start_time = Some(now);
            self.running = true;
        }
    }

    /// Whether a new text is taken up as typing.
    fn grows_with(&self, text: &String) -> (r: bool)
        ensures
            r == input_grows(self@, text@),
    {
        !self.completed && !(text.as_str().len() < self.typed_text.as_str().len())
    }

    /// Whether the timer runs.
    fn is_timed(&self) -> (r: bool)
        ensures
            r == timed(self@),
    {
        self.running && !self.completed && self.start_time.is_some()
    }

    /// The rest of a new-text step once the clock read `elapsed` seconds.
    fn input_after_clock(&mut self, elapsed: u64) -> (act: Action)
        requires
            old(self)@.wf(),
        ensures
            final(self)@.wf(),
            input_clock_post(old(self)@, elapsed, final(self)@, act),
    {
        let req = self.update_stats();
        let timed_out = self.observe_elapsed(elapsed);
        let finish = if timed_out {
            true
        } else {
            self.typed_matches_target()
        };
        self.after_stats(req, finish)
    }

    /// The rest of a new-text step when the timer does not run.
    fn input_untimed(&mut self) -> (act: Action)
        requires
            old(self)@.wf(),
        ensures
            final(self)@.wf(),
            input_untimed_post(old(self)@, final(self)@, act),
    {
        let finish = self.typed_matches_target();
        let req = self.update_stats();
        self.after_stats(req, finish)
    }

    /// The rest of a tick once the clock read `elapsed` seconds.
    fn tick_after_clock(&mut self, elapsed: u64) -> (act: Action)
        requires
            old(self)@.wf(),
        ensures
            final(self)@.wf(),
            tick_clock_post(old(self)@, elapsed, final(self)@, act),
    {
        if self.observe_elapsed(elapsed) {
            self.finish_test()
        } else {
            let req = self.update_stats();
            self.after_stats(req, false)
        }
    }

    /// The step for a new input text, given the clock reading `now` and
    /// `elapsed`, the whole seconds from the start of the test (`now` when
    /// this text starts it) to the reading.
    pub fn input_with(&mut self, text: String, now: Instant, elapsed: u64) -> (act: Action)
        ensures
            final(self)@.wf(),
            input_post(old(self)@, text@, now, elapsed, final(self)@, act),
    {
        proof {
            use_type_invariant(&*self);
        }
        if !self.grows_with(&text) {
            return self.input_no_clock(text);
        }
        self.input_take(text, now);
        if self.is_timed() {
            self.input_after_clock(elapsed)
        } else {
            self.input_untimed()
        }
    }

    /// The step for a clock tick, given `elapsed`, the whole seconds from
    /// the start of the test to the reading of the clock.
    pub fn tick_with(&mut self, elapsed: u64) -> (act: Action)
        ensures
            final(self)@.wf(),
            tick_post(old(self)@, elapsed, final(self)@, act),
    {
        proof {
            use_type_invariant(&*self);
        }
        if self.is_timed() {
            self.tick_after_clock(elapsed)
        } else {
            self.pending = Pending::Idle;
            Action::Done
        }
    }

    /// Reacts to a message of the user. The action says what the outside
    /// world must do next; its answer goes to `resume`.
    pub fn update(&mut self, msg: Message) -> (act: Action)
        requires
            msg is NextPage ==> old(self)@.target_words.len() > 0,
        ensures
            final(self)@.wf(),
            update_post(old(self)@, msg, final(self)@, act),
    {
        proof {
            use_type_invariant(&*self);
        }
        let ghost pre = self@;
        match msg {
            Message::InputChanged(text) => {
                let ghost t = text@;
                if !self.grows_with(&text) {
                    return self.input_no_clock(text);
                }
                let now = Instant::now();
                self.input_take(text, now);
                if self.is_timed() {
                    self.pending = Pending::Clock { tick: false };
                    let since = match self.start_time {
                        Some(start) => start,
                        None => now,
                    };
                    let act = Action::ReadClock { since };
                    assert(input_request(pre, t, now, self@, act));
                    act
                } else {
                    let act = self.input_untimed();
                    assert(input_request(pre, t, now, self@, act));
                    act
                }
            },
            Message::DurationSelected(duration) => {
                if self.running {
                    self.pending = Pending::Idle;
                    return Action::Done;
                }
                self.ask_draw(duration, true, false)
            },
            Message::LoadFile => {
                self.pending = Pending::WordFile;
                Action::ChooseWordFile
            },
            Message::Reset => {
                self.running = false;
                self.completed = false;
                self.start_time = None;
                self.remaining_time = self.duration.as_secs();
                self.typed_text = String::new();
                self.wpm = 0;
                self.accuracy = 100;
                self.current_word_index = 0;
                self.current_page = 0;
                self.error_positions = Vec::new();
                self.pending = Pending::Idle;
                let duration = self.duration;
                self.ask_draw(duration, false, false)
            },
            Message::StopTest => {
                if self.running || !self.typed_text.as_str().is_empty() {
                    self.finish_test()
                } else {
                    self.pending = Pending::Idle;
                    Action::Done
                }
            },
            Message::NextPage => {
                let n = self.target_words.len();
                let per_page = self.words_per_page();
                let total_pages = (n + per_page - 1) / per_page;
                proof {
                    if self@.target_words.len() > 0 {
                        lemma_selection_len(self@.target_words, self@.words, self@.duration.word_count() as nat);
                    }
                }
                assert((n + n - 1) / (n as int) <= 1) by (nonlinear_arith)
                    requires
                        n >= 1,
                ;
                self.pending = Pending::Idle;
                if self.current_page + 1 < total_pages {
                    self.current_page += 1;
                }
                Action::Done
            },
            Message::PrevPage => {
                self.pending = Pending::Idle;
                if self.current_page > 0 {
                    self.current_page -= 1;
                }
                Action::Done
            },
            Message::Tick => {
                if self.is_timed() {
                    self.pending = Pending::Clock { tick: true };
                    let since = match self.start_time {
                        Some(start) => start,
                        None => Instant::now(),
                    };
                    Action::ReadClock { since }
                } else {
                    self.pending = Pending::Idle;
                    Action::Done
                }
            },
        }
    }

    /// Takes the answer of the outside world to the last action. An answer
    /// that the state machine is not waiting for changes nothing.
    pub fn resume(&mut self, ev: Event) -> (act: Action)
        ensures
            final(self)@.wf(),
            resume_post(old(self)@, ev, final(self)@, act),
    {
        proof {
            use_type_invariant(&*self);
        }
        match (ev, self.pending) {
            (Event::RatesMeasured { wpm, accuracy }, Pending::Rates { with_accuracy, then_finish }) => {
                self.wpm = if wpm < 0 {
                    0
                } else {
                    wpm
                };
                if with_accuracy {
                    match accuracy {
                        Some(a) => {
                            self.accuracy = if a < 0 {
                                0
                            } else if a > 100 {
                                100
                            } else {
                                a
                            };
                        },
                        None => {},
                    }
                }
                if then_finish {
                    self.finish_test()
                } else {
                    self.pending = Pending::Idle;
                    Action::Done
                }
            },
            (Event::BestWpmLoaded(best), Pending::BestWpm) => {
                match best {
                    Some(b) => {
                        self.best_wpm = b;
                    },
                    None => {},
                }
                self.pending = Pending::Idle;
                Action::Done
            },
            (Event::WordFileRead(content), Pending::WordFile) => {
                match content {
                    Some(c) => {
                        let words = split_whitespace(c.as_str());
                        if words.len() > 0 {
                            self.incoming = words;
                            let duration = self.duration;
                            self.ask_draw(duration, false, true)
                        } else {
                            self.pending = Pending::Idle;
                            Action::Done
                        }
                    },
                    None => {
                        self.pending = Pending::Idle;
                        Action::Done
                    },
                }
            },
            (Event::ClockRead(elapsed), Pending::Clock { tick }) => {
                if tick {
                    self.tick_after_clock(elapsed)
                } else {
                    self.input_after_clock(elapsed)
                }
            },
            (Event::WordsDrawn(idx), Pending::Draw { duration, set_clock, from_incoming }) => {
                self.apply_draw(idx, duration, set_clock, from_incoming)
            },
            _ => Action::Done,
        }
    }
}

impl App {
    /// Lays out the current page of the target text.
    pub fn page_layout(&self) -> (r: PageLayout)
        ensures
            layout_of(self@, r),
    {
        proof {
            use_type_invariant(self);
        }
        let ghost s = self@;
        let n = self.target_words.len();
        proof {
            if self@.target_words.len() > 0 {
                lemma_selection_len(self@.target_words, self@.words, self@.duration.word_count() as nat);
            }
        }
        let per_page = self.words_per_page();
        let total_pages = if per_page == 0 {
            0
        } else {
            (n + per_page - 1) / per_page
        };
        let nominal: u32 = match self.duration {
            Duration::Seconds15 => 3,
            Duration::Seconds30 => 5,
            Duration::Minute1 => 6,
        };
        let word_size: u32 = if nominal >= 6 {
            28
        } else {
            32
        };
        let start_idx = self.current_page * per_page;
        let end_idx = if start_idx + per_page < n {
            start_idx + per_page
        } else {
            n
        };
        let len = end_idx - start_idx;
        let w: usize = match self.duration {
            Duration::Seconds15 => 5,
            Duration::Seconds30 => 6,
            Duration::Minute1 => 10,
        };
        let typed_chars = string_chars(self.typed_text.as_str());
        let typed = split_chars(&typed_chars);
        let targets = strings_chars(&self.target_words);
        let num_lines = (len + w - 1) / w;
        let mut lines: Vec<Vec<WordCell>> = Vec::new();
        let mut first: usize = 0;
        for line in 0..num_lines
            invariant
                s == self@,
                n == s.target_words.len(),
                n <= 60,
                start_idx == 0,
                len == n,
                len == page_len(s),
                0 == page_start(s),
                w as int == line_width(s.duration),
                num_lines == (len + w - 1) / (w as int),
                typed.deep_view() == s.typed_words(),
                targets.deep_view() == s.target_words,
                first == line * w,
                lines@.len() == line,
                forall|l: int|
                    0 <= l < lines@.len() ==> {
                        &&& (#[trigger] lines@[l])@.len() == if len - l * w < w {
                            len - l * w
                        } else {
                            w as int
                        }
                        &&& forall|k: int|
                            0 <= k < lines@[l]@.len() ==> #[trigger] lines@[l]@[k] == (WordCell {
                                index: (l * w + k) as usize,
                                state: word_state(s.typed_words(), s.target_words, l * w + k),
                            })
                    },
        {
            assert(line * (w as int) < len) by (nonlinear_arith)
                requires
                    line < (len + w - 1) / (w as int),
                    w > 0,
            ;
            let last = if first + w < len {
                first + w
            } else {
                len
            };
            let mut cells: Vec<WordCell> = Vec::new();
            let count = last - first;
            for k in 0..count
                invariant
                    count == last - first,
                    last <= len,
                    len == n,
                    n == s.target_words.len(),
                    typed.deep_view() == s.typed_words(),
                    targets.deep_view() == s.target_words,
                    cells@.len() == k,
                    forall|j: int|
                        0 <= j < k ==> #[trigger] cells@[j] == (WordCell {
                            index: (first + j) as usize,
                            state: word_state(s.typed_words(), s.target_words, first + j),
                        }),
            {
                let idx = first + k;
                let state = if idx < typed.len() {
                    assert(typed@[idx as int].deep_view() =~= typed@[idx as int]@);
                    assert(targets@[idx as int].deep_view() =~= targets@[idx as int]@);
                    if chars_equal(&typed[idx], &targets[idx]) {
                        WordState::Correct
                    } else {
                        WordState::Wrong
                    }
                } else if idx == typed.len() {
                    WordState::Current
                } else {
                    WordState::Upcoming
                };
                cells.push(WordCell { index: idx, state });
            }
            lines.push(cells);
            assert((line + 1) * (w as int) == line * (w as int) + w) by (nonlinear_arith);
            first = first + w;
        }
        PageLayout {
            lines,
            word_size,
            total_pages,
            current_page: self.current_page,
            has_prev: total_pages > 1 && self.current_page > 0,
            has_next: total_pages > 1 && self.current_page + 1 < total_pages,
        }
    }

    /// Number of target words on a page: a page holds all of them.
    pub fn words_per_page(&self) -> (r: usize)
        ensures
            r == words_per_page(self@),
    {
        self.target_words.len()
    }

    /// The words the target text is drawn from.
    pub fn words(&self) -> (r: &Vec<String>)
        ensures
            string_views(r@) == self@.words,
    {
        &self.words
    }

    /// The words to type.
    pub fn target_words(&self) -> (r: &Vec<String>)
        ensures
            string_views(r@) == self@.target_words,
    {
        &self.target_words
    }

    /// The text typed so far.
    pub fn typed_text(&self) -> (r: &String)
        ensures
            r@ == self@.typed_text,
    {
        &self.typed_text
    }

    /// The length of the test.
    pub fn duration(&self) -> (r: Duration)
        ensures
            r == self@.duration,
    {
        self.duration
    }

    /// Seconds left in the test.
    pub fn remaining_time(&self) -> (r: u64)
        ensures
            r == self@.remaining_time,
    {
        self.remaining_time
    }

    /// When the test started, if it did.
    pub fn start_time(&self) -> (r: Option<Instant>)
        ensures
            r == self@.start_time,
    {
        self.start_time
    }

    /// Whether the test runs.
    pub fn running(&self) -> (r: bool)
        ensures
            r == self@.running,
    {
        self.running
    }

    /// Whether the test is over.
    pub fn completed(&self) -> (r: bool)
        ensures
            r == self@.completed,
    {
        self.completed
    }

    /// Words per minute.
    pub fn wpm(&self) -> (r: i32)
        ensures
            r == self@.wpm,
    {
        self.wpm
    }

    /// Accuracy in percent.
    pub fn accuracy(&self) -> (r: i32)
        ensures
            r == self@.accuracy,
    {
        self.accuracy
    }

    /// The best stored speed.
    pub fn best_wpm(&self) -> (r: i32)
        ensures
            r == self@.best_wpm,
    {
        self.best_wpm
    }

    /// Position of the word being typed.
    pub fn current_word_index(&self) -> (r: usize)
        ensures
            r == self@.current_word_index,
    {
        self.current_word_index
    }

    /// The page shown.
    pub fn current_page(&self) -> (r: usize)
        ensures
            r == self@.current_page,
    {
        self.current_page
    }

    /// Positions typed wrong at some point of this text.
    pub fn error_positions(&self) -> (r: &Vec<usize>)
        ensures
            r@ == self@.error_positions,
    {
        &self.error_positions
    }

    /// The answer awaited.
    pub fn pending(&self) -> (r: Pending)
        ensures
            r == self@.pending,
    {
        self.pending
    }
}

} // verus!
