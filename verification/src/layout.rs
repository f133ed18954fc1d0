//! What the screen shows of the target text: the words of the current page,
//! in lines, each word marked by how it was typed.

use vstd::prelude::*;

use crate::models::Duration;
use crate::session::{pages_of, AppView};

verus! {

/// How a target word stands with respect to the typed text.
#[derive(Debug, Clone, Copy, PartialEq, Eq, Structural)]
pub enum WordState {
    /// Typed, and equal to the target word.
    Correct,
    /// Typed, and different from the target word.
    Wrong,
    /// The next word to type.
    Current,
    /// Not reached yet.
    Upcoming,
}

/// One target word on screen: its position among the target words and its state.
#[derive(Debug, Clone, Copy, PartialEq, Eq, Structural)]
pub struct WordCell {
    pub index: usize,
    pub state: WordState,
}

/// The target text as shown: lines of words, the text size, and the page
/// navigation.
#[derive(Debug)]
pub struct PageLayout {
    pub lines: Vec<Vec<WordCell>>,
    pub word_size: u32,
    pub total_pages: usize,
    pub current_page: usize,
    pub has_prev: bool,
    pub has_next: bool,
}

/// The state of target word `idx` given the typed words.
pub open spec fn word_state(typed: Seq<Seq<char>>, target: Seq<Seq<char>>, idx: int) -> WordState {
    if idx < typed.len() {
        if typed[idx] == target[idx] {
            WordState::Correct
        } else {
            WordState::Wrong
        }
    } else if idx == typed.len() {
        WordState::Current
    } else {
        WordState::Upcoming
    }
}

/// Number of words on a line for a test length.
pub open spec fn line_width(d: Duration) -> int {
    match d {
        Duration::Seconds15 => 5,
        Duration::Seconds30 => 6,
        Duration::Minute1 => 10,
    }
}

/// Nominal number of lines for a test length.
pub open spec fn nominal_lines(d: Duration) -> int {
    match d {
        Duration::Seconds15 => 3,
        Duration::Seconds30 => 5,
        Duration::Minute1 => 6,
    }
}

/// Text size of the target words: smaller when six lines or more are expected.
pub open spec fn word_text_size(d: Duration) -> u32 {
    if nominal_lines(d) >= 6 {
        28
    } else {
        32
    }
}

/// Number of target words on a page: a page holds all the target words.
pub open spec fn words_per_page(s: AppView) -> int {
    s.target_words.len() as int
}

/// First target word of the current page.
pub open spec fn page_start(s: AppView) -> int {
    s.current_page * words_per_page(s)
}

/// Number of target words on the current page.
pub open spec fn page_len(s: AppView) -> int {
    let start = page_start(s);
    let n = s.target_words.len() as int;
    let end = if start + words_per_page(s) < n {
        start + words_per_page(s)
    } else {
        n
    };
    end - start
}

/// The layout of the state `s`.
pub open spec fn layout_of(s: AppView, r: PageLayout) -> bool {
    let n = s.target_words.len() as int;
    let total = pages_of(n, words_per_page(s));
    let w = line_width(s.duration);
    let len = page_len(s);
    &&& r.total_pages == total
    &&& r.current_page == s.current_page
    &&& r.has_prev == (total > 1 && s.current_page > 0)
    &&& r.has_next == (total > 1 && s.current_page + 1 < total)
    &&& r.word_size == word_text_size(s.duration)
    &&& r.lines@.len() == (len + w - 1) / w
    &&& forall|l: int|
        0 <= l < r.lines@.len() ==> {
            &&& (#[trigger] r.lines@[l])@.len() == if len - l * w < w {
                len - l * w
            } else {
                w
            }
            &&& forall|k: int|
                0 <= k < r.lines@[l]@.len() ==> #[trigger] r.lines@[l]@[k] == (WordCell {
                    index: (page_start(s) + l * w + k) as usize,
                    state: word_state(s.typed_words(), s.target_words, page_start(s) + l * w + k),
                })
        }
}

} // verus!
