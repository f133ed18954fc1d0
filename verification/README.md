# kruti_typing

Verified core of a Hindi (Kruti Dev) typing-practice program.

- `src/` is the library, verified with Verus: test durations (`models`), word
  splitting and joining (`text`), per-word scoring (`stats`), the typing test as
  a state machine with a type invariant and private fields (`session`, which
  also lays out the page), the layout's types and specification (`layout`),
  the properties that span these (`laws`) and the trusted declarations of the
  clock, wall clock and random index draw (`sys`), and the draw of target
  words as distinct positions of the word list (`draw`).
- `app/` is the program around it: the iced window, the SQLite score store,
  the file and message dialogs, and the floating-point speed and accuracy.
  `Gui::update` hands each user message to `App::update` and answers each
  action it returns through `App::resume`: measuring speed and accuracy,
  storing a score, picking a word file, reading the clock since a given
  instant (`sys::seconds_since`) and drawing positions for the target words
  (`draw::draw_indices`). A one-second tick drives the end of a timed-out test.
