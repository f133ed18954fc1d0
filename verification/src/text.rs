use vstd::prelude::*;

verus! {

broadcast use vstd::string::group_string_axioms;

/// Unicode `White_Space` property: U+0009..U+000D, U+0020, U+0085, U+00A0,
/// U+1680, U+2000..U+200A, U+2028, U+2029, U+202F, U+205F and U+3000.
pub open spec fn is_white_space(c: char) -> bool {
    let u = c as u32;
    ||| 0x09 <= u <= 0x0D
    ||| u == 0x20
    ||| u == 0x85
    ||| u == 0xA0
    ||| u == 0x1680
    ||| 0x2000 <= u <= 0x200A
    ||| u == 0x2028
    ||| u == 0x2029
    ||| u == 0x202F
    ||| u == 0x205F
    ||| u == 0x3000
}

/// Whether `c` separates words (the `White_Space` property, as `char::is_whitespace`).
pub fn is_white_space_char(c: char) -> (r: bool)
    ensures
        r == is_white_space(c),
{
    let u = c as u32;
    (0x09 <= u && u <= 0x0D) || u == 0x20 || u == 0x85 || u == 0xA0 || u == 0x1680 || (0x2000
        <= u && u <= 0x200A) || u == 0x2028 || u == 0x2029 || u == 0x202F || u == 0x205F || u
        == 0x3000
}

/// Scanning `s` from left to right: the words completed so far and the word
/// still being read (empty when the last character read is white space).
pub open spec fn scan_words(s: Seq<char>) -> (Seq<Seq<char>>, Seq<char>)
    decreases s.len(),
{
    if s.len() == 0 {
        (seq![], seq![])
    } else {
        let (done, cur) = scan_words(s.drop_last());
        if is_white_space(s.last()) {
            if cur.len() > 0 {
                (done.push(cur), seq![])
            } else {
                (done, seq![])
            }
        } else {
            (done, cur.push(s.last()))
        }
    }
}

/// The words of `s`: its maximal runs of characters that are not white space,
/// in order (what `str::split_whitespace` yields).
pub open spec fn split_words(s: Seq<char>) -> Seq<Seq<char>> {
    let (done, cur) = scan_words(s);
    if cur.len() > 0 {
        done.push(cur)
    } else {
        done
    }
}

/// Number of characters of `s` that are not white space.
pub open spec fn count_non_white(s: Seq<char>) -> nat
    decreases s.len(),
{
    if s.len() == 0 {
        0
    } else {
        count_non_white(s.drop_last()) + if is_white_space(s.last()) {
            0nat
        } else {
            1nat
        }
    }
}

/// A word: not empty and free of white space.
pub open spec fn is_word(w: Seq<char>) -> bool {
    &&& w.len() > 0
    &&& forall|i: int| 0 <= i < w.len() ==> !is_white_space(#[trigger] w[i])
}

/// The words joined with single spaces (as `[String]::join(" ")`).
pub open spec fn join_words(ws: Seq<Seq<char>>) -> Seq<char>
    decreases ws.len(),
{
    if ws.len() == 0 {
        seq![]
    } else if ws.len() == 1 {
        ws[0]
    } else {
        join_words(ws.drop_last()) + seq![' '] + ws.last()
    }
}

/// The views of a sequence of strings.
pub open spec fn string_views(v: Seq<String>) -> Seq<Seq<char>> {
    v.map_values(|s: String| s@)
}

proof fn lemma_scan_shape(s: Seq<char>)
    ensures
        forall|i: int| 0 <= i < scan_words(s).0.len() ==> is_word(#[trigger] scan_words(s).0[i]),
        forall|i: int|
            0 <= i < scan_words(s).1.len() ==> !is_white_space(#[trigger] scan_words(s).1[i]),
        (count_non_white(s) > 0) <==> (scan_words(s).0.len() > 0 || scan_words(s).1.len() > 0),
    decreases s.len(),
{
    if s.len() > 0 {
        lemma_scan_shape(s.drop_last());
        let (done, cur) = scan_words(s.drop_last());
        if !is_white_space(s.last()) {
            assert forall|i: int| 0 <= i < cur.push(s.last()).len() implies !is_white_space(
                #[trigger] cur.push(s.last())[i],
            ) by {
                if i < cur.len() {
                    assert(cur.push(s.last())[i] == cur[i]);
                }
            }
        }
    }
}

/// Every word that `split_words` yields is a word, and there is one exactly
/// when some character is not white space.
pub proof fn lemma_split_words_shape(s: Seq<char>)
    ensures
        forall|i: int| 0 <= i < split_words(s).len() ==> is_word(#[trigger] split_words(s)[i]),
        (count_non_white(s) > 0) <==> (split_words(s).len() > 0),
{
    lemma_scan_shape(s);
}

proof fn lemma_scan_append_word(x: Seq<char>, w: Seq<char>)
    requires
        forall|i: int| 0 <= i < w.len() ==> !is_white_space(#[trigger] w[i]),
    ensures
        scan_words(x + w) == (scan_words(x).0, scan_words(x).1 + w),
    decreases w.len(),
{
    if w.len() == 0 {
        assert(x + w =~= x);
        assert(scan_words(x).1 + w =~= scan_words(x).1);
    } else {
        let w0 = w.drop_last();
        assert forall|i: int| 0 <= i < w0.len() implies !is_white_space(#[trigger] w0[i]) by {
            assert(w0[i] == w[i]);
        }
        lemma_scan_append_word(x, w0);
        assert((x + w).drop_last() =~= x + w0);
        assert((x + w).last() == w.last());
        assert(!is_white_space(w[w.len() - 1]));
        assert((scan_words(x).1 + w0).push(w.last()) =~= scan_words(x).1 + w);
    }
}

proof fn lemma_scan_join(ws: Seq<Seq<char>>)
    requires
        ws.len() > 0,
        forall|i: int| 0 <= i < ws.len() ==> is_word(#[trigger] ws[i]),
    ensures
        scan_words(join_words(ws)) == (ws.drop_last(), ws.last()),
    decreases ws.len(),
{
    if ws.len() == 1 {
        let w = ws[0];
        assert(is_word(ws[0]));
        lemma_scan_append_word(seq![], w);
        assert(Seq::<char>::empty() + w =~= w);
        assert(ws.drop_last() =~= seq![]);
    } else {
        let ws0 = ws.drop_last();
        assert forall|i: int| 0 <= i < ws0.len() implies is_word(#[trigger] ws0[i]) by {
            assert(ws0[i] == ws[i]);
        }
        lemma_scan_join(ws0);
        let j0 = join_words(ws0);
        let sp = j0 + seq![' '];
        assert(sp.drop_last() =~= j0);
        assert(sp.last() == ' ');
        assert(is_word(ws0[ws0.len() - 1]));
        assert(ws0.drop_last().push(ws0.last()) =~= ws0);
        assert(scan_words(sp) == (ws0, Seq::<char>::empty()));
        assert(is_word(ws[ws.len() - 1]));
        lemma_scan_append_word(sp, ws.last());
        assert(Seq::<char>::empty() + ws.last() =~= ws.last());
    }
}

/// Joining words with single spaces and splitting the result gives the
/// words back.
pub proof fn lemma_split_join(ws: Seq<Seq<char>>)
    requires
        forall|i: int| 0 <= i < ws.len() ==> is_word(#[trigger] ws[i]),
    ensures
        split_words(join_words(ws)) == ws,
{
    if ws.len() > 0 {
        lemma_scan_join(ws);
        assert(is_word(ws[ws.len() - 1]));
        assert(ws.drop_last().push(ws.last()) =~= ws);
    }
}

#[verifier::external_body]
/// Trusted: `String::push`, which appends `c` to the end of the string.
fn string_push(s: &mut String, c: char)
    ensures
        final(s)@ == old(s)@.push(c),
{
    s.push(c);
}

/// A string holding the given characters.
pub fn string_from_chars(cs: &Vec<char>) -> (r: String)
    ensures
        r@ == cs@,
{
    let mut r = String::new();
    let n = cs.len();
    for i in 0..n
        invariant
            n == cs@.len(),
            r@ == cs@.take(i as int),
    {
        string_push(&mut r, cs[i]);
        assert(cs@.take(i as int + 1) =~= cs@.take(i as int).push(cs@[i as int]));
    }
    assert(cs@.take(n as int) =~= cs@);
    r
}

/// A copy of a list of strings.
pub fn clone_strings(v: &Vec<String>) -> (r: Vec<String>)
    ensures
        string_views(r@) == string_views(v@),
{
    let mut r: Vec<String> = Vec::new();
    let n = v.len();
    for i in 0..n
        invariant
            n == v@.len(),
            string_views(r@) =~= string_views(v@).take(i as int),
    {
        let w = v[i].clone();
        let ghost before = r@;
        r.push(w);
        assert(string_views(r@) =~= string_views(before).push(w@));
        assert(string_views(v@).take(i as int + 1) =~= string_views(v@).take(i as int).push(
            v@[i as int]@,
        ));
    }
    assert(string_views(v@).take(n as int) =~= string_views(v@));
    r
}

/// The words of a text (`str::split_whitespace`, each word as a `String`).
pub fn split_whitespace(s: &str) -> (r: Vec<String>)
    ensures
        string_views(r@) == split_words(s@),
{
    let cs = string_chars(s);
    let parts = split_chars(&cs);
    let mut r: Vec<String> = Vec::new();
    let n = parts.len();
    for i in 0..n
        invariant
            n == parts@.len(),
            parts.deep_view() == split_words(s@),
            string_views(r@) =~= parts.deep_view().take(i as int),
    {
        let w = string_from_chars(&parts[i]);
        let ghost before = r@;
        r.push(w);
        assert(parts.deep_view()[i as int] == parts@[i as int]@);
        assert(string_views(r@) =~= string_views(before).push(w@));
        assert(parts.deep_view().take(i as int + 1) =~= parts.deep_view().take(i as int).push(
            parts.deep_view()[i as int],
        ));
    }
    assert(parts.deep_view().take(n as int) =~= parts.deep_view());
    r
}

/// The characters of the words joined with single spaces.
pub fn join_with_spaces(words: &Vec<String>) -> (r: Vec<char>)
    ensures
        r@ == join_words(string_views(words@)),
{
    let mut r: Vec<char> = Vec::new();
    let n = words.len();
    let ghost ws = string_views(words@);
    for i in 0..n
        invariant
            n == words@.len(),
            ws == string_views(words@),
            r@ == join_words(ws.take(i as int)),
    {
        let w = string_chars(words[i].as_str());
        assert(ws.take(i as int + 1).drop_last() =~= ws.take(i as int));
        assert(ws.take(i as int + 1).last() == w@);
        if i > 0 {
            r.push(' ');
        }
        let m = w.len();
        let ghost start = r@;
        for k in 0..m
            invariant
                m == w@.len(),
                r@ == start + w@.take(k as int),
        {
            r.push(w[k]);
            assert(w@.take(k as int + 1) =~= w@.take(k as int).push(w@[k as int]));
        }
        assert(w@.take(m as int) =~= w@);
        if i == 0 {
            assert(ws.take(1) =~= seq![w@]);
            assert(start =~= seq![]);
            assert(r@ =~= w@);
        }
    }
    assert(ws.take(n as int) =~= ws);
    r
}

/// The characters of a string, in order.
pub fn string_chars(s: &str) -> (r: Vec<char>)
    ensures
        r@ == s@,
{
    let mut r: Vec<char> = Vec::new();
    for c in it: s.chars()
        invariant
            r@ == it.seq().take(it.index() as int),
    {
        r.push(c);
    }
    r
}

/// The words of a character sequence (`str::split_whitespace`).
pub fn split_chars(s: &Vec<char>) -> (r: Vec<Vec<char>>)
    ensures
        r.deep_view() == split_words(s@),
{
    let mut done: Vec<Vec<char>> = Vec::new();
    let mut cur: Vec<char> = Vec::new();
    let n = s.len();
    for i in 0..n
        invariant
            n == s@.len(),
            (done.deep_view(), cur@) == scan_words(s@.take(i as int)),
    {
        assert(s@.take(i as int + 1).drop_last() == s@.take(i as int));
        let c = s[i];
        if is_white_space_char(c) {
            if cur.len() > 0 {
                let word = cur;
                assert(word.deep_view() =~= word@);
                let ghost before = done.deep_view();
                done.push(word);
                cur = Vec::new();
                assert(done.deep_view() =~= before.push(word@));
            }
        } else {
            cur.push(c);
        }
    }
    assert(s@.take(n as int) == s@);
    if cur.len() > 0 {
        let word = cur;
        assert(word.deep_view() =~= word@);
        let ghost before = done.deep_view();
        done.push(word);
        assert(done.deep_view() =~= before.push(word@));
    }
    done
}

/// Number of characters of `s` that are not white space.
pub fn count_non_white_chars(s: &Vec<char>) -> (r: usize)
    ensures
        r == count_non_white(s@),
{
    let mut count: usize = 0;
    let n = s.len();
    for i in 0..n
        invariant
            n == s@.len(),
            count == count_non_white(s@.take(i as int)),
            count <= i,
    {
        assert(s@.take(i as int + 1).drop_last() == s@.take(i as int));
        if !is_white_space_char(s[i]) {
            count = count + 1;
        }
    }
    assert(s@.take(n as int) == s@);
    count
}

/// Whether two character sequences are equal.
pub fn chars_equal(a: &Vec<char>, b: &Vec<char>) -> (r: bool)
    ensures
        r == (a@ == b@),
{
    if a.len() != b.len() {
        return false;
    }
    let n = a.len();
    for i in 0..n
        invariant
            n == a@.len(),
            n == b@.len(),
            forall|j: int| 0 <= j < i ==> a@[j] == b@[j],
    {
        if a[i] != b[i] {
            return false;
        }
    }
    assert(a@ =~= b@);
    true
}

} // verus!
