//! Splitting a command line into whitespace-separated words, and finding keywords.
use vstd::prelude::*;

verus! {

/// Unicode `White_Space`, the set that `char::is_whitespace` tests.
pub open spec fn is_space(c: char) -> bool {
    ('\t' <= c && c <= '\r') || c == ' ' || c == '\u{85}' || c == '\u{a0}' || c == '\u{1680}'
        || ('\u{2000}' <= c && c <= '\u{200a}') || c == '\u{2028}' || c == '\u{2029}' || c
        == '\u{202f}' || c == '\u{205f}' || c == '\u{3000}'
}

/// Length of the run of non-space characters at the start of `s`.
pub open spec fn word_len(s: Seq<char>) -> nat
    decreases s.len(),
{
    if s.len() == 0 || is_space(s[0]) {
        0
    } else {
        1 + word_len(s.drop_first())
    }
}

/// The words of `s`: its maximal runs of non-space characters, in order.
pub open spec fn words_of(s: Seq<char>) -> Seq<Seq<char>>
    decreases s.len(),
    via words_of_decreases
{
    if s.len() == 0 {
        seq![]
    } else if is_space(s[0]) {
        words_of(s.drop_first())
    } else {
        let n = word_len(s);
        seq![s.subrange(0, n as int)] + words_of(s.subrange(n as int, s.len() as int))
    }
}

proof fn lemma_word_len_bound(s: Seq<char>)
    ensures
        word_len(s) <= s.len(),
    decreases s.len(),
{
    if s.len() > 0 && !is_space(s[0]) {
        lemma_word_len_bound(s.drop_first());
    }
}

#[via_fn]
proof fn words_of_decreases(s: Seq<char>) {
    lemma_word_len_bound(s);
}

/// What a list of words holds, as character sequences.
pub open spec fn view_words(ws: Seq<Vec<char>>) -> Seq<Seq<char>> {
    ws.map_values(|w: Vec<char>| w@)
}

pub fn is_space_char(c: char) -> (r: bool)
    ensures
        r == is_space(c),
{
    ('\t' <= c && c <= '\r') || c == ' ' || c == '\u{85}' || c == '\u{a0}' || c == '\u{1680}'
        || ('\u{2000}' <= c && c <= '\u{200a}') || c == '\u{2028}' || c == '\u{2029}' || c
        == '\u{202f}' || c == '\u{205f}' || c == '\u{3000}'
}

proof fn lemma_word_len(s: Seq<char>, n: int)
    requires
        0 <= n <= s.len(),
        forall|k: int| 0 <= k < n ==> !is_space(#[trigger] s[k]),
        n == s.len() || is_space(s[n]),
    ensures
        word_len(s) == n,
    decreases n,
{
    if n > 0 {
        let t = s.drop_first();
        assert forall|k: int| 0 <= k < n - 1 implies !is_space(#[trigger] t[k]) by {
            assert(t[k] == s[k + 1]);
        }
        lemma_word_len(t, n - 1);
    }
}

/// Splits `line` into its words.
pub fn split_words(line: &Vec<char>) -> (r: Vec<Vec<char>>)
    ensures
        view_words(r@) == words_of(line@),
{
    let mut r: Vec<Vec<char>> = Vec::new();
    let mut i: usize = 0;
    assert(line@.subrange(0, line@.len() as int) =~= line@);
    assert(view_words(r@) + words_of(line@) =~= words_of(line@));
    while i < line.len()
        invariant
            i <= line@.len(),
            view_words(r@) + words_of(line@.subrange(i as int, line@.len() as int)) == words_of(
                line@,
            ),
        decreases line@.len() - i,
    {
        let ghost rest = line@.subrange(i as int, line@.len() as int);
        if is_space_char(line[i]) {
            assert(rest.drop_first() =~= line@.subrange(i + 1, line@.len() as int));
            i = i + 1;
        } else {
            let mut w: Vec<char> = Vec::new();
            let mut j: usize = i;
            while j < line.len() && !is_space_char(line[j])
                invariant
                    i <= j <= line@.len(),
                    w@ == line@.subrange(i as int, j as int),
                    forall|k: int| i <= k < j ==> !is_space(#[trigger] line@[k]),
                decreases line@.len() - j,
            {
                w.push(line[j]);
                j = j + 1;
                assert(w@ =~= line@.subrange(i as int, j as int));
            }
            proof {
                assert forall|k: int| 0 <= k < j - i implies !is_space(#[trigger] rest[k]) by {
                    assert(rest[k] == line@[i + k]);
                }
                lemma_word_len(rest, j - i);
                assert(rest.subrange(0, j - i) =~= w@);
                assert(rest.subrange(j - i, rest.len() as int) =~= line@.subrange(
                    j as int,
                    line@.len() as int,
                ));
            }
            let ghost before = r@;
            r.push(w);
            proof {
                assert(view_words(r@) =~= view_words(before) + seq![line@.subrange(i as int, j as int)]);
            }
            i = j;
        }
    }
    assert(line@.subrange(i as int, line@.len() as int) =~= Seq::<char>::empty());
    assert(view_words(r@) + words_of(Seq::<char>::empty()) =~= view_words(r@));
    r
}

/// Whether `w` is the word `k`.
pub fn is_word(w: &Vec<char>, k: &str) -> (r: bool)
    ensures
        r == (w@ == k@),
{
    let n = k.unicode_len();
    if w.len() != n {
        return false;
    }
    let mut i: usize = 0;
    while i < n
        invariant
            n == k@.len(),
            w@.len() == n,
            i <= n,
            forall|j: int| 0 <= j < i ==> w@[j] == k@[j],
        decreases n - i,
    {
        if w[i] != k.get_char(i) {
            return false;
        }
        i = i + 1;
    }
    assert(w@ =~= k@);
    true
}

/// `i` is the first place of `k` in `ws`.
pub open spec fn first_at(ws: Seq<Seq<char>>, k: Seq<char>, i: int) -> bool {
    0 <= i < ws.len() && ws[i] == k && forall|j: int| 0 <= j < i ==> ws[j] != k
}

/// Where `k` first stands in `ws`, if it does.
pub open spec fn find(ws: Seq<Seq<char>>, k: Seq<char>) -> Option<int> {
    if exists|i: int| 0 <= i < ws.len() && ws[i] == k {
        Some(choose|i: int| first_at(ws, k, i))
    } else {
        None
    }
}

/// The word that follows the first `k` in `ws`, if there is one.
pub open spec fn arg_of(ws: Seq<Seq<char>>, k: Seq<char>) -> Option<Seq<char>> {
    match find(ws, k) {
        Some(i) => if i < ws.len() - 1 { Some(ws[i + 1]) } else { None },
        None => None,
    }
}

proof fn lemma_first_unique(ws: Seq<Seq<char>>, k: Seq<char>, i: int)
    requires
        first_at(ws, k, i),
    ensures
        find(ws, k) == Some(i),
{
    assert(exists|m: int| 0 <= m < ws.len() && ws[m] == k);
    let c = choose|m: int| first_at(ws, k, m);
    assert(first_at(ws, k, c));
    if c < i {
        assert(ws[c] != k);
    } else if c > i {
        assert(ws[i] != k);
    }
}

/// The index of the first word of `ws` that is `k`.
pub fn position_of(ws: &Vec<Vec<char>>, k: &str) -> (r: Option<usize>)
    ensures
        r matches Some(i) ==> i < ws@.len() && find(view_words(ws@), k@) == Some(i as int),
        r is None ==> find(view_words(ws@), k@) is None,
{
    let ghost v = view_words(ws@);
    let mut i: usize = 0;
    while i < ws.len()
        invariant
            i <= ws@.len(),
            v == view_words(ws@),
            forall|j: int| 0 <= j < i ==> v[j] != k@,
        decreases ws@.len() - i,
    {
        if is_word(&ws[i], k) {
            proof {
                lemma_first_unique(v, k@, i as int);
            }
            return Some(i);
        }
        i = i + 1;
    }
    None
}

/// The word after the first `k` in `ws`.
pub fn word_after<'a>(ws: &'a Vec<Vec<char>>, k: &str) -> (r: Option<&'a Vec<char>>)
    ensures
        r matches Some(w) ==> arg_of(view_words(ws@), k@) == Some(w@),
        r is None ==> arg_of(view_words(ws@), k@) is None,
{
    match position_of(ws, k) {
        Some(i) => if i < ws.len() - 1 {
            Some(&ws[i + 1])
        } else {
            None
        },
        None => None,
    }
}

} // verus!
