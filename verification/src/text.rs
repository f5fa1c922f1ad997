//! Characters and words: the whitespace class, trimming and splitting.

use vstd::prelude::*;

verus! {

/// The code points with the Unicode property `White_Space`.
pub open spec fn is_whitespace(c: char) -> bool {
    let n = c as u32;
    ||| 0x09 <= n <= 0x0D
    ||| n == 0x20
    ||| n == 0x85
    ||| n == 0xA0
    ||| n == 0x1680
    ||| 0x2000 <= n <= 0x200A
    ||| n == 0x2028
    ||| n == 0x2029
    ||| n == 0x202F
    ||| n == 0x205F
    ||| n == 0x3000
}

/// Whether `c` separates words.
pub fn whitespace(c: char) -> (r: bool)
    ensures
        r == is_whitespace(c),
{
    let n: u32 = c as u32;
    (0x09 <= n && n <= 0x0D) || n == 0x20 || n == 0x85 || n == 0xA0 || n == 0x1680 || (0x2000 <= n
        && n <= 0x200A) || n == 0x2028 || n == 0x2029 || n == 0x202F || n == 0x205F || n == 0x3000
}

/// The characters of `s`, in order.
pub fn chars_of(s: &str) -> (v: Vec<char>)
    ensures
        v@ == s@,
{
    let mut v: Vec<char> = Vec::new();
    for c in it: s.chars()
        invariant
            v@ == it.seq().take(it.index() as int),
            it.seq() == s@,
    {
        v.push(c);
    }
    v
}

/// `part` stands in `s` at index `at`.
pub open spec fn stands_at(s: Seq<char>, at: int, part: Seq<char>) -> bool {
    0 <= at && at + part.len() <= s.len() && s.subrange(at, at + part.len()) == part
}

/// Whether `part` stands in `text` at index `at`.
pub fn part_at(text: &Vec<char>, at: usize, part: &str) -> (r: bool)
    ensures
        r == stands_at(text@, at as int, part@),
{
    let p = chars_of(part);
    if at > text.len() || p.len() > text.len() - at {
        return false;
    }
    let mut i: usize = 0;
    while i < p.len()
        invariant
            i <= p.len(),
            at + p.len() <= text.len(),
            p@ == part@,
            forall|j: int| 0 <= j < i ==> text@[at + j] == p@[j],
        decreases p.len() - i,
    {
        if text[at + i] != p[i] {
            assert(text@.subrange(at as int, at + p.len())[i as int] != p@[i as int]);
            return false;
        }
        i += 1;
    }
    assert(text@.subrange(at as int, at + p.len()) =~= p@);
    true
}

/// `part` stands somewhere in `s`.
pub open spec fn holds_part(s: Seq<char>, part: Seq<char>) -> bool {
    exists|at: int| stands_at(s, at, part)
}

/// Whether `part` stands somewhere in `text`.
pub fn contains_part(text: &str, part: &str) -> (r: bool)
    ensures
        r == holds_part(text@, part@),
{
    let chars = chars_of(text);
    let mut at: usize = 0;
    while at < chars.len()
        invariant
            at <= chars.len(),
            chars@ == text@,
            forall|k: int| 0 <= k < at ==> !stands_at(text@, k, part@),
        decreases chars.len() - at,
    {
        if part_at(&chars, at, part) {
            return true;
        }
        at += 1;
    }
    part_at(&chars, at, part)
}

/// Whether `a` and `b` hold the same characters.
pub fn same_text(a: &str, b: &str) -> (r: bool)
    ensures
        r == (a@ == b@),
{
    let text = chars_of(a);
    let other = chars_of(b);
    if text.len() != other.len() {
        return false;
    }
    let r = part_at(&text, 0, b);
    assert(text@.subrange(0, text@.len() as int) =~= text@);
    r
}

/// `s` without the whitespace it begins with.
pub open spec fn trim_start(s: Seq<char>) -> Seq<char>
    decreases s.len(),
{
    if s.len() > 0 && is_whitespace(s[0]) {
        trim_start(s.skip(1))
    } else {
        s
    }
}

/// `s` without the whitespace it ends with.
pub open spec fn trim_end(s: Seq<char>) -> Seq<char>
    decreases s.len(),
{
    if s.len() > 0 && is_whitespace(s.last()) {
        trim_end(s.drop_last())
    } else {
        s
    }
}

/// `s` without the whitespace at either end.
pub open spec fn trimmed(s: Seq<char>) -> Seq<char> {
    trim_end(trim_start(s))
}

proof fn lemma_trim_start(s: Seq<char>, i: int)
    requires
        0 <= i <= s.len(),
        forall|k: int| 0 <= k < i ==> is_whitespace(s[k]),
        i == s.len() || !is_whitespace(s[i]),
    ensures
        trim_start(s) == s.skip(i),
    decreases i,
{
    if i == 0 {
        assert(s.skip(0) =~= s);
    } else {
        let t = s.skip(1);
        assert forall|k: int| 0 <= k < i - 1 implies is_whitespace(t[k]) by {
            assert(t[k] == s[k + 1]);
        }
        lemma_trim_start(t, i - 1);
        assert(t.skip(i - 1) =~= s.skip(i));
    }
}

proof fn lemma_trim_end(s: Seq<char>, j: int)
    requires
        0 <= j <= s.len(),
        forall|k: int| j <= k < s.len() ==> is_whitespace(s[k]),
        j == 0 || !is_whitespace(s[j - 1]),
    ensures
        trim_end(s) == s.take(j),
    decreases s.len() - j,
{
    if j == s.len() {
        assert(s.take(j) =~= s);
    } else {
        let t = s.drop_last();
        lemma_trim_end(t, j);
        assert(t.take(j) =~= s.take(j));
    }
}

/// What is left after trimming neither begins nor ends with whitespace,
/// and trimming it again changes nothing.
pub proof fn lemma_trimmed_ends(s: Seq<char>)
    ensures
        trimmed(s).len() > 0 ==> !is_whitespace(trimmed(s).first()) && !is_whitespace(
            trimmed(s).last(),
        ),
        trimmed(trimmed(s)) == trimmed(s),
{
    let a = trim_start(s);
    lemma_trim_start_begins(s);
    lemma_trim_end_keeps_start(a);
    lemma_trim_end_ends(a);
    let t = trim_end(a);
    lemma_untouched(t);
}

proof fn lemma_trim_start_begins(s: Seq<char>)
    ensures
        trim_start(s).len() > 0 ==> !is_whitespace(trim_start(s).first()),
    decreases s.len(),
{
    if s.len() > 0 && is_whitespace(s[0]) {
        lemma_trim_start_begins(s.skip(1));
    }
}

proof fn lemma_trim_end_ends(s: Seq<char>)
    ensures
        trim_end(s).len() > 0 ==> !is_whitespace(trim_end(s).last()),
    decreases s.len(),
{
    if s.len() > 0 && is_whitespace(s.last()) {
        lemma_trim_end_ends(s.drop_last());
    }
}

proof fn lemma_trim_end_keeps_start(s: Seq<char>)
    ensures
        trim_end(s).len() > 0 ==> trim_end(s).first() == s.first(),
    decreases s.len(),
{
    if s.len() > 0 && is_whitespace(s.last()) {
        lemma_trim_end_keeps_start(s.drop_last());
    }
}

proof fn lemma_untouched(s: Seq<char>)
    requires
        s.len() > 0 ==> !is_whitespace(s.first()) && !is_whitespace(s.last()),
    ensures
        trimmed(s) == s,
{
}

/// `line` without the whitespace at either end.
pub fn trim<'a>(line: &'a str) -> (r: &'a str)
    ensures
        r@ == trimmed(line@),
{
    let text = chars_of(line);
    let mut i: usize = 0;
    while i < text.len() && whitespace(text[i])
        invariant
            i <= text.len(),
            forall|k: int| 0 <= k < i ==> is_whitespace(text@[k]),
        decreases text.len() - i,
    {
        i += 1;
    }
    let mut j: usize = text.len();
    while j > i && whitespace(text[j - 1])
        invariant
            i <= j <= text.len(),
            forall|k: int| j <= k < text.len() ==> is_whitespace(text@[k]),
        decreases j,
    {
        j -= 1;
    }
    proof {
        lemma_trim_start(text@, i as int);
        let rest = text@.skip(i as int);
        assert forall|k: int| j - i <= k < rest.len() implies is_whitespace(rest[k]) by {
            assert(rest[k] == text@[k + i]);
        }
        lemma_trim_end(rest, j - i);
        assert(rest.take(j - i) =~= text@.subrange(i as int, j as int));
    }
    line.substring_char(i, j)
}

/// How many characters stand before the first whitespace of `s`.
pub open spec fn word_len(s: Seq<char>) -> nat
    decreases s.len(),
{
    if s.len() == 0 || is_whitespace(s[0]) {
        0
    } else {
        1 + word_len(s.skip(1))
    }
}

/// The words of `s`: its longest runs of characters that are not
/// whitespace, from left to right.
pub open spec fn words(s: Seq<char>) -> Seq<Seq<char>>
    decreases s.len(),
    via words_decreases
{
    if s.len() == 0 {
        Seq::empty()
    } else if is_whitespace(s[0]) {
        words(s.skip(1))
    } else {
        seq![s.take(word_len(s) as int)] + words(s.skip(word_len(s) as int))
    }
}

#[via_fn]
proof fn words_decreases(s: Seq<char>) {
    lemma_word_len_bounds(s);
}

proof fn lemma_word_len_bounds(s: Seq<char>)
    ensures
        word_len(s) <= s.len(),
        s.len() > 0 && !is_whitespace(s[0]) ==> word_len(s) >= 1,
    decreases s.len(),
{
    if s.len() > 0 && !is_whitespace(s[0]) {
        lemma_word_len_bounds(s.skip(1));
    }
}

/// A run of `n` characters that are not whitespace, with whitespace or the
/// end of the text behind it, is what stands before the first whitespace.
pub proof fn lemma_word_len(s: Seq<char>, n: int)
    requires
        0 <= n <= s.len(),
        forall|k: int| 0 <= k < n ==> !is_whitespace(s[k]),
        n == s.len() || is_whitespace(s[n]),
    ensures
        word_len(s) == n,
    decreases n,
{
    if n > 0 {
        let t = s.skip(1);
        assert forall|k: int| 0 <= k < n - 1 implies !is_whitespace(t[k]) by {
            assert(t[k] == s[k + 1]);
        }
        lemma_word_len(t, n - 1);
    }
}

/// A word: at least one character, none of them whitespace.
pub open spec fn is_word(w: Seq<char>) -> bool {
    w.len() > 0 && forall|k: int| 0 <= k < w.len() ==> !is_whitespace(w[k])
}

/// No word is empty, and no word holds whitespace.
pub proof fn lemma_words_are_words(s: Seq<char>)
    ensures
        forall|i: int| 0 <= i < words(s).len() ==> is_word(#[trigger] words(s)[i]),
    decreases s.len(),
{
    if s.len() == 0 {
        assert(words(s).len() == 0);
    } else if is_whitespace(s[0]) {
        lemma_words_are_words(s.skip(1));
        assert(words(s) == words(s.skip(1)));
    } else {
        let n = word_len(s) as int;
        lemma_word_len_bounds(s);
        lemma_word_holds_no_whitespace(s);
        lemma_words_are_words(s.skip(n));
        let first = s.take(n);
        let rest = words(s.skip(n));
        assert(is_word(first));
        assert(words(s) == seq![first] + rest);
        assert forall|i: int| 0 <= i < words(s).len() implies is_word(#[trigger] words(s)[i]) by {
            if i > 0 {
                assert(words(s)[i] == rest[i - 1]);
            } else {
                assert(words(s)[0] == first);
            }
        }
    }
}

proof fn lemma_word_holds_no_whitespace(s: Seq<char>)
    ensures
        forall|k: int| 0 <= k < word_len(s) ==> !is_whitespace(s[k]),
        word_len(s) < s.len() ==> is_whitespace(s[word_len(s) as int]),
    decreases s.len(),
{
    if s.len() > 0 && !is_whitespace(s[0]) {
        let t = s.skip(1);
        lemma_word_holds_no_whitespace(t);
        lemma_word_len_bounds(t);
        assert forall|k: int| 0 <= k < word_len(s) implies !is_whitespace(s[k]) by {
            if k > 0 {
                assert(s[k] == t[k - 1]);
            }
        }
        if word_len(s) < s.len() {
            assert(s[word_len(s) as int] == t[word_len(t) as int]);
        }
    }
}

/// A text that holds a character other than whitespace has a word.
pub proof fn lemma_text_has_word(s: Seq<char>, k: int)
    requires
        0 <= k < s.len(),
        !is_whitespace(s[k]),
    ensures
        words(s).len() > 0,
    decreases s.len(),
{
    if is_whitespace(s[0]) {
        assert(s.skip(1)[k - 1] == s[k]);
        lemma_text_has_word(s.skip(1), k - 1);
    }
}

/// The words of `line`.
pub fn split_words(line: &str) -> (r: Vec<String>)
    ensures
        r.deep_view() == words(line@),
{
    let text = chars_of(line);
    let mut out: Vec<String> = Vec::new();
    let mut i: usize = 0;
    assert(text@.skip(0) =~= text@);
    assert(out.deep_view() =~= Seq::<Seq<char>>::empty());
    while i < text.len()
        invariant
            i <= text.len(),
            text@ == line@,
            words(text@) == out.deep_view() + words(text@.skip(i as int)),
        decreases text.len() - i,
    {
        let ghost rest = text@.skip(i as int);
        if whitespace(text[i]) {
            assert(rest.skip(1) =~= text@.skip(i + 1));
            i += 1;
        } else {
            let mut j: usize = i + 1;
            while j < text.len() && !whitespace(text[j])
                invariant
                    i < j <= text.len(),
                    forall|k: int| i <= k < j ==> !is_whitespace(text@[k]),
                decreases text.len() - j,
            {
                j += 1;
            }
            let word = line.substring_char(i, j).to_owned();
            proof {
                assert forall|k: int| 0 <= k < j - i implies !is_whitespace(rest[k]) by {
                    assert(rest[k] == text@[k + i]);
                }
                lemma_word_len(rest, j - i);
                assert(rest.take(j - i) =~= text@.subrange(i as int, j as int));
                assert(rest.skip(j - i) =~= text@.skip(j as int));
            }
            let ghost before = out.deep_view();
            out.push(word);
            assert(out.deep_view() =~= before + seq![word@]);
            i = j;
        }
    }
    assert(out.deep_view() + Seq::<Seq<char>>::empty() =~= out.deep_view());
    out
}

} // verus!
