//! Cutting a reply into sentences for synthesis.

use vstd::prelude::*;
use vstd::string::StrSliceExecFns;

verus! {

/// Whether a character has the Unicode property `White_Space`.
pub uninterp spec fn is_whitespace(c: char) -> bool;

/// `char::is_whitespace`: whether the character has the Unicode property
/// `White_Space`.
#[verifier::external_body]
pub(crate) fn char_is_whitespace(c: char) -> (white: bool)
    ensures
        white == is_whitespace(c),
{
    c.is_whitespace()
}

/// Whether a character ends a sentence.
pub open spec fn is_terminator(c: char) -> bool {
    c == '.' || c == '!' || c == '?' || c == '\n'
}

/// `s` without its leading whitespace.
pub open spec fn trim_start(s: Seq<char>) -> Seq<char>
    decreases s.len(),
{
    if s.len() > 0 && is_whitespace(s.first()) {
        trim_start(s.drop_first())
    } else {
        s
    }
}

/// `s` without its trailing whitespace.
pub open spec fn trim_end(s: Seq<char>) -> Seq<char>
    decreases s.len(),
{
    if s.len() > 0 && is_whitespace(s.last()) {
        trim_end(s.drop_last())
    } else {
        s
    }
}

/// `s` without leading and trailing whitespace.
pub open spec fn trim(s: Seq<char>) -> Seq<char> {
    trim_end(trim_start(s))
}

/// Place of the first terminator in `s`, or the length of `s` if it has none.
pub open spec fn first_terminator(s: Seq<char>) -> int
    decreases s.len(),
{
    if s.len() == 0 || is_terminator(s.first()) {
        0
    } else {
        1 + first_terminator(s.drop_first())
    }
}

/// The sentence that a stretch of text gives: the stretch trimmed, unless
/// nothing is left of it.
pub open spec fn piece(s: Seq<char>) -> Seq<Seq<char>> {
    if trim(s).len() == 0 {
        Seq::empty()
    } else {
        seq![trim(s)]
    }
}

/// The sentences of a text. A sentence ends with its terminator, a full
/// stop, an exclamation mark, a question mark or a line break; what
/// follows the last terminator is a sentence too. Each is trimmed, and those
/// that are empty after trimming are left out.
pub open spec fn sentences(s: Seq<char>) -> Seq<Seq<char>>
    decreases s.len(),
{
    let cut = first_terminator(s);
    if 0 <= cut < s.len() {
        piece(s.take(cut + 1)) + sentences(s.skip(cut + 1))
    } else {
        piece(s)
    }
}

/// The texts of a list of strings.
pub open spec fn texts(v: Seq<String>) -> Seq<Seq<char>> {
    v.map_values(|s: String| s@)
}

proof fn lemma_first_terminator(s: Seq<char>, k: int)
    requires
        0 <= k <= s.len(),
        forall|i: int| 0 <= i < k ==> !is_terminator(#[trigger] s[i]),
        k < s.len() ==> is_terminator(s[k]),
    ensures
        first_terminator(s) == k,
    decreases k,
{
    if k > 0 {
        let rest = s.drop_first();
        assert forall|i: int| 0 <= i < k - 1 implies !is_terminator(#[trigger] rest[i]) by {
            assert(rest[i] == s[i + 1]);
        }
        lemma_first_terminator(rest, k - 1);
    }
}

proof fn lemma_trim_start(s: Seq<char>, k: int)
    requires
        0 <= k <= s.len(),
        forall|i: int| 0 <= i < k ==> is_whitespace(#[trigger] s[i]),
        k < s.len() ==> !is_whitespace(s[k]),
    ensures
        trim_start(s) == s.skip(k),
    decreases k,
{
    if k > 0 {
        let rest = s.drop_first();
        assert forall|i: int| 0 <= i < k - 1 implies is_whitespace(#[trigger] rest[i]) by {
            assert(rest[i] == s[i + 1]);
        }
        lemma_trim_start(rest, k - 1);
        assert(rest.skip(k - 1) =~= s.skip(k));
    } else {
        assert(s.skip(0) =~= s);
    }
}

proof fn lemma_trim_end(s: Seq<char>, m: int)
    requires
        0 <= m <= s.len(),
        forall|i: int| m <= i < s.len() ==> is_whitespace(#[trigger] s[i]),
        m > 0 ==> !is_whitespace(s[m - 1]),
    ensures
        trim_end(s) == s.take(m),
    decreases s.len() - m,
{
    if m < s.len() {
        let rest = s.drop_last();
        lemma_trim_end(rest, m);
        assert(rest.take(m) =~= s.take(m));
    } else {
        assert(s.take(m) =~= s);
    }
}

/// The characters `from..to` of `text` without surrounding whitespace, or
/// `None` when nothing is left.
pub(crate) fn trimmed_range(text: &str, from: usize, to: usize) -> (result: Option<String>)
    requires
        from <= to <= text@.len(),
    ensures
        result is None <==> trim(text@.subrange(from as int, to as int)).len() == 0,
        result matches Some(t) ==> t@ == trim(text@.subrange(from as int, to as int)),
{
    let ghost s = text@.subrange(from as int, to as int);
    let mut a: usize = from;
    while a < to && char_is_whitespace(text.get_char(a))
        invariant
            from <= a <= to <= text@.len(),
            forall|i: int| from <= i < a ==> is_whitespace(#[trigger] text@[i]),
        decreases to - a,
    {
        a = a + 1;
    }
    let mut b: usize = to;
    while b > a && char_is_whitespace(text.get_char(b - 1))
        invariant
            a <= b <= to <= text@.len(),
            forall|i: int| b <= i < to ==> is_whitespace(#[trigger] text@[i]),
        decreases b - a,
    {
        b = b - 1;
    }
    proof {
        assert forall|i: int| 0 <= i < a - from implies is_whitespace(#[trigger] s[i]) by {
            assert(s[i] == text@[from + i]);
        }
        lemma_trim_start(s, a - from);
        let t = s.skip(a - from);
        assert forall|i: int| b - a <= i < t.len() implies is_whitespace(#[trigger] t[i]) by {
            assert(t[i] == text@[a + i]);
        }
        lemma_trim_end(t, b - a);
        assert(t.take(b - a) =~= text@.subrange(a as int, b as int));
    }
    if a < b {
        Some(text.substring_char(a, b).to_owned())
    } else {
        None
    }
}

/// `text` without surrounding whitespace, or `None` when nothing is left.
pub fn trimmed_text(text: &str) -> (result: Option<String>)
    ensures
        result is None <==> trim(text@).len() == 0,
        result matches Some(t) ==> t@ == trim(text@),
{
    let n = text.unicode_len();
    proof {
        assert(text@.subrange(0, n as int) =~= text@);
    }
    trimmed_range(text, 0, n)
}

/// Appends to `out` the sentence that the characters `from..to` of `text`
/// give, if any.
fn push_piece(text: &str, from: usize, to: usize, out: &mut Vec<String>)
    requires
        from <= to <= text@.len(),
    ensures
        texts(final(out)@) == texts(old(out)@) + piece(text@.subrange(from as int, to as int)),
{
    match trimmed_range(text, from, to) {
        Some(sentence) => {
            let ghost before = out@;
            out.push(sentence);
            proof {
                assert(texts(out@) =~= texts(before) + seq![sentence@]);
            }
        },
        None => {
            proof {
                assert(texts(out@) =~= texts(out@) + Seq::<Seq<char>>::empty());
            }
        },
    }
}

/// Splits a text into its sentences, in order.
pub fn split_sentences(text: &str) -> (result: Vec<String>)
    ensures
        texts(result@) == sentences(text@),
{
    let n = text.unicode_len();
    let mut out: Vec<String> = Vec::new();
    let mut start: usize = 0;
    let mut i: usize = 0;
    proof {
        assert(text@.skip(0) =~= text@);
        assert(texts(out@) =~= Seq::<Seq<char>>::empty());
    }
    while i < n
        invariant
            n == text@.len(),
            start <= i <= n,
            forall|k: int| start <= k < i ==> !is_terminator(#[trigger] text@[k]),
            texts(out@) + sentences(text@.skip(start as int)) == sentences(text@),
        decreases n - i,
    {
        let c = text.get_char(i);
        i = i + 1;
        if c == '.' || c == '!' || c == '?' || c == '\n' {
            let ghost rest = text@.skip(start as int);
            let ghost before = texts(out@);
            proof {
                assert forall|k: int| 0 <= k < i - 1 - start implies !is_terminator(
                    #[trigger] rest[k],
                ) by {
                    assert(rest[k] == text@[start + k]);
                }
                lemma_first_terminator(rest, i - 1 - start);
                assert(rest.take(i - start) =~= text@.subrange(start as int, i as int));
                assert(rest.skip(i - start) =~= text@.skip(i as int));
            }
            push_piece(text, start, i, &mut out);
            proof {
                assert(texts(out@) + sentences(text@.skip(i as int)) =~= before + sentences(rest));
            }
            start = i;
        }
    }
    proof {
        let rest = text@.skip(start as int);
        assert forall|k: int| 0 <= k < rest.len() implies !is_terminator(#[trigger] rest[k]) by {
            assert(rest[k] == text@[start + k]);
        }
        lemma_first_terminator(rest, rest.len() as int);
        assert(rest =~= text@.subrange(start as int, n as int));
    }
    push_piece(text, start, n, &mut out);
    out
}

/// Whether a text is not empty and neither starts nor ends with whitespace.
pub open spec fn is_trimmed_text(t: Seq<char>) -> bool {
    t.len() > 0 && !is_whitespace(t.first()) && !is_whitespace(t.last())
}

proof fn lemma_trim_start_shape(s: Seq<char>)
    ensures
        trim_start(s).len() <= s.len(),
        trim_start(s).len() > 0 ==> !is_whitespace(trim_start(s).first()) && trim_start(s).last()
            == s.last(),
    decreases s.len(),
{
    if s.len() > 0 && is_whitespace(s.first()) {
        lemma_trim_start_shape(s.drop_first());
    }
}

proof fn lemma_trim_end_shape(s: Seq<char>)
    ensures
        trim_end(s).len() <= s.len(),
        trim_end(s).len() > 0 ==> !is_whitespace(trim_end(s).last()) && trim_end(s).first()
            == s.first(),
    decreases s.len(),
{
    if s.len() > 0 && is_whitespace(s.last()) {
        lemma_trim_end_shape(s.drop_last());
    }
}

/// What trimming leaves is empty or starts and ends with a character that
/// is no whitespace, and trimming it again changes nothing.
pub proof fn lemma_trim_is_trimmed(s: Seq<char>)
    ensures
        trim(s).len() == 0 || is_trimmed_text(trim(s)),
        trim(trim(s)) == trim(s),
{
    lemma_trim_start_shape(s);
    lemma_trim_end_shape(trim_start(s));
    let t = trim(s);
    if t.len() > 0 {
        assert(trim_start(t) == t);
        assert(trim_end(t) == t);
    } else {
        assert(trim_start(t) == t);
        assert(trim_end(t) == t);
    }
}

/// Every sentence of a text is trimmed and not empty.
pub proof fn lemma_sentences_are_trimmed(s: Seq<char>)
    ensures
        forall|i: int| 0 <= i < sentences(s).len() ==> is_trimmed_text(#[trigger] sentences(s)[i]),
    decreases s.len(),
{
    let cut = first_terminator(s);
    if 0 <= cut < s.len() {
        let head = piece(s.take(cut + 1));
        let rest = sentences(s.skip(cut + 1));
        lemma_trim_is_trimmed(s.take(cut + 1));
        lemma_sentences_are_trimmed(s.skip(cut + 1));
        assert forall|i: int| 0 <= i < sentences(s).len() implies is_trimmed_text(
            #[trigger] sentences(s)[i],
        ) by {
            if i < head.len() {
                assert(sentences(s)[i] == head[i]);
            } else {
                assert(sentences(s)[i] == rest[i - head.len()]);
            }
        }
    } else {
        lemma_trim_is_trimmed(s);
    }
}

/// A text without a terminator gives at most one sentence: the text
/// trimmed, unless nothing is left of it.
pub proof fn lemma_sentences_of_plain_text(s: Seq<char>)
    requires
        forall|i: int| 0 <= i < s.len() ==> !is_terminator(#[trigger] s[i]),
    ensures
        sentences(s) == piece(s),
        sentences(s).len() <= 1,
{
    lemma_first_terminator(s, s.len() as int);
}

/// The sentences of a text that continues after a terminator are the
/// sentence up to that terminator, if it is not blank, and then the
/// sentences of what follows.
pub proof fn lemma_sentences_split_at(s: Seq<char>, k: int)
    requires
        0 <= k < s.len(),
        is_terminator(s[k]),
        forall|i: int| 0 <= i < k ==> !is_terminator(#[trigger] s[i]),
    ensures
        sentences(s) == piece(s.take(k + 1)) + sentences(s.skip(k + 1)),
{
    lemma_first_terminator(s, k);
}

} // verus!
