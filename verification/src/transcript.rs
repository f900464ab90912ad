//! What becomes of recognised text before it reaches the dialogue stage:
//! trimming, and the wake word.

use crate::sentences::{char_is_whitespace, is_whitespace, trim, trimmed_range, trimmed_text};
use vstd::prelude::*;
use vstd::string::StrSliceExecFns;

verus! {

/// A text in small letters, as Unicode defines them.
pub uninterp spec fn lowercase(s: Seq<char>) -> Seq<char>;

/// A text with every match of a pattern taken out.
pub uninterp spec fn without_matches(s: Seq<char>, pattern: Seq<char>) -> Seq<char>;

/// Whether `pattern` stands in `s` at place `i`.
pub open spec fn occurs_at(s: Seq<char>, pattern: Seq<char>, i: int) -> bool {
    0 <= i && i + pattern.len() <= s.len() && s.subrange(i, i + pattern.len()) == pattern
}

/// Whether `pattern` stands somewhere in `s`.
pub open spec fn occurs_in(s: Seq<char>, pattern: Seq<char>) -> bool {
    exists|i: int| occurs_at(s, pattern, i)
}

/// `str::to_lowercase`: the text in small letters.
#[verifier::external_body]
fn to_lowercase(s: &str) -> (lower: String)
    ensures
        lower@ == lowercase(s@),
{
    s.to_lowercase()
}

/// `str::contains` with a text as pattern: whether the pattern matches a
/// part of the text.
#[verifier::external_body]
fn contains_text(s: &str, pattern: &str) -> (found: bool)
    ensures
        found == occurs_in(s@, pattern@),
{
    s.contains(pattern)
}

/// `str::replace` with an empty replacement: the text with all matches of
/// the pattern taken out.
#[verifier::external_body]
fn remove_matches(s: &str, pattern: &str) -> (rest: String)
    ensures
        rest@ == without_matches(s@, pattern@),
{
    s.replace(pattern, "")
}

/// Whether a character is ASCII punctuation.
pub open spec fn is_ascii_punctuation(c: char) -> bool {
    let u = c as u32;
    (33 <= u <= 47) || (58 <= u <= 64) || (91 <= u <= 96) || (123 <= u <= 126)
}

/// Whether a character is dropped from the front of a command.
pub open spec fn is_noise(c: char) -> bool {
    is_whitespace(c) || is_ascii_punctuation(c)
}

/// `s` without its leading whitespace and punctuation.
pub open spec fn trim_leading_noise(s: Seq<char>) -> Seq<char>
    decreases s.len(),
{
    if s.len() > 0 && is_noise(s.first()) {
        trim_leading_noise(s.drop_first())
    } else {
        s
    }
}

/// The command left once the wake word is taken out: what follows leading
/// whitespace and punctuation, trimmed; a greeting when nothing is left.
pub open spec fn command_of(rest: Seq<char>) -> Seq<char> {
    let cleaned = trim(trim_leading_noise(rest));
    if cleaned.len() == 0 {
        "Hello"@
    } else {
        cleaned
    }
}

/// What recognised text means to the pipeline. Empty text means nothing.
/// Without a wake word the trimmed text is the transcript. With one, text
/// that does not hold it, in whatever case, means nothing; otherwise the
/// transcript is the command in small letters with the wake word taken out.
pub open spec fn heard(text: Seq<char>, wake_word: Option<Seq<char>>) -> Option<Seq<char>> {
    let said = trim(text);
    if said.len() == 0 {
        None
    } else {
        match wake_word {
            None => Some(said),
            Some(word) => if occurs_in(lowercase(said), lowercase(word)) {
                Some(command_of(without_matches(lowercase(said), lowercase(word))))
            } else {
                None
            },
        }
    }
}

proof fn lemma_trim_leading_noise(s: Seq<char>, k: int)
    requires
        0 <= k <= s.len(),
        forall|i: int| 0 <= i < k ==> is_noise(#[trigger] s[i]),
        k < s.len() ==> !is_noise(s[k]),
    ensures
        trim_leading_noise(s) == s.skip(k),
    decreases k,
{
    if k > 0 {
        let rest = s.drop_first();
        assert forall|i: int| 0 <= i < k - 1 implies is_noise(#[trigger] rest[i]) by {
            assert(rest[i] == s[i + 1]);
        }
        lemma_trim_leading_noise(rest, k - 1);
        assert(rest.skip(k - 1) =~= s.skip(k));
    } else {
        assert(s.skip(0) =~= s);
    }
}

/// Computes `is_noise`.
fn char_is_noise(c: char) -> (noise: bool)
    ensures
        noise == is_noise(c),
{
    let u = c as u32;
    char_is_whitespace(c) || (33 <= u && u <= 47) || (58 <= u && u <= 64) || (91 <= u && u <= 96)
        || (123 <= u && u <= 126)
}

/// The command in a text from which the wake word was taken out.
pub fn clean_command(rest: &str) -> (command: String)
    ensures
        command@ == command_of(rest@),
{
    let n = rest.unicode_len();
    let mut a: usize = 0;
    while a < n && char_is_noise(rest.get_char(a))
        invariant
            n == rest@.len(),
            a <= n,
            forall|i: int| 0 <= i < a ==> is_noise(#[trigger] rest@[i]),
        decreases n - a,
    {
        a = a + 1;
    }
    proof {
        lemma_trim_leading_noise(rest@, a as int);
        assert(rest@.skip(a as int) =~= rest@.subrange(a as int, n as int));
    }
    match trimmed_range(rest, a, n) {
        Some(cleaned) => cleaned,
        None => "Hello".to_owned(),
    }
}

/// Turns recognised text into the transcript for the dialogue stage, or
/// into nothing.
pub fn interpret_transcription(text: &str, wake_word: Option<&str>) -> (transcript: Option<String>)
    ensures
        transcript is None <==> heard(
            text@,
            match wake_word {
                Some(w) => Some(w@),
                None => None,
            },
        ) is None,
        transcript matches Some(t) ==> Some(t@) == heard(
            text@,
            match wake_word {
                Some(w) => Some(w@),
                None => None,
            },
        ),
{
    match trimmed_text(text) {
        None => None,
        Some(said) => match wake_word {
            None => Some(said),
            Some(word) => {
                let low = to_lowercase(said.as_str());
                let low_word = to_lowercase(word);
                if !contains_text(low.as_str(), low_word.as_str()) {
                    None
                } else {
                    let rest = remove_matches(low.as_str(), low_word.as_str());
                    Some(clean_command(rest.as_str()))
                }
            },
        },
    }
}

} // verus!
