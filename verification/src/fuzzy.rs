use vstd::prelude::*;
use fuzzy_matcher::skim::SkimMatcherV2;
use fuzzy_matcher::FuzzyMatcher;

verus! {

/// ASCII case folding of one character, as a code point.
pub open spec fn ascii_fold(c: char) -> int {
    if 65 <= c as int <= 90 {
        c as int + 32
    } else {
        c as int
    }
}

/// Whether `s` holds an ASCII upper-case letter.
pub open spec fn has_ascii_upper(s: Seq<char>) -> bool {
    exists|i: int| 0 <= i < s.len() && 65 <= #[trigger] s[i] as int <= 90
}

/// Equality of two characters, exact or up to ASCII case.
pub open spec fn chars_match(c: char, p: char, case_sensitive: bool) -> bool {
    if case_sensitive {
        c == p
    } else {
        ascii_fold(c) == ascii_fold(p)
    }
}

/// `pattern` occurs in `choice` as a (not necessarily contiguous) subsequence.
pub open spec fn is_subsequence(pattern: Seq<char>, choice: Seq<char>, case_sensitive: bool) -> bool
    decreases choice.len(),
{
    if pattern.len() == 0 {
        true
    } else if choice.len() == 0 {
        false
    } else if chars_match(choice[0], pattern[0], case_sensitive) {
        is_subsequence(pattern.drop_first(), choice.drop_first(), case_sensitive)
    } else {
        is_subsequence(pattern, choice.drop_first(), case_sensitive)
    }
}

/// The skim matcher accepts `choice` for `pattern`: smart case, i.e. the
/// comparison respects case exactly when the pattern holds an ASCII capital.
pub open spec fn fuzzy_accepts(choice: Seq<char>, pattern: Seq<char>) -> bool {
    is_subsequence(pattern, choice, has_ascii_upper(pattern))
}

/// The score that the default skim matcher (version 2) gives `choice` for `pattern`.
pub uninterp spec fn skim_score(choice: Seq<char>, pattern: Seq<char>) -> Option<i64>;

/// Calls `SkimMatcherV2::fuzzy_match` of `fuzzy_matcher` with the default
/// settings. Trusted: the result is a function of the two texts, named
/// `skim_score`; it is `Some` exactly when the pattern is a smart-case
/// subsequence of the choice (the crate's `cheap_matches` test, after which
/// every path returns a score); the score is an `i32` widened to `i64`.
/// The score's value itself is not stated.
#[verifier::external_body]
pub(crate) fn skim_fuzzy_match(choice: &str, pattern: &str) -> (r: Option<i64>)
    ensures
        r == skim_score(choice@, pattern@),
        r is Some <==> fuzzy_accepts(choice@, pattern@),
        r matches Some(s) ==> i32::MIN <= s <= i32::MAX,
{
    SkimMatcherV2::default().fuzzy_match(choice, pattern)
}


/// A subsequence stays one when a character is put in front of the text.
proof fn lemma_subsequence_cons(pattern: Seq<char>, choice: Seq<char>, a: char, cs: bool)
    requires
        is_subsequence(pattern, choice, cs),
    ensures
        is_subsequence(pattern, seq![a] + choice, cs),
    decreases choice.len(), 1nat,
{
    let d = seq![a] + choice;
    assert(d.drop_first() =~= choice);
    if pattern.len() > 0 && chars_match(a, pattern[0], cs) {
        lemma_subsequence_drop(pattern, choice, cs);
    }
}

/// A subsequence without its first character is still a subsequence.
proof fn lemma_subsequence_drop(pattern: Seq<char>, choice: Seq<char>, cs: bool)
    requires
        pattern.len() > 0,
        is_subsequence(pattern, choice, cs),
    ensures
        is_subsequence(pattern.drop_first(), choice, cs),
    decreases choice.len(), 0nat,
{
    let tail = choice.drop_first();
    assert(seq![choice[0]] + tail =~= choice);
    if chars_match(choice[0], pattern[0], cs) {
        lemma_subsequence_cons(pattern.drop_first(), tail, choice[0], cs);
    } else {
        lemma_subsequence_drop(pattern, tail, cs);
        lemma_subsequence_cons(pattern.drop_first(), tail, choice[0], cs);
    }
}

/// A subsequence of `choice` is a subsequence of `before + choice + after`.
pub proof fn lemma_subsequence_within(pattern: Seq<char>, before: Seq<char>, choice: Seq<char>, after: Seq<char>, cs: bool)
    requires
        is_subsequence(pattern, choice, cs),
    ensures
        is_subsequence(pattern, before + choice + after, cs),
    decreases before.len(),
{
    if before.len() == 0 {
        lemma_subsequence_append(pattern, choice, after, cs);
        assert(before + choice + after =~= choice + after);
    } else {
        lemma_subsequence_within(pattern, before.drop_first(), choice, after, cs);
        lemma_subsequence_cons(pattern, before.drop_first() + choice + after, before[0], cs);
        assert(seq![before[0]] + (before.drop_first() + choice + after) =~= before + choice + after);
    }
}

/// A subsequence stays one when text is appended.
proof fn lemma_subsequence_append(pattern: Seq<char>, choice: Seq<char>, after: Seq<char>, cs: bool)
    requires
        is_subsequence(pattern, choice, cs),
    ensures
        is_subsequence(pattern, choice + after, cs),
    decreases choice.len(),
{
    if pattern.len() > 0 {
        let d = choice + after;
        assert(d.drop_first() =~= choice.drop_first() + after);
        if chars_match(choice[0], pattern[0], cs) {
            lemma_subsequence_append(pattern.drop_first(), choice.drop_first(), after, cs);
        } else {
            lemma_subsequence_append(pattern, choice.drop_first(), after, cs);
        }
    }
}

} // verus!
