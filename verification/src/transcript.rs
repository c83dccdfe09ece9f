//! Transcript assembly.
//!
//! The speech engine returns the recognized text as segments; the final
//! transcript is their concatenation with surrounding whitespace trimmed.
//! Running the engine is the surrounding program's job; assembling its
//! segments is the library's.

use vstd::prelude::*;

verus! {

/// Whitespace trimmed from the ends of a transcript.
pub open spec fn is_trim_space(c: char) -> bool {
    c == ' ' || c == '\t' || c == '\n' || c == '\r'
}

/// The concatenation of the segments, in order.
pub open spec fn concat_segments(segs: Seq<Seq<char>>) -> Seq<char>
    decreases segs.len(),
{
    if segs.len() == 0 {
        Seq::empty()
    } else {
        concat_segments(segs.drop_last()) + segs.last()
    }
}

/// How many whitespace characters the sequence starts with.
pub open spec fn leading_spaces(s: Seq<char>) -> int
    decreases s.len(),
{
    if s.len() > 0 && is_trim_space(s[0]) {
        1 + leading_spaces(s.drop_first())
    } else {
        0
    }
}

/// How many whitespace characters the sequence ends with.
pub open spec fn trailing_spaces(s: Seq<char>) -> int
    decreases s.len(),
{
    if s.len() > 0 && is_trim_space(s.last()) {
        1 + trailing_spaces(s.drop_last())
    } else {
        0
    }
}

/// The sequence with leading and trailing whitespace removed.
pub open spec fn trimmed(s: Seq<char>) -> Seq<char> {
    if leading_spaces(s) == s.len() {
        Seq::empty()
    } else {
        s.subrange(leading_spaces(s), s.len() - trailing_spaces(s))
    }
}

/// `leading_spaces` counts exactly the unbroken whitespace prefix.
pub proof fn lemma_leading_spaces_characterization(s: Seq<char>)
    ensures
        0 <= leading_spaces(s) <= s.len(),
        forall|j: int| 0 <= j < leading_spaces(s) ==> is_trim_space(#[trigger] s[j]),
        leading_spaces(s) < s.len() ==> !is_trim_space(s[leading_spaces(s)]),
    decreases s.len(),
{
    if s.len() > 0 && is_trim_space(s[0]) {
        lemma_leading_spaces_characterization(s.drop_first());
        assert forall|j: int| 0 <= j < leading_spaces(s) implies is_trim_space(
            #[trigger] s[j],
        ) by {
            if j > 0 {
                assert(is_trim_space(s.drop_first()[j - 1]));
            }
        }
    }
}

/// `trailing_spaces` counts exactly the unbroken whitespace suffix.
pub proof fn lemma_trailing_spaces_characterization(s: Seq<char>)
    ensures
        0 <= trailing_spaces(s) <= s.len(),
        forall|j: int| s.len() - trailing_spaces(s) <= j < s.len() ==> is_trim_space(
            #[trigger] s[j],
        ),
        trailing_spaces(s) < s.len() ==> !is_trim_space(s[s.len() - 1 - trailing_spaces(s)]),
    decreases s.len(),
{
    if s.len() > 0 && is_trim_space(s.last()) {
        lemma_trailing_spaces_characterization(s.drop_last());
        assert forall|j: int| s.len() - trailing_spaces(s) <= j < s.len() implies is_trim_space(
            #[trigger] s[j],
        ) by {
            if j < s.len() - 1 {
                assert(is_trim_space(s.drop_last()[j]));
            }
        }
    }
}

/// Whether a character counts as trimmable whitespace.
pub fn is_space_char(c: char) -> (r: bool)
    ensures
        r == is_trim_space(c),
{
    c == ' ' || c == '\t' || c == '\n' || c == '\r'
}

/// Trim leading and trailing whitespace from a string.
pub fn trim_str(s: &str) -> (r: String)
    ensures
        r@ == trimmed(s@),
{
    let n = s.unicode_len();
    // First index holding a non-whitespace character, or n if none.
    let mut a: usize = n;
    let mut i: usize = 0;
    while i < n
        invariant
            i <= n,
            a <= n,
            n == s@.len(),
            a == n ==> forall|j: int| 0 <= j < i ==> is_trim_space(#[trigger] s@[j]),
            a < n ==> a < i && !is_trim_space(s@[a as int]) && forall|j: int|
                0 <= j < a ==> is_trim_space(#[trigger] s@[j]),
        decreases n - i,
    {
        let c = s.get_char(i);
        if a == n && !is_space_char(c) {
            a = i;
        }
        i = i + 1;
    }
    proof {
        lemma_leading_spaces_characterization(s@);
        assert(a as int == leading_spaces(s@));
    }
    if a == n {
        return String::new();
    }
    // Index one past the last non-whitespace character.
    let mut b: usize = 0;
    let mut k: usize = n;
    while k > 0
        invariant
            k <= n,
            n == s@.len(),
            a < n,
            a as int == leading_spaces(s@),
            !is_trim_space(s@[a as int]),
            b == 0 ==> forall|j: int| k <= j < n ==> is_trim_space(#[trigger] s@[j]),
            b > 0 ==> k < b <= n && !is_trim_space(s@[b - 1]) && forall|j: int|
                b <= j < n ==> is_trim_space(#[trigger] s@[j]),
        decreases k,
    {
        k = k - 1;
        let c = s.get_char(k);
        if b == 0 && !is_space_char(c) {
            b = k + 1;
        }
    }
    proof {
        lemma_trailing_spaces_characterization(s@);
        assert(b > 0);
        assert(n - b == trailing_spaces(s@));
        assert(a < b);
    }
    let out = s.substring_char(a, b);
    out.to_owned()
}

/// Assemble the transcript: concatenate the segments the engine returned,
/// in order, and trim surrounding whitespace.
pub fn assemble_transcript(segments: &Vec<String>) -> (r: String)
    ensures
        r@ == trimmed(concat_segments(segments.deep_view())),
{
    let mut text = String::new();
    let mut i: usize = 0;
    while i < segments.len()
        invariant
            i <= segments@.len(),
            segments.deep_view().len() == segments@.len(),
            text@ == concat_segments(segments.deep_view().subrange(0, i as int)),
        decreases segments@.len() - i,
    {
        text.append(segments[i].as_str());
        proof {
            assert(segments.deep_view().subrange(0, i + 1).drop_last() =~= segments.deep_view()
                .subrange(0, i as int));
            assert(segments.deep_view().subrange(0, i + 1).last() == segments@[i as int]@);
        }
        i = i + 1;
    }
    proof {
        assert(segments.deep_view().subrange(0, segments@.len() as int) =~= segments.deep_view());
    }
    trim_str(text.as_str())
}

} // verus!
