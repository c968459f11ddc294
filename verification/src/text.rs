//! Text as sequences of characters: search, joining, and decimal digits.

use vstd::prelude::*;
use vstd::string::*;

verus! {

/// `pattern` occurs in `text` as a run of consecutive characters.
pub open spec fn spec_contains(text: Seq<char>, pattern: Seq<char>) -> bool {
    exists|i: int|
        0 <= i && i + pattern.len() <= text.len() && #[trigger] text.subrange(
            i,
            i + pattern.len(),
        ) == pattern
}

/// Some entry of `texts` contains `pattern`.
pub open spec fn spec_any_contains(texts: Seq<Seq<char>>, pattern: Seq<char>) -> bool {
    exists|k: int| 0 <= k < texts.len() && spec_contains(#[trigger] texts[k], pattern)
}

/// The entries of `parts` in order, with `separator` between neighbours.
pub open spec fn spec_join(parts: Seq<Seq<char>>, separator: Seq<char>) -> Seq<char>
    decreases parts.len(),
{
    if parts.len() == 0 {
        Seq::empty()
    } else if parts.len() == 1 {
        parts[0]
    } else {
        spec_join(parts.drop_last(), separator) + separator + parts.last()
    }
}

/// The character of a single decimal digit.
pub open spec fn digit_char(digit: nat) -> char {
    if digit == 0 {
        '0'
    } else if digit == 1 {
        '1'
    } else if digit == 2 {
        '2'
    } else if digit == 3 {
        '3'
    } else if digit == 4 {
        '4'
    } else if digit == 5 {
        '5'
    } else if digit == 6 {
        '6'
    } else if digit == 7 {
        '7'
    } else if digit == 8 {
        '8'
    } else {
        '9'
    }
}

/// The decimal digits of `n`, most significant first, without leading zeros.
pub open spec fn decimal_digits(n: nat) -> Seq<char>
    decreases n,
{
    if n < 10 {
        seq![digit_char(n)]
    } else {
        decimal_digits(n / 10).push(digit_char(n % 10))
    }
}

/// The character `c` does not occur in `text`.
pub open spec fn lacks(text: Seq<char>, c: char) -> bool {
    forall|i: int| 0 <= i < text.len() ==> #[trigger] text[i] != c
}

/// Nowhere in `text` is `first` followed directly by `second`.
pub open spec fn lacks_pair(text: Seq<char>, first: char, second: char) -> bool {
    forall|i: int| 0 <= i && i + 1 < text.len() ==> !(#[trigger] text[i] == first && text[i + 1]
        == second)
}

/// A text without one of a pattern's characters does not contain the
/// pattern.
pub proof fn lemma_lacks_excludes(text: Seq<char>, pattern: Seq<char>, at: int)
    requires
        0 <= at < pattern.len(),
        lacks(text, pattern[at]),
    ensures
        !spec_contains(text, pattern),
{
    if spec_contains(text, pattern) {
        let i = choose|i: int|
            0 <= i && i + pattern.len() <= text.len() && #[trigger] text.subrange(
                i,
                i + pattern.len(),
            ) == pattern;
        assert(text.subrange(i, i + pattern.len())[at] == text[i + at]);
    }
}

/// A text without one of a pattern's pairs of neighbours does not contain
/// the pattern.
pub proof fn lemma_lacks_pair_excludes(text: Seq<char>, pattern: Seq<char>, at: int)
    requires
        0 <= at,
        at + 1 < pattern.len(),
        lacks_pair(text, pattern[at], pattern[at + 1]),
    ensures
        !spec_contains(text, pattern),
{
    if spec_contains(text, pattern) {
        let i = choose|i: int|
            0 <= i && i + pattern.len() <= text.len() && #[trigger] text.subrange(
                i,
                i + pattern.len(),
            ) == pattern;
        assert(text.subrange(i, i + pattern.len())[at] == text[i + at]);
        assert(text.subrange(i, i + pattern.len())[at + 1] == text[i + at + 1]);
    }
}

/// A character that two texts lack is not in their concatenation.
pub proof fn lemma_lacks_concat(left: Seq<char>, right: Seq<char>, c: char)
    requires
        lacks(left, c),
        lacks(right, c),
    ensures
        lacks(left + right, c),
{
    assert forall|i: int| 0 <= i < (left + right).len() implies #[trigger] (left + right)[i]
        != c by {
        if i < left.len() {
            assert((left + right)[i] == left[i]);
        } else {
            assert((left + right)[i] == right[i - left.len()]);
        }
    }
}

/// The digits of a number are digits.
pub proof fn lemma_digits_lack(n: nat, c: char)
    requires
        !('0' <= c <= '9'),
    ensures
        lacks(decimal_digits(n), c),
    decreases n,
{
    if n >= 10 {
        lemma_digits_lack(n / 10, c);
    }
}

/// A list matches a pattern exactly when one of its two halves does.
pub proof fn lemma_any_contains_concat(
    left: Seq<Seq<char>>,
    right: Seq<Seq<char>>,
    pattern: Seq<char>,
)
    ensures
        spec_any_contains(left + right, pattern) == (spec_any_contains(left, pattern)
            || spec_any_contains(right, pattern)),
{
    let whole = left + right;
    if spec_any_contains(left, pattern) {
        let k = choose|k: int| 0 <= k < left.len() && spec_contains(#[trigger] left[k], pattern);
        assert(whole[k] == left[k]);
    }
    if spec_any_contains(right, pattern) {
        let k = choose|k: int|
            0 <= k < right.len() && spec_contains(#[trigger] right[k], pattern);
        assert(whole[left.len() + k] == right[k]);
    }
    if spec_any_contains(whole, pattern) {
        let k = choose|k: int| 0 <= k < whole.len() && spec_contains(#[trigger] whole[k], pattern);
        if k < left.len() {
            assert(whole[k] == left[k]);
        } else {
            assert(whole[k] == right[k - left.len()]);
        }
    }
}

/// The text that `str::to_lowercase` gives for a text.
pub uninterp spec fn lowercase_text(text: Seq<char>) -> Seq<char>;

/// The text that `str::to_uppercase` gives for a text.
pub uninterp spec fn uppercase_text(text: Seq<char>) -> Seq<char>;

/// Calls `str::to_lowercase`. The claim is that the answer is a function of
/// the text, named `lowercase_text`.
#[verifier::external_body]
pub(crate) fn to_lowercase(text: &str) -> (lower: String)
    ensures
        lower@ == lowercase_text(text@),
{
    text.to_lowercase()
}

/// Calls `str::to_uppercase`. The claim is that the answer is a function of
/// the text, named `uppercase_text`.
#[verifier::external_body]
pub(crate) fn to_uppercase(text: &str) -> (upper: String)
    ensures
        upper@ == uppercase_text(text@),
{
    text.to_uppercase()
}

/// Calls `String::push`, which appends one character.
#[verifier::external_body]
pub(crate) fn push_char(text: &mut String, c: char)
    ensures
        final(text)@ == old(text)@.push(c),
{
    text.push(c)
}

/// Whether two texts read the same.
pub fn same_text(left: &str, right: &str) -> (same: bool)
    ensures
        same == (left@ == right@),
{
    String::from_str(left) == String::from_str(right)
}

/// Calls `str::contains` with a string pattern, which std documents as
/// telling whether the pattern matches a sub-slice of the text: the claim is
/// that it answers whether the pattern's characters occur consecutively.
#[verifier::external_body]
pub(crate) fn contains(text: &str, pattern: &str) -> (found: bool)
    ensures
        found == spec_contains(text@, pattern@),
{
    text.contains(pattern)
}

/// Whether `pattern` occurs in one of `texts`.
pub fn any_contains(texts: &Vec<String>, pattern: &str) -> (found: bool)
    ensures
        found == spec_any_contains(texts.deep_view(), pattern@),
{
    let mut k: usize = 0;
    while k < texts.len()
        invariant
            k <= texts.len(),
            forall|j: int| 0 <= j < k ==> !spec_contains(#[trigger] texts.deep_view()[j], pattern@),
        decreases texts.len() - k,
    {
        if contains(texts[k].as_str(), pattern) {
            assert(texts.deep_view()[k as int] == texts[k as int]@);
            return true;
        }
        assert(texts.deep_view()[k as int] == texts[k as int]@);
        k += 1;
    }
    false
}

/// Appends a copy of `text` to `list`.
pub fn push_text(list: &mut Vec<String>, text: &str)
    ensures
        final(list).deep_view() == old(list).deep_view().push(text@),
{
    let owned = String::from_str(text);
    list.push(owned);
    assert(list.deep_view() =~= old(list).deep_view().push(text@));
}

/// Appends `text` to `list`.
pub fn push_owned(list: &mut Vec<String>, text: String)
    ensures
        final(list).deep_view() == old(list).deep_view().push(text@),
{
    list.push(text);
    assert(list.deep_view() =~= old(list).deep_view().push(text@));
}

/// The entries of `parts` in order, with `separator` between neighbours.
pub fn join(parts: &Vec<String>, separator: &str) -> (joined: String)
    ensures
        joined@ == spec_join(parts.deep_view(), separator@),
{
    let mut joined = String::new();
    let mut k: usize = 0;
    while k < parts.len()
        invariant
            k <= parts.len(),
            joined@ == spec_join(parts.deep_view().take(k as int), separator@),
        decreases parts.len() - k,
    {
        proof {
            let before = parts.deep_view().take(k as int);
            let after = parts.deep_view().take(k + 1);
            assert(after.drop_last() =~= before);
            assert(after.last() == parts[k as int]@);
            if k == 0 {
                assert(joined@ =~= Seq::<char>::empty());
                assert(Seq::<char>::empty() + parts[k as int]@ =~= parts[k as int]@);
            }
            if k == 1 {
                assert(before[0] == parts[0]@);
            }
        }
        if k > 0 {
            joined.append(separator);
        }
        joined.append(texts_entry(parts, k));
        k += 1;
    }
    assert(parts.deep_view().take(parts.len() as int) =~= parts.deep_view());
    joined
}

/// The entry of `parts` at `index`, as a string slice.
fn texts_entry(parts: &Vec<String>, index: usize) -> (entry: &str)
    requires
        index < parts.len(),
    ensures
        entry@ == parts.deep_view()[index as int],
{
    parts[index].as_str()
}

/// The text of a single decimal digit.
fn digit_text(digit: u64) -> (text: &'static str)
    requires
        digit < 10,
    ensures
        text@ == seq![digit_char(digit as nat)],
{
    proof {
        reveal_strlit("0");
        reveal_strlit("1");
        reveal_strlit("2");
        reveal_strlit("3");
        reveal_strlit("4");
        reveal_strlit("5");
        reveal_strlit("6");
        reveal_strlit("7");
        reveal_strlit("8");
        reveal_strlit("9");
    }
    let text = if digit == 0 {
        "0"
    } else if digit == 1 {
        "1"
    } else if digit == 2 {
        "2"
    } else if digit == 3 {
        "3"
    } else if digit == 4 {
        "4"
    } else if digit == 5 {
        "5"
    } else if digit == 6 {
        "6"
    } else if digit == 7 {
        "7"
    } else if digit == 8 {
        "8"
    } else {
        "9"
    };
    assert(text@ =~= seq![digit_char(digit as nat)]);
    text
}

/// Appends the decimal digits of `n` to `out`.
pub fn append_digits(out: &mut String, n: u64)
    ensures
        final(out)@ == old(out)@ + decimal_digits(n as nat),
    decreases n,
{
    if n >= 10 {
        append_digits(out, n / 10);
    }
    out.append(digit_text(n % 10));
    assert(out@ =~= old(out)@ + decimal_digits(n as nat));
}

/// The text of a whole number: its decimal digits, after a minus sign where
/// it is negative.
pub open spec fn int_text(n: int) -> Seq<char> {
    if n < 0 {
        seq!['-'] + decimal_digits((-n) as nat)
    } else {
        decimal_digits(n as nat)
    }
}

/// The text of `n`.
pub fn i64_to_text(n: i64) -> (text: String)
    ensures
        text@ == int_text(n as int),
{
    let mut text = String::new();
    if n < 0 {
        proof {
            reveal_strlit("-");
        }
        text.append("-");
        assert(text@ =~= seq!['-']);
        let magnitude: u64 = (-(n as i128)) as u64;
        append_digits(&mut text, magnitude);
    } else {
        append_digits(&mut text, n as u64);
        assert(text@ =~= decimal_digits(n as nat));
    }
    text
}

} // verus!
