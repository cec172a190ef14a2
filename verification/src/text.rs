//! Character-level helpers shared by the rest of the library.

use ellipse::Ellipse;
use vstd::prelude::*;
use vstd::string::StringExecFns;
use vstd::string::StrSliceExecFns;

verus! {

/// Whether a character carries the Unicode `White_Space` property, as
/// `char::is_whitespace` reports it.
pub uninterp spec fn is_whitespace(c: char) -> bool;

/// Calls `char::is_whitespace`. The contract only gives the answer its name;
/// which characters count as whitespace is left to the standard library.
#[verifier::external_body]
pub(crate) fn char_is_whitespace(c: char) -> (b: bool)
    ensures
        b == is_whitespace(c),
{
    c.is_whitespace()
}

/// Collects characters into a `String` through `String::from_iter`. The
/// contract claims that the string holds exactly the given characters, in
/// order.
#[verifier::external_body]
pub(crate) fn string_from_chars(chars: &[char]) -> (s: String)
    ensures
        s@ == chars@,
{
    String::from_iter(chars.iter())
}

/// What `ellipse::Ellipse::truncate_ellipse` makes of a text and a limit: the
/// text itself where it has at most `len` extended grapheme clusters, else its
/// first `len` clusters followed by three dots (nothing at all for a limit of
/// zero).
pub uninterp spec fn ellipsized(text: Seq<char>, len: usize) -> Seq<char>;

/// Calls `truncate_ellipse` of the `ellipse` crate on a string slice. The
/// contract only gives the result its name: where a grapheme cluster ends is
/// left to that crate.
#[verifier::external_body]
pub(crate) fn truncate_ellipse(text: &str, len: usize) -> (short: String)
    ensures
        short@ == ellipsized(text@, len),
{
    text.truncate_ellipse(len).into_owned()
}

/// `s` without its leading whitespace.
pub open spec fn trim_start(s: Seq<char>) -> Seq<char>
    decreases s.len(),
{
    if s.len() > 0 && is_whitespace(s.first()) {
        trim_start(s.drop_first())
    } else {
        s
    }
}

/// `s` without its trailing whitespace.
pub open spec fn trim_end(s: Seq<char>) -> Seq<char>
    decreases s.len(),
{
    if s.len() > 0 && is_whitespace(s.last()) {
        trim_end(s.drop_last())
    } else {
        s
    }
}

/// `s` without leading and trailing whitespace.
pub open spec fn trim(s: Seq<char>) -> Seq<char> {
    trim_end(trim_start(s))
}

/// `s` after removing `pat` from its front as often as it stands there.
/// An empty pattern removes nothing.
pub open spec fn trim_start_matches(s: Seq<char>, pat: Seq<char>) -> Seq<char>
    decreases s.len(),
{
    if pat.len() > 0 && pat.is_prefix_of(s) {
        trim_start_matches(s.skip(pat.len() as int), pat)
    } else {
        s
    }
}

/// `s` after removing `pat` from its back as often as it stands there.
/// An empty pattern removes nothing.
pub open spec fn trim_end_matches(s: Seq<char>, pat: Seq<char>) -> Seq<char>
    decreases s.len(),
{
    if pat.len() > 0 && pat.is_suffix_of(s) {
        trim_end_matches(s.take(s.len() - pat.len()), pat)
    } else {
        s
    }
}

/// The characters of a string slice, in order.
pub fn chars_of(s: &str) -> (chars: Vec<char>)
    ensures
        chars@ == s@,
{
    let mut chars: Vec<char> = Vec::new();
    for c in it: s.chars()
        invariant
            chars@ == it.seq().take(it.index()),
    {
        chars.push(c);
    }
    chars
}

/// Narrows the window `[lo, hi)` of `chars` to what `trim` leaves of it.
pub(crate) fn trim_window(chars: &Vec<char>, lo: usize, hi: usize) -> (w: (usize, usize))
    requires
        lo <= hi <= chars.len(),
    ensures
        lo <= w.0 <= w.1 <= hi,
        chars@.subrange(w.0 as int, w.1 as int) == trim(chars@.subrange(lo as int, hi as int)),
{
    let mut a: usize = lo;
    while a < hi && char_is_whitespace(chars[a])
        invariant
            lo <= a <= hi <= chars.len(),
            trim_start(chars@.subrange(lo as int, hi as int)) == trim_start(
                chars@.subrange(a as int, hi as int),
            ),
        decreases hi - a,
    {
        assert(chars@.subrange(a as int, hi as int).drop_first() == chars@.subrange(
            a + 1,
            hi as int,
        ));
        a = a + 1;
    }
    let mut b: usize = hi;
    while a < b && char_is_whitespace(chars[b - 1])
        invariant
            a <= b <= hi <= chars.len(),
            trim_end(chars@.subrange(a as int, hi as int)) == trim_end(
                chars@.subrange(a as int, b as int),
            ),
        decreases b - a,
    {
        assert(chars@.subrange(a as int, b as int).drop_last() == chars@.subrange(
            a as int,
            b - 1,
        ));
        b = b - 1;
    }
    (a, b)
}

/// Whether `pat` is non-empty and stands at the front of the window
/// `[lo, hi)` of `chars`.
pub(crate) fn window_starts_with(chars: &Vec<char>, lo: usize, hi: usize, pat: &Vec<char>) -> (found: bool)
    requires
        lo <= hi <= chars.len(),
    ensures
        found == (pat@.len() > 0 && pat@.is_prefix_of(chars@.subrange(lo as int, hi as int))),
{
    let n: usize = pat.len();
    if n == 0 || n > hi - lo {
        return false;
    }
    let ghost window = chars@.subrange(lo as int, hi as int);
    let mut i: usize = 0;
    while i < n
        invariant
            0 < n <= hi - lo,
            lo <= hi <= chars.len(),
            n == pat.len(),
            i <= n,
            window == chars@.subrange(lo as int, hi as int),
            forall|k: int| 0 <= k < i ==> pat@[k] == window[k],
        decreases n - i,
    {
        if pat[i] != chars[lo + i] {
            return false;
        }
        i = i + 1;
    }
    true
}

/// Whether `pat` is non-empty and stands at the back of the window
/// `[lo, hi)` of `chars`.
pub(crate) fn window_ends_with(chars: &Vec<char>, lo: usize, hi: usize, pat: &Vec<char>) -> (found: bool)
    requires
        lo <= hi <= chars.len(),
    ensures
        found == (pat@.len() > 0 && pat@.is_suffix_of(chars@.subrange(lo as int, hi as int))),
{
    let n: usize = pat.len();
    if n == 0 || n > hi - lo {
        return false;
    }
    let ghost window = chars@.subrange(lo as int, hi as int);
    let base: usize = hi - n;
    let mut i: usize = 0;
    while i < n
        invariant
            0 < n <= hi - lo,
            lo <= hi <= chars.len(),
            n == pat.len(),
            base == hi - n,
            i <= n,
            window == chars@.subrange(lo as int, hi as int),
            forall|k: int| 0 <= k < i ==> pat@[k] == window[window.len() - n + k],
        decreases n - i,
    {
        if pat[i] != chars[base + i] {
            return false;
        }
        i = i + 1;
    }
    true
}

/// Narrows the window `[lo, hi)` of `chars` to what is left once `prefix` has
/// been removed from its front, and then `suffix` from its back, as often as
/// each stands there.
pub(crate) fn strip_window(
    chars: &Vec<char>,
    lo: usize,
    hi: usize,
    prefix: &Vec<char>,
    suffix: &Vec<char>,
) -> (w: (usize, usize))
    requires
        lo <= hi <= chars.len(),
    ensures
        lo <= w.0 <= w.1 <= hi,
        chars@.subrange(w.0 as int, w.1 as int) == trim_end_matches(
            trim_start_matches(chars@.subrange(lo as int, hi as int), prefix@),
            suffix@,
        ),
{
    let mut a: usize = lo;
    while window_starts_with(chars, a, hi, prefix)
        invariant
            lo <= a <= hi <= chars.len(),
            trim_start_matches(chars@.subrange(lo as int, hi as int), prefix@)
                == trim_start_matches(chars@.subrange(a as int, hi as int), prefix@),
        decreases hi - a,
    {
        assert(chars@.subrange(a as int, hi as int).skip(prefix@.len() as int) == chars@.subrange(
            a + prefix@.len(),
            hi as int,
        ));
        a = a + prefix.len();
    }
    let mut b: usize = hi;
    while window_ends_with(chars, a, b, suffix)
        invariant
            a <= b <= hi <= chars.len(),
            trim_end_matches(chars@.subrange(a as int, hi as int), suffix@) == trim_end_matches(
                chars@.subrange(a as int, b as int),
                suffix@,
            ),
        decreases b - a,
    {
        assert(chars@.subrange(a as int, b as int).take(b - a - suffix@.len()) == chars@.subrange(
            a as int,
            b - suffix@.len(),
        ));
        b = b - suffix.len();
    }
    (a, b)
}

/// `s` without any occurrence of the character `unwanted`.
pub open spec fn without(s: Seq<char>, unwanted: char) -> Seq<char>
    decreases s.len(),
{
    if s.len() == 0 {
        s
    } else if s.last() == unwanted {
        without(s.drop_last(), unwanted)
    } else {
        without(s.drop_last(), unwanted).push(s.last())
    }
}

/// `s` right-aligned in a field of `width` characters: spaces are put in
/// front of it until it is `width` characters long. A longer `s` is left as it is.
pub open spec fn pad_left(s: Seq<char>, width: nat) -> Seq<char> {
    if s.len() >= width {
        s
    } else {
        Seq::new((width - s.len()) as nat, |i: int| ' ') + s
    }
}

/// Copies `s`, leaving out every occurrence of `unwanted`.
pub fn remove_char(s: &str, unwanted: char) -> (kept: String)
    ensures
        kept@ == without(s@, unwanted),
{
    let mut chars: Vec<char> = Vec::new();
    for c in it: s.chars()
        invariant
            it.seq() == s@,
            chars@ == without(s@.take(it.index()), unwanted),
    {
        assert(s@.take(it.index() + 1).drop_last() == s@.take(it.index()));
        if c != unwanted {
            chars.push(c);
        }
    }
    assert(s@.take(s@.len() as int) == s@);
    string_from_chars(chars.as_slice())
}

/// Right-aligns `s` in a field of `width` characters.
pub fn right_align(s: &str, width: usize) -> (padded: String)
    ensures
        padded@ == pad_left(s@, width as nat),
{
    let len: usize = s.unicode_len();
    let mut padded: String = String::new();
    if len < width {
        let missing: usize = width - len;
        let mut i: usize = 0;
        while i < missing
            invariant
                i <= missing,
                padded@ == Seq::new(i as nat, |k: int| ' '),
            decreases missing - i,
        {
            proof {
                reveal_strlit(" ");
            }
            padded.append(" ");
            i = i + 1;
        }
    }
    padded.append(s);
    padded
}

} // verus!
