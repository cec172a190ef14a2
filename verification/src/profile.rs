//! Finding an account in the text of its profile page.
//!
//! The page carries the account as JSON inside a script element. The library
//! cuts the candidates out of the page; the caller decodes them and hands
//! back what the first decodable one held.

use crate::data::texts_of;
use crate::data::ProfileData;
use crate::data::User;
use crate::data::UserView;
use crate::text::chars_of;
use crate::text::string_from_chars;
use crate::text::strip_window;
use crate::text::trim;
use crate::text::trim_end_matches;
use crate::text::trim_start_matches;
use crate::text::trim_window;
use vstd::prelude::*;
use vstd::slice::slice_subrange;

verus! {

/// What stands in front of the data in the line that carries it.
pub const SHARED_DATA_PREFIX: &'static str =
    "<script type=\"text/javascript\">window._sharedData = ";

/// What stands behind the data in the line that carries it.
pub const SHARED_DATA_SUFFIX: &'static str = ";</script>";

/// What a line of the page could hold as data: the line without the
/// whitespace around it, without the opening of the script element in front
/// and without its closing behind.
pub open spec fn payload_of(line: Seq<char>) -> Seq<char> {
    without_markers(trim(line))
}

/// The number of characters in front of the first line feed of `s`, or the
/// length of `s` if it has none.
pub open spec fn line_len(s: Seq<char>) -> nat
    decreases s.len(),
{
    if s.len() == 0 || s.first() == '\n' {
        0
    } else {
        1 + line_len(s.drop_first())
    }
}

/// `line` without one carriage return at its end.
pub open spec fn without_cr(line: Seq<char>) -> Seq<char> {
    if line.len() > 0 && line.last() == '\r' {
        line.drop_last()
    } else {
        line
    }
}

/// The lines of a text. A line ends with a line feed, or with a carriage
/// return and a line feed; neither belongs to the line. What follows the
/// last line feed is a line too, unless it is empty.
pub open spec fn lines(s: Seq<char>) -> Seq<Seq<char>>
    decreases s.len(),
{
    let n = line_len(s);
    if s.len() == 0 {
        Seq::empty()
    } else if n >= s.len() {
        seq![s]
    } else {
        seq![without_cr(s.take(n as int))] + lines(s.skip(n as int + 1))
    }
}

/// What each line of a sequence could hold as data.
pub open spec fn payloads(lines: Seq<Seq<char>>) -> Seq<Seq<char>> {
    lines.map_values(|line: Seq<char>| payload_of(line))
}

/// `text` without the opening of the script element in front and without its
/// closing behind.
pub open spec fn without_markers(text: Seq<char>) -> Seq<char> {
    trim_end_matches(trim_start_matches(text, SHARED_DATA_PREFIX@), SHARED_DATA_SUFFIX@)
}

/// Removes the opening of the script element from the front of `text` and
/// its closing from the back, each as often as it stands there.
pub fn strip_markers(text: &str) -> (inner: String)
    ensures
        inner@ == without_markers(text@),
{
    let chars: Vec<char> = chars_of(text);
    let prefix: Vec<char> = chars_of(SHARED_DATA_PREFIX);
    let suffix: Vec<char> = chars_of(SHARED_DATA_SUFFIX);
    assert(chars@.subrange(0, chars@.len() as int) == chars@);
    let inner: (usize, usize) = strip_window(&chars, 0, chars.len(), &prefix, &suffix);
    string_from_chars(slice_subrange(chars.as_slice(), inner.0, inner.1))
}

/// What a line of the page could hold as data.
pub fn shared_data_payload(line: &str) -> (payload: String)
    ensures
        payload@ == payload_of(line@),
{
    let chars: Vec<char> = chars_of(line);
    let prefix: Vec<char> = chars_of(SHARED_DATA_PREFIX);
    let suffix: Vec<char> = chars_of(SHARED_DATA_SUFFIX);
    assert(chars@.subrange(0, chars@.len() as int) == chars@);
    let trimmed: (usize, usize) = trim_window(&chars, 0, chars.len());
    let inner: (usize, usize) = strip_window(&chars, trimmed.0, trimmed.1, &prefix, &suffix);
    string_from_chars(slice_subrange(chars.as_slice(), inner.0, inner.1))
}

/// Splits a text into its lines.
pub fn split_lines(text: &str) -> (found: Vec<String>)
    ensures
        texts_of(found@) == lines(text@),
{
    let chars: Vec<char> = chars_of(text);
    let n: usize = chars.len();
    let mut found: Vec<String> = Vec::new();
    let mut start: usize = 0;
    assert(chars@.skip(0) == chars@);
    while start < n
        invariant
            start <= n == chars.len(),
            lines(chars@) == texts_of(found@) + lines(chars@.skip(start as int)),
        decreases n - start,
    {
        let ghost rest = chars@.skip(start as int);
        let mut end: usize = start;
        while end < n && chars[end] != '\n'
            invariant
                start <= end <= n == chars.len(),
                line_len(chars@.skip(start as int)) == (end - start) + line_len(
                    chars@.skip(end as int),
                ),
            decreases n - end,
        {
            assert(chars@.skip(end as int).drop_first() == chars@.skip(end + 1));
            end = end + 1;
        }
        let terminated: bool = end < n;
        let mut line_end: usize = end;
        if terminated && end > start && chars[end - 1] == '\r' {
            line_end = end - 1;
        }
        let next: usize = if terminated {
            end + 1
        } else {
            n
        };
        let line: String = string_from_chars(slice_subrange(chars.as_slice(), start, line_end));
        proof {
            if terminated {
                assert(line@ == without_cr(rest.take(end - start)));
                assert(rest.skip(end - start + 1) == chars@.skip(next as int));
            }
        }
        found.push(line);
        start = next;
    }
    found
}

/// What each line of the page could hold as data, in the order of the lines.
pub fn shared_data_candidates(body: &str) -> (candidates: Vec<String>)
    ensures
        texts_of(candidates@) == payloads(lines(body@)),
{
    let found: Vec<String> = split_lines(body);
    let mut candidates: Vec<String> = Vec::new();
    let mut i: usize = 0;
    while i < found.len()
        invariant
            i <= found.len(),
            candidates.len() == i,
            forall|k: int| 0 <= k < i ==> candidates@[k]@ == payload_of(found@[k]@),
        decreases found.len() - i,
    {
        candidates.push(shared_data_payload(found[i].as_str()));
        i = i + 1;
    }
    candidates
}

/// Why a profile page gave no account.
#[derive(Debug, Clone, Copy, PartialEq, Eq, Structural)]
pub enum ProfileError {
    /// No line of the page held data that could be decoded.
    NoProfileData,
    /// The data was decoded and names no account.
    NoUser,
}

impl ProfileError {
    /// The text of what is said to the user.
    pub open spec fn spec_message(self) -> Seq<char> {
        match self {
            ProfileError::NoProfileData => "Page did not include profile data. Does the user exist?"@,
            ProfileError::NoUser => "No user found in profile data."@,
        }
    }

    /// What is said to the user.
    pub fn message(&self) -> (text: &'static str)
        ensures
            text@ == self.spec_message(),
    {
        match self {
            ProfileError::NoProfileData => "Page did not include profile data. Does the user exist?",
            ProfileError::NoUser => "No user found in profile data.",
        }
    }
}

/// The account that decoded profile data names: that of its first profile
/// page.
pub open spec fn first_user(decoded: Option<ProfileData>) -> Result<UserView, ProfileError> {
    match decoded {
        None => Err(ProfileError::NoProfileData),
        Some(data) => if data.entry_data.profile_page@.len() == 0 {
            Err(ProfileError::NoUser)
        } else {
            Ok(data.entry_data.profile_page@[0].graphql.user@)
        },
    }
}

/// The view of an account or of the reason why there is none.
pub open spec fn found_view(found: Result<User, ProfileError>) -> Result<UserView, ProfileError> {
    match found {
        Ok(user) => Ok(user@),
        Err(error) => Err(error),
    }
}

/// Picks the account out of what the first decodable candidate of a profile
/// page held; `None` stands for a page without such a candidate.
pub fn find_user(decoded: Option<ProfileData>) -> (found: Result<User, ProfileError>)
    ensures
        found_view(found) == first_user(decoded),
{
    match decoded {
        None => Err(ProfileError::NoProfileData),
        Some(data) => {
            if data.entry_data.profile_page.len() == 0 {
                Err(ProfileError::NoUser)
            } else {
                Ok(data.entry_data.profile_page[0].graphql.user.clone())
            }
        },
    }
}

} // verus!
