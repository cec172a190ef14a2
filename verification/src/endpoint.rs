//! The addresses of the remote API.
//!
//! An address is put together as text and then handed to the `url` crate,
//! which checks it and brings it into its normal form.

use crate::stream::PageRequest;
use crate::stream::PageRequestView;
use vstd::prelude::*;
use vstd::string::StringExecFns;

verus! {

/// What `url::Url::parse` makes of a text: the serialization of the URL it
/// read, or the message of the error with which it refused the text.
pub uninterp spec fn url_parse(text: Seq<char>) -> Result<Seq<char>, Seq<char>>;

/// The text inside a result of strings.
pub open spec fn result_text(r: Result<String, String>) -> Result<Seq<char>, Seq<char>> {
    match r {
        Ok(s) => Ok(s@),
        Err(e) => Err(e@),
    }
}

/// Calls `url::Url::parse` and turns the URL into its serialization, or the
/// error into its message. The contract only gives the outcome its name:
/// which texts are URLs, and how one is normalised, is left to that crate.
#[verifier::external_body]
pub(crate) fn parse_url(text: &str) -> (parsed: Result<String, String>)
    ensures
        result_text(parsed) == url_parse(text@),
{
    match url::Url::parse(text) {
        Ok(url) => Ok(String::from(url)),
        Err(error) => Err(error.to_string()),
    }
}

/// The text of the address of an account's profile page.
pub open spec fn profile_text(username: Seq<char>) -> Seq<char> {
    "https://www.instagram.com/"@ + username + "/"@
}

/// The text of the address that answers a page request. A page holds up to
/// 50 images.
pub open spec fn page_query_text(request: PageRequestView) -> Seq<char> {
    "https://www.instagram.com/graphql/query/?query_hash="@ + request.query_hash
        + "&variables={\"id\":\""@ + request.id + "\",\"first\":50,\"after\":\""@ + request.cursor
        + "\"}"@
}

/// Writes out the address of an account's profile page, unchecked.
pub fn profile_address_text(username: &str) -> (text: String)
    ensures
        text@ == profile_text(username@),
{
    let mut text: String = String::from_str("https://www.instagram.com/");
    text.append(username);
    text.append("/");
    text
}

/// The address of an account's profile page, or the reason why what the
/// user name gives is no address.
pub fn profile_url(username: &str) -> (url: Result<String, String>)
    ensures
        result_text(url) == url_parse(profile_text(username@)),
{
    let text: String = profile_address_text(username);
    parse_url(text.as_str())
}

impl PageRequest {
    /// Writes out the address that answers this request, unchecked.
    pub fn query_text(&self) -> (text: String)
        ensures
            text@ == page_query_text(self@),
    {
        let mut text: String = String::from_str(
            "https://www.instagram.com/graphql/query/?query_hash=",
        );
        text.append(self.query_hash.as_str());
        text.append("&variables={\"id\":\"");
        text.append(self.id.as_str());
        text.append("\",\"first\":50,\"after\":\"");
        text.append(self.cursor.as_str());
        text.append("\"}");
        text
    }

    /// The address that answers this request, or the reason why what the
    /// request gives is no address.
    pub fn url(&self) -> (url: Result<String, String>)
        ensures
            result_text(url) == url_parse(page_query_text(self@)),
    {
        let text: String = self.query_text();
        parse_url(text.as_str())
    }
}

} // verus!
