//! The host set: well-known, highly available hosts that serve as time
//! oracles. Only the `Date` header of their answer is used.

use vstd::prelude::*;
use vstd::string::StringExecFns;

verus! {

/// How many hosts are asked in a round.
pub const HOST_COUNT: usize = 12;

/// Seconds allowed for reading a response, and as many for writing a request.
pub const FETCH_TIMEOUT_SECS: u64 = 2;

/// The name of the host at `index`.
pub open spec fn host_name(index: int) -> Seq<char> {
    if index == 0 {
        "facebook.com"@
    } else if index == 1 {
        "microsoft.com"@
    } else if index == 2 {
        "amazon.com"@
    } else if index == 3 {
        "google.com"@
    } else if index == 4 {
        "youtube.com"@
    } else if index == 5 {
        "twitter.com"@
    } else if index == 6 {
        "reddit.com"@
    } else if index == 7 {
        "netflix.com"@
    } else if index == 8 {
        "bing.com"@
    } else if index == 9 {
        "twitch.tv"@
    } else if index == 10 {
        "myshopify.com"@
    } else {
        "wikipedia.org"@
    }
}

/// The host at `index`, or `None` past the end of the set.
pub fn host(index: usize) -> (name: Option<&'static str>)
    ensures
        index < HOST_COUNT ==> (name matches Some(text) && text@ == host_name(index as int)),
        index >= HOST_COUNT ==> name is None,
{
    match index {
        0 => Some("facebook.com"),
        1 => Some("microsoft.com"),
        2 => Some("amazon.com"),
        3 => Some("google.com"),
        4 => Some("youtube.com"),
        5 => Some("twitter.com"),
        6 => Some("reddit.com"),
        7 => Some("netflix.com"),
        8 => Some("bing.com"),
        9 => Some("twitch.tv"),
        10 => Some("myshopify.com"),
        11 => Some("wikipedia.org"),
        _ => None,
    }
}

/// The address that is asked for a host's time: plain HTTP on the default
/// port, nothing but the host's name behind the scheme.
pub fn request_url(host: &str) -> (url: String)
    ensures
        url@ == "http://"@ + host@,
{
    String::from_str("http://").concat(host)
}

} // verus!
