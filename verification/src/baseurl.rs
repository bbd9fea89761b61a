//! The user-adjustable server address: sanitising what was typed and
//! previewing which host it points at.

use crate::api::{sanitise_base_url, spec_sanitise_base_url};
use vstd::prelude::*;

verus! {

/// The host component that URL parsing extracts from a text, or none
/// when the text is not a URL or has no host.  The outcome depends on
/// the text alone.
pub uninterp spec fn host_of(s: Seq<char>) -> Option<Seq<char>>;

/// Relies on url::Url::parse and url::Url::host_str: parsing either
/// yields a URL, whose host component `host_str` hands back when one
/// exists, or fails; the outcome is a function of the text alone.
#[verifier::external_body]
fn parse_host(s: &str) -> (r: Option<String>)
    ensures
        match r {
            Some(h) => host_of(s@) == Some(h@),
            None => host_of(s@) is None,
        },
{
    match url::Url::parse(s) {
        Ok(u) => u.host_str().map(|h| h.to_owned()),
        Err(_) => None,
    }
}

/// The host to show beside the server-address input: none while the
/// input is empty or is no URL with a host, else the host of the input
/// with one trailing slash stripped.
pub fn api_host_preview(input: &str) -> (r: Option<String>)
    ensures
        input@.len() == 0 ==> r is None,
        input@.len() > 0 ==> match r {
            Some(h) => host_of(spec_sanitise_base_url(input@)) == Some(h@),
            None => host_of(spec_sanitise_base_url(input@)) is None,
        },
{
    if input.unicode_len() == 0 {
        return None;
    }
    let cleaned = sanitise_base_url(input.to_owned());
    parse_host(cleaned.as_str())
}

} // verus!
