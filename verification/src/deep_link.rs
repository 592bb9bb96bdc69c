//! Turning an app link into the fragment that the login page reads.

use vstd::prelude::*;
use crate::text::{find_char, first_at, text_of};

verus! {

/// The query of a link: what stands between its first `?` and the next one
/// (or the end). `None` for a link without `?`.
pub open spec fn query_of(url: Seq<char>) -> Option<Seq<char>> {
    let start = first_at(url, '?', 0);
    if start >= url.len() {
        None
    } else {
        Some(url.subrange(start + 1, first_at(url, '?', start + 1)))
    }
}

/// The fragment for a link: `#` and its query, if it has one that is not
/// empty.
pub open spec fn hash_of(url: Seq<char>) -> Option<Seq<char>> {
    match query_of(url) {
        Some(q) => if q.len() == 0 {
            None
        } else {
            Some(seq!['#'] + q)
        },
        None => None,
    }
}

/// The script that puts a fragment into the page's location.
pub open spec fn script_of(hash: Seq<char>) -> Seq<char> {
    "window.location.hash = '"@ + hash + "';"@
}

/// Extracts the query of an app link as a fragment:
/// `https://host/open?u=a&p=b` gives `#u=a&p=b`.
pub fn deep_link_to_hash(url_str: &str) -> (r: Option<String>)
    ensures
        text_of(r) == hash_of(url_str@),
{
    let n: usize = url_str.unicode_len();
    let start: usize = find_char(url_str, '?', 0);
    if start >= n {
        return None;
    }
    let end: usize = find_char(url_str, '?', start + 1);
    if end == start + 1 {
        return None;
    }
    let query = url_str.substring_char(start + 1, end);
    proof {
        reveal_strlit("#");
    }
    let mut hash = String::from_str("#");
    hash.append(query);
    assert(hash@ =~= seq!['#'] + query@);
    Some(hash)
}

/// The script to evaluate in the main window for an incoming link, `None`
/// where the link carries no query.
pub fn handle_deep_link(url_str: &str) -> (r: Option<String>)
    ensures
        text_of(r) == match hash_of(url_str@) {
            Some(h) => Some(script_of(h)),
            None => None,
        },
{
    match deep_link_to_hash(url_str) {
        Some(hash) => {
            let mut script = String::from_str("window.location.hash = '");
            script.append(hash.as_str());
            script.append("';");
            Some(script)
        },
        None => None,
    }
}

} // verus!
