//! The data of a library: bookmarks, chapters and the library itself.

use vstd::prelude::*;
use vstd::string::*;

pub mod bookmarks;
pub mod chapter;
pub mod mediainfo;
pub mod order;
pub mod scan;
pub mod tracks;


verus! {

/// The scheme in front of a path that makes it a URI for the media engine.
pub open spec fn uri_scheme() -> Seq<char> {
    seq!['f', 'i', 'l', 'e', ':', '/', '/']
}

/// Given a `path`, creates the string in the format that the media engine
/// needs.
pub fn make_uri(path: &str) -> (uri: String)
    ensures
        uri@ == uri_scheme() + path@,
{
    proof {
        reveal_strlit("file://");
    }
    let mut uri = String::from_str("file://");
    assert(uri@ =~= uri_scheme());
    uri.append(path);
    uri
}

/// What an optional string holds.
pub open spec fn opt_view(text: Option<String>) -> Option<Seq<char>> {
    match text {
        None => None,
        Some(t) => Some(t@),
    }
}

} // verus!
