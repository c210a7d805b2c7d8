//! Record-key extraction and small string utilities of the graph layer.
use vstd::prelude::*;
use vstd::string::StrSliceExecFns;
use vstd::string::StringExecFns;

verus! {

/// The record key of an AT-URI: its final 13 characters, or the whole
/// URI when it is shorter than that.
pub open spec fn spec_parse_rkey(uri: Seq<char>) -> Seq<char> {
    if uri.len() >= 13 {
        uri.subrange(uri.len() - 13, uri.len() as int)
    } else {
        uri
    }
}

/// Extract the record key from an AT-URI.
///
/// For any URI of at least 13 characters the result is exactly the final
/// 13 characters; shorter URIs come back whole, and no input panics.
pub fn parse_rkey(uri: &str) -> (r: String)
    ensures
        r@ == spec_parse_rkey(uri@),
        uri@.len() >= 13 ==> r@ == uri@.subrange(uri@.len() - 13, uri@.len() as int),
{
    let n = uri.unicode_len();
    if n >= 13 {
        let s = uri.substring_char(n - 13, n);
        s.to_owned()
    } else {
        uri.to_owned()
    }
}

/// The AT-URI of a post, assembled from its author and record key.
pub open spec fn spec_post_uri(did: Seq<char>, rkey: Seq<char>) -> Seq<char> {
    "at://"@ + did + "/app.bsky.feed.post/"@ + rkey
}

/// Assemble the AT-URI that names a post record.
pub fn get_post_uri(did: String, rkey: String) -> (r: String)
    ensures
        r@ == spec_post_uri(did@, rkey@),
{
    let mut s = String::from_str("at://");
    s.append(did.as_str());
    s.append("/app.bsky.feed.post/");
    s.append(rkey.as_str());
    proof {
        assert(s@ =~= spec_post_uri(did@, rkey@));
    }
    s
}

/// The plural of an English noun, by the suffix rules of the graph
/// layer's vocabulary helper.
pub open spec fn spec_pluralize(w: Seq<char>) -> Seq<char>
    recommends
        w.len() >= 1,
{
    let last = w[w.len() - 1];
    let snip = w.subrange(0, w.len() - 1);
    if last == 'y' {
        snip + "ies"@
    } else if last == 's' || last == 'x' || last == 'z' {
        w + "es"@
    } else if last == 'o' && !(w.len() >= 2 && w[w.len() - 2] == 'o') {
        snip + "oes"@
    } else if last == 'u' {
        snip + "i"@
    } else {
        w + "s"@
    }
}

/// Pluralize an ASCII noun: `y -> ies`, sibilants take `es`, a single
/// trailing `o` takes `oes`, `u -> i`, anything else takes `s`.
pub fn pluralize(word: &str) -> (r: String)
    requires
        word@.len() >= 1,
        word.is_ascii(),
    ensures
        r@ == spec_pluralize(word@),
{
    let n = word.unicode_len();
    let last = word.get_char(n - 1);
    let snip = word.substring_char(0, n - 1);
    if last == 'y' {
        let mut s = snip.to_owned();
        s.append("ies");
        s
    } else if last == 's' || last == 'x' || last == 'z' {
        let mut s = word.to_owned();
        s.append("es");
        s
    } else if last == 'o' && !(n >= 2 && word.get_char(n - 2) == 'o') {
        let mut s = snip.to_owned();
        s.append("oes");
        s
    } else if last == 'u' {
        let mut s = snip.to_owned();
        s.append("i");
        s
    } else {
        let mut s = word.to_owned();
        s.append("s");
        s
    }
}

} // verus!
