//! Normalization of user-supplied URLs.
use vstd::prelude::*;

verus! {

/// The characters `http`, which every stored URL starts with.
pub open spec fn http_word() -> Seq<char> {
    seq!['h', 't', 't', 'p']
}

/// A URL carries an explicit scheme when it starts with `http` (this covers
/// `https` as well).
pub open spec fn has_scheme(s: Seq<char>) -> bool {
    s.len() >= 4 && s.subrange(0, 4) == http_word()
}

/// The stored form of a URL: unchanged when it carries a scheme, otherwise
/// prefixed with `http://`.
pub open spec fn normalized(s: Seq<char>) -> Seq<char> {
    if has_scheme(s) {
        s
    } else {
        "http://"@ + s
    }
}

/// Normalizing twice is the same as normalizing once.
pub proof fn lemma_normalized_idempotent(s: Seq<char>)
    ensures
        normalized(normalized(s)) == normalized(s),
        has_scheme(normalized(s)),
{
    reveal_strlit("http://");
    if !has_scheme(s) {
        let n = "http://"@ + s;
        assert(n.subrange(0, 4) =~= http_word());
    }
}

/// Whether `url` starts with `http`.
pub fn url_has_scheme(url: &str) -> (r: bool)
    ensures
        r == has_scheme(url@),
{
    let n = url.unicode_len();
    if n < 4 {
        return false;
    }
    let ok = url.get_char(0) == 'h' && url.get_char(1) == 't' && url.get_char(2) == 't'
        && url.get_char(3) == 'p';
    assert(ok == (url@.subrange(0, 4) =~= http_word()));
    ok
}

/// Returns the stored form of `url`: prefixed with `http://` unless it
/// already starts with `http`.
pub fn normalize_url(url: &str) -> (r: String)
    ensures
        r@ == normalized(url@),
{
    if url_has_scheme(url) {
        String::from_str(url)
    } else {
        let mut r = String::from_str("http://");
        r.append(url);
        r
    }
}

} // verus!
