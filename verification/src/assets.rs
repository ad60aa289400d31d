//! The dashboard's static assets: which embedded file a request path names
//! and the content type it is served with.

use vstd::prelude::*;
use crate::text::{chars_to_string, str_chars};

verus! {

/// The MIME type `mime_guess` gives for a path (`from_path`, first guess,
/// `application/octet-stream` when it knows none); a lookup of the path's
/// extension in the crate's table.
pub uninterp spec fn mime_of(path: Seq<char>) -> Seq<char>;

/// Guesses the MIME type of a path with `mime_guess::from_path` and
/// `first_or_octet_stream`. Trusted: the result is `mime_of` of the path.
#[verifier::external_body]
fn guess_mime(path: &str) -> (res: String)
    ensures
        res@ == mime_of(path@),
{
    mime_guess::from_path(path).first_or_octet_stream().to_string()
}

/// `s` without its leading `/` characters.
pub open spec fn without_leading_slashes(s: Seq<char>) -> Seq<char>
    decreases s.len(),
{
    if s.len() > 0 && s[0] == '/' {
        without_leading_slashes(s.skip(1))
    } else {
        s
    }
}

/// The asset a request path names: the path without its leading slashes.
pub fn asset_key(path: &str) -> (res: String)
    ensures
        res@ == without_leading_slashes(path@),
{
    let c = str_chars(path);
    let mut i: usize = 0;
    assert(c@.skip(0) =~= c@);
    while i < c.len() && c[i] == '/'
        invariant
            i <= c@.len(),
            without_leading_slashes(c@) == without_leading_slashes(c@.skip(i as int)),
        decreases c@.len() - i,
    {
        assert(c@.skip(i as int).skip(1) =~= c@.skip(i + 1));
        i = i + 1;
    }
    assert(without_leading_slashes(c@.skip(i as int)) == c@.skip(i as int));
    let mut out: Vec<char> = Vec::new();
    let mut j: usize = i;
    while j < c.len()
        invariant
            i <= j <= c@.len(),
            out@ == c@.subrange(i as int, j as int),
        decreases c@.len() - j,
    {
        assert(c@.subrange(i as int, j + 1) =~= c@.subrange(i as int, j as int).push(c@[j as int]));
        out.push(c[j]);
        j = j + 1;
    }
    assert(c@.subrange(i as int, c@.len() as int) =~= c@.skip(i as int));
    chars_to_string(out.as_slice())
}

/// The content type an asset is served with: the MIME type guessed from the
/// request path without its leading slashes.
pub fn asset_content_type(path: &str) -> (res: String)
    ensures
        res@ == mime_of(without_leading_slashes(path@)),
{
    let key = asset_key(path);
    guess_mime(key.as_str())
}

} // verus!
