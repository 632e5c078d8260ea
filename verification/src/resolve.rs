//! Trusted bridge to the URL parser: resolving a raw, possibly relative
//! reference against the URL of the page that carries it.

use vstd::prelude::*;

verus! {

/// The absolute URL that resolving `rel` against `base` yields, when `base`
/// parses and the resolution succeeds; a function of the two strings alone.
pub uninterp spec fn join_of(base: Seq<char>, rel: Seq<char>) -> Option<Seq<char>>;

/// Relies on url's `Url::parse` and `Url::join`: parses `base`, resolves
/// `rel` against it, and renders the result with `Url::as_str`. The error
/// text describes the parse failure.
#[verifier::external_body]
pub(crate) fn resolve_url(base: &str, rel: &str) -> (r: Result<String, String>)
    ensures
        match r {
            Ok(u) => join_of(base@, rel@) == Some(u@),
            Err(_) => join_of(base@, rel@) is None,
        },
{
    let b = match url::Url::parse(base) {
        Ok(b) => b,
        Err(e) => return Err(e.to_string()),
    };
    match b.join(rel) {
        Ok(u) => Ok(u.as_str().to_string()),
        Err(e) => Err(e.to_string()),
    }
}

} // verus!
