use vstd::prelude::*;

verus! {

/// What resolving `href` against the base URL string `base` yields:
/// the serialisation of the resolved URL, or nothing when `base` does
/// not parse as an absolute URL or `href` cannot be parsed against it.
/// The outcome is a function of the two strings alone.
pub uninterp spec fn join_of(base: Seq<char>, href: Seq<char>) -> Option<Seq<char>>;

/// Relies on url::Url::parse and url::Url::join: resolving a reference
/// against a base URL string is deterministic in the two strings, and
/// failure of either step means the reference is unresolvable here.
#[verifier::external_body]
pub(crate) fn resolve_url(base: &str, href: &str) -> (r: Option<String>)
    ensures
        r.deep_view() == join_of(base@, href@),
{
    match url::Url::parse(base) {
        Ok(b) => match b.join(href) {
            Ok(u) => Some(String::from(u)),
            Err(_) => None,
        },
        Err(_) => None,
    }
}

} // verus!
