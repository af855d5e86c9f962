//! Forwarding of utility routes.

use vstd::prelude::*;

verus! {

/// The URL a utility request is forwarded to: the host placeholder `endpoint`,
/// the request path and, when present, `?` and the query.
pub fn forward_url(path: &str, query: Option<&str>) -> (url: String)
    ensures
        url@ == match query {
            Some(q) => "http://endpoint"@ + path@ + "?"@ + q@,
            None => "http://endpoint"@ + path@,
        },
{
    let mut url = String::from_str("http://endpoint");
    url.append(path);
    match query {
        Some(q) => {
            url.append("?");
            url.append(q);
        },
        None => {},
    }
    url
}

} // verus!
