//! State shared by the storage server's HTTP routes, and how the route prefix shapes the
//! published API description.

use vstd::prelude::*;
use vstd::string::*;

use crate::text::{starts_with, str_eq};

verus! {

#[derive(Clone, Debug)]
pub struct RouterState {
    pub api_base_uri: String,
}

impl RouterState {
    pub fn new(api_base_uri: &str) -> (r: Self)
        ensures
            r.api_base_uri@ == api_base_uri@,
    {
        RouterState { api_base_uri: api_base_uri.to_owned() }
    }
}

/// The prefix under which the routes are mounted: none for `/`.
pub open spec fn effective_prefix(prefix: Seq<char>) -> Seq<char> {
    if prefix == "/"@ {
        ""@
    } else {
        prefix
    }
}

/// The mount prefix of the routes, given the configured prefix.
pub fn route_prefix(prefix: &str) -> (r: String)
    ensures
        r@ == effective_prefix(prefix@),
{
    if str_eq(prefix, "/") {
        String::from_str("")
    } else {
        prefix.to_owned()
    }
}

impl RouterState {
    /// The server URL that the API description names: the public base URI followed by the
    /// mount prefix.
    pub fn server_url(&self, prefix: &str) -> (r: String)
        ensures
            r@ == self.api_base_uri@ + effective_prefix(prefix@),
    {
        let mut url = self.api_base_uri.clone();
        let p = route_prefix(prefix);
        url.append(p.as_str());
        url
    }
}

/// A route path as the API description lists it: without the mount prefix where it starts
/// with it, unchanged otherwise.
pub fn strip_route_prefix(path: &str, prefix: &str) -> (r: String)
    ensures
        prefix@.is_prefix_of(path@) ==> r@ == path@.subrange(prefix@.len() as int, path@.len() as int),
        !prefix@.is_prefix_of(path@) ==> r@ == path@,
{
    if starts_with(path, prefix) {
        let from = prefix.unicode_len();
        let to = path.unicode_len();
        path.substring_char(from, to).to_owned()
    } else {
        path.to_owned()
    }
}

} // verus!
