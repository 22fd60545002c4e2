//! Endpoint resolution and HTTP status classes.

use vstd::prelude::*;

verus! {

/// Base of the API when the bot runs on the same host as the API.
pub open spec fn local_base() -> Seq<char> {
    "http://127.0.0.1:7788"@
}

/// Base of the public API.
pub open spec fn public_base() -> Seq<char> {
    "https://koromo.xyz/api"@
}

/// The absolute URL of a logical path: the base chosen by the mode flag, then
/// the path verbatim.
pub open spec fn resolved(on_server: bool, path: Seq<char>) -> Seq<char> {
    if on_server {
        local_base() + path
    } else {
        public_base() + path
    }
}

/// Resolves a logical path (with its own query string) to an absolute URL.
pub fn valid_domain(on_server: bool, path: &str) -> (r: String)
    ensures
        r@ == resolved(on_server, path@),
{
    let mut r = if on_server {
        String::from_str("http://127.0.0.1:7788")
    } else {
        String::from_str("https://koromo.xyz/api")
    };
    r.append(path);
    r
}

/// Whether a status code is in the success class, 200 to 299.
pub open spec fn success_class(code: u16) -> bool {
    200 <= code && code <= 299
}

pub fn is_success(code: u16) -> (r: bool)
    ensures
        r == success_class(code),
{
    200 <= code && code <= 299
}

} // verus!
