//! The handler-registration rule set: a verb and a path select a method
//! string, and the given block is wrapped in a zero-argument closure and
//! handed to the registry entry point.

use vstd::prelude::*;

verus! {

/// What a registered handler produces when invoked.
#[derive(Debug)]
pub struct Response(pub usize);

/// The registry entry point the rule set expands into a call of.  It
/// records nothing and returns nothing.
#[allow(unused_variables)]
pub fn register_handler<F: Fn() -> Response>(method: &str, path: &str, handler: &F) {
}

/// Expansion of the GET arm: registers the handler under the method string
/// `"GET"`.
pub fn web_get<F: Fn() -> Response>(path: &str, handler: &F) {
    register_handler("GET", path, handler)
}

/// Expansion of the POST arm: registers the handler under the method string
/// `"POST"`.
pub fn web_post<F: Fn() -> Response>(path: &str, handler: &F) {
    register_handler("POST", path, handler)
}

} // verus!
