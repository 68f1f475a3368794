//! Fixed responses of the HTTP surface.
use vstd::prelude::*;

verus! {

/// The greeting of the liveness endpoint.
pub fn index() -> (r: &'static str)
    ensures
        r@ == "Hello, world!"@,
{
    "Hello, world!"
}

} // verus!
