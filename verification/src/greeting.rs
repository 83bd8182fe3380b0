//! The greeting command exposed to the window's page.

use vstd::prelude::*;

verus! {

/// The greeting returned for a caller-supplied name.
pub fn greet(name: &str) -> (r: String)
    ensures
        r@ == "Hello, "@ + name@ + "!"@,
{
    let mut s = String::from_str("Hello, ");
    s.append(name);
    s.append("!");
    s
}

} // verus!
