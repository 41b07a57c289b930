//! The greeting the UI's one demonstration command returns.

use vstd::prelude::*;
use vstd::string::StringExecFns;

verus! {

/// The greeting for `name`, exactly the salutation, the name, and the tag
/// line.
pub fn greet(name: &str) -> (r: String)
    ensures
        r@ == "Hello, "@ + name@ + "! You've been greeted from Rust!"@,
{
    let mut r = String::from_str("Hello, ");
    r.append(name);
    r.append("! You've been greeted from Rust!");
    r
}

} // verus!
