//! The UI-facing greeting the shell shows when a user signs in.

use vstd::prelude::*;
use vstd::string::StringExecFns;

verus! {

/// The greeting for a user name: a fixed salutation around the name.
pub open spec fn spec_greet(name: Seq<char>) -> Seq<char> {
    "Hello, "@ + name + "! Welcome to the CRM Meeting App."@
}

/// Formats the greeting for a user name.
pub fn greet(name: &str) -> (r: String)
    ensures
        r@ == spec_greet(name@),
{
    let mut out = String::from_str("Hello, ");
    out.append(name);
    out.append("! Welcome to the CRM Meeting App.");
    out
}

} // verus!
