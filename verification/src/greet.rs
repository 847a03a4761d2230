//! The one command the shell exposes to the embedded web content.

use vstd::prelude::*;

verus! {

/// The fixed text standing before the name in a greeting.
pub open spec fn greeting_head() -> Seq<char> {
    "Hello, "@
}

/// The fixed text standing after the name in a greeting.
pub open spec fn greeting_tail() -> Seq<char> {
    "! You've been greeted from Rust!"@
}

/// The greeting owed for a name: the name itself, surrounded by the fixed
/// greeting template.
pub open spec fn greeting_of(name: Seq<char>) -> Seq<char> {
    greeting_head() + name + greeting_tail()
}

/// Formats the greeting for one name.  Pure: no side effects and no failure
/// condition.
pub fn greet(name: &str) -> (r: String)
    ensures
        r@ == greeting_of(name@),
{
    let mut r = String::from_str("Hello, ");
    r.append(name);
    r.append("! You've been greeted from Rust!");
    proof {
        assert(r@ =~= greeting_of(name@));
    }
    r
}

} // verus!
