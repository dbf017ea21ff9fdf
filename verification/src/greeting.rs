//! The one command the backend exposes to the front end: a greeting
//! formatter. It is total and pure, with no failure condition.

use vstd::prelude::*;

verus! {

/// The greeting for a given name: the fixed template with the name spliced
/// between the salutation and the application name, unchanged — no trimming,
/// escaping or validation.
pub open spec fn greeting_of(name: Seq<char>) -> Seq<char> {
    "Bonjour "@ + name + " depuis Panoramix!"@
}

/// Format the greeting for `name`. Defined for every string, the empty one
/// and non-ASCII ones included; the result is exactly the template with
/// `name` substituted.
pub fn greet(name: &str) -> (r: String)
    ensures
        r@ == greeting_of(name@),
{
    let mut s = String::from_str("Bonjour ");
    s.append(name);
    s.append(" depuis Panoramix!");
    s
}

/// The greeting is deterministic: any two results obtained for the same
/// name agree character for character, so repeated calls are identical.
pub proof fn lemma_greet_deterministic(name: Seq<char>, r1: Seq<char>, r2: Seq<char>)
    requires
        r1 == greeting_of(name),
        r2 == greeting_of(name),
    ensures
        r1 == r2,
{
}

} // verus!
