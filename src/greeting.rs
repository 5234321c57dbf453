use vstd::prelude::*;
use vstd::string::StringExecFns;

verus! {

/// The text of a greeting addressed to `name`.
pub open spec fn greeting_text(name: Seq<char>) -> Seq<char> {
    "Hello, "@ + name + "!"@
}

/// Greets `name`: `Hello, <name>!`.
pub fn greet(name: String) -> (r: String)
    ensures
        r@ == greeting_text(name@),
{
    let mut r = String::from_str("Hello, ");
    r.append(name.as_str());
    r.append("!");
    r
}

} // verus!
