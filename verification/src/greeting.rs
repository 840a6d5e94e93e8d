//! The greeting shown to a visitor.

use vstd::prelude::*;
use vstd::string::*;

verus! {

/// The text that greets `name`: the name between `Hello, ` and an
/// exclamation mark.
pub open spec fn greeting(name: Seq<char>) -> Seq<char> {
    "Hello, "@ + name + "!"@
}

/// Builds the greeting for `name`. Showing it is left to the caller.
pub fn greet(name: &str) -> (message: String)
    ensures
        message@ == greeting(name@),
{
    let mut message: String = String::from_str("Hello, ");
    message.append(name);
    message.append("!");
    message
}

} // verus!
