//! The greeting that the host shows to a visitor.

use vstd::prelude::*;
use vstd::string::StringExecFns;

verus! {

/// The text of the greeting for `name`: the name set between a fixed opening
/// and a fixed ending.
pub open spec fn greeting(name: Seq<char>) -> Seq<char> {
    "Hello, this is "@ + name + " wasm-game-of-life!"@
}

/// Composes the greeting for `name`. Showing it is left to the host.
pub fn greet(name: &str) -> (message: String)
    ensures
        message@ == greeting(name@),
{
    let mut message = String::from_str("Hello, this is ");
    message.append(name);
    message.append(" wasm-game-of-life!");
    message
}

} // verus!
