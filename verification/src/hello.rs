//! Greetings.

use vstd::prelude::*;

verus! {

/// Greets by name.
pub fn hello(name: &str) -> (greeting: String)
    ensures
        greeting@ == "hello: "@ + name@,
{
    "hello: ".to_owned().concat(name)
}

/// Greets by name, the second way.
pub fn hello2(name: &str) -> (greeting: String)
    ensures
        greeting@ == "hello2: "@ + name@,
{
    "hello2: ".to_owned().concat(name)
}

} // verus!
