//! A greeter: it turns a name into a greeting, and proves which one.
//!
//! Text is modelled as `Seq<char>`, the view of `str` and of `String`. The spec
//! function [`greet`] says what the greeting of a name is; [`hello`] is the
//! executable function that builds it.

use vstd::prelude::*;
use vstd::utf8::encode_utf8;

verus! {

/// The text that every greeting begins with.
pub open spec fn greeting_prefix() -> Seq<char> {
    "hello, "@
}

/// The greeting of `name`: the prefix, then the name exactly as it was given.
pub open spec fn greet(name: Seq<char>) -> Seq<char> {
    greeting_prefix() + name
}

/// Builds the greeting of `name`.
///
/// Every name is accepted, the empty one too, and the name is taken over
/// unchanged: nothing is trimmed, escaped or changed in case. The greeting is
/// seven characters longer than the name, so never shorter than the prefix.
pub fn hello(name: &str) -> (greeting: String)
    ensures
        greeting@ == greet(name@),
        greeting@.len() == name@.len() + 7,
        greeting@.len() >= greeting_prefix().len(),
{
    proof {
        reveal_strlit("hello, ");
    }
    let mut greeting = String::from_str("hello, ");
    greeting.append(name);
    greeting
}

/// A greeting is determined by the name alone: whenever `first` and `second`
/// are both greetings of `name`, they are the same text, character for
/// character, and so the same bytes once encoded.
pub proof fn lemma_hello_deterministic(name: &str, first: String, second: String)
    requires
        first@ == greet(name@),
        second@ == greet(name@),
    ensures
        first@ == second@,
        encode_utf8(first@) == encode_utf8(second@),
{
}

} // verus!
