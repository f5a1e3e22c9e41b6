use vstd::prelude::*;
use vstd::string::*;

verus! {

/// The greeting built for `name`: a fixed prefix, the name verbatim, a fixed
/// suffix.
pub open spec fn greet_message(name: Seq<char>) -> Seq<char> {
    "Hello, "@ + name + "! You've been greeted from Rust!"@
}

/// Builds the greeting returned to the caller for `name`.
pub fn greet(name: &str) -> (r: String)
    ensures
        r@ == greet_message(name@),
{
    let mut r = "Hello, ".to_owned();
    r.append(name);
    r.append("! You've been greeted from Rust!");
    r
}

/// The greeting holds the name verbatim, surrounded by the fixed template:
/// seven characters of prefix, thirty-two of suffix, and nothing else.
pub proof fn lemma_greet_contains_name(name: Seq<char>)
    ensures
        greet_message(name).len() == name.len() + 39,
        greet_message(name).subrange(7, 7 + name.len() as int) == name,
        greet_message(name).subrange(0, 7) == "Hello, "@,
        greet_message(name).subrange(7 + name.len() as int, name.len() as int + 39) == "! You've been greeted from Rust!"@,
{
    reveal_strlit("Hello, ");
    reveal_strlit("! You've been greeted from Rust!");
    assert(greet_message(name).subrange(7, 7 + name.len() as int) =~= name);
    assert(greet_message(name).subrange(0, 7) =~= "Hello, "@);
    assert(greet_message(name).subrange(7 + name.len() as int, name.len() as int + 39)
        =~= "! You've been greeted from Rust!"@);
}

} // verus!
