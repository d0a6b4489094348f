use vstd::prelude::*;

verus! {

/// The text that `greet` returns for a name.
pub open spec fn greeting_text(name: Seq<char>) -> Seq<char> {
    "Hello, "@ + name + "! You've been greeted from Rust!"@
}

/// Greets `name`. The result depends on the characters of `name` alone.
pub fn greet(name: &str) -> (r: String)
    ensures
        r@ == greeting_text(name@),
{
    let text = String::from_str("Hello, ");
    let text = text.concat(name);
    text.concat("! You've been greeted from Rust!")
}

/// The greeting holds the name, right after the opening words.
pub proof fn lemma_greeting_holds_the_name(name: Seq<char>)
    ensures
        greeting_text(name).subrange("Hello, "@.len() as int, ("Hello, "@.len() + name.len()) as int)
            == name,
{
    assert(greeting_text(name).subrange("Hello, "@.len() as int, ("Hello, "@.len() + name.len()) as int)
        =~= name);
}

} // verus!
