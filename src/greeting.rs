//! The greeting handed back to the front end.
use vstd::prelude::*;
use vstd::string::*;

verus! {

/// Text that stands before the name in a greeting.
pub open spec fn greeting_prefix() -> Seq<char> {
    "Hello, "@
}

/// Text that stands after the name in a greeting.
pub open spec fn greeting_suffix() -> Seq<char> {
    "! You've been greeted from Rust!"@
}

/// The greeting for `name`: the name, verbatim, between a fixed prefix and suffix.
pub open spec fn greeting(name: Seq<char>) -> Seq<char> {
    greeting_prefix() + name + greeting_suffix()
}

/// Builds the greeting for `name`.
pub fn greet(name: &str) -> (r: String)
    ensures
        r@ == greeting(name@),
{
    let mut s = String::from_str("Hello, ");
    s.append(name);
    s.append("! You've been greeted from Rust!");
    s
}

/// Every greeting is "Hello, " followed by the name exactly as given, followed by
/// "! You've been greeted from Rust!": the name can be read back out of it unchanged.
pub proof fn greeting_holds_name_verbatim(name: Seq<char>)
    ensures
        greeting(name).len() == name.len() + 39,
        greeting(name).subrange(0, 7) == "Hello, "@,
        greeting(name).subrange(7, 7 + name.len() as int) == name,
        greeting(name).subrange(7 + name.len() as int, greeting(name).len() as int)
            == "! You've been greeted from Rust!"@,
{
    reveal_strlit("Hello, ");
    reveal_strlit("! You've been greeted from Rust!");
    let g = greeting(name);
    assert(g.subrange(0, 7) =~= "Hello, "@);
    assert(g.subrange(7, 7 + name.len() as int) =~= name);
    assert(g.subrange(7 + name.len() as int, g.len() as int) =~= "! You've been greeted from Rust!"@);
}

} // verus!
