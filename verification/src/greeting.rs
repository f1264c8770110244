//! The greeting command: formats a fixed salutation around a caller-supplied
//! name. The operation is total: any text, empty or not, is accepted verbatim.

use vstd::prelude::*;

verus! {

/// The fixed text that precedes the caller's name in every greeting.
pub open spec fn greeting_prefix() -> Seq<char> {
    "Hello, "@
}

/// The fixed text that follows the caller's name in every greeting.
pub open spec fn greeting_suffix() -> Seq<char> {
    "! You've been greeted from the native layer!"@
}

/// The full greeting for a given name: the prefix, the name verbatim, the suffix.
pub open spec fn greeting(name: Seq<char>) -> Seq<char> {
    greeting_prefix() + name + greeting_suffix()
}

/// Formats the greeting for `name`. Succeeds on every input and embeds the
/// name unmodified between the fixed prefix and suffix.
pub fn greet(name: &str) -> (message: String)
    ensures
        message@ == greeting(name@),
{
    let mut message = String::from_str("Hello, ");
    message.append(name);
    message.append("! You've been greeted from the native layer!");
    message
}

/// Law: every greeting embeds the given name unmodified — the name, control
/// characters and all, stands as a contiguous substring of the message.
pub proof fn lemma_greeting_contains_name(name: Seq<char>)
    ensures
        exists|at: int|
            0 <= at && at + name.len() <= greeting(name).len() && #[trigger] greeting(
                name,
            ).subrange(at, at + name.len() as int) == name,
{
    reveal_strlit("Hello, ");
    let at = greeting_prefix().len() as int;
    assert(greeting(name).subrange(at, at + name.len() as int) =~= name);
}

} // verus!
