//! The greeting text that the bridge hands across the call boundary.
use vstd::prelude::*;

verus! {

/// The greeting, character by character: "Hello " followed by a crab.
pub open spec fn greeting_text() -> Seq<char> {
    seq!['H', 'e', 'l', 'l', 'o', ' ', '\u{1F980}']
}

/// Builds a freshly owned copy of the greeting text.
pub fn greeting_message() -> (r: String)
    ensures
        r@ == greeting_text(),
{
    let text = "Hello \u{1F980}";
    proof {
        reveal_strlit("Hello \u{1F980}");
    }
    String::from_str(text)
}

/// Building the greeting twice gives two strings with the same text, seven
/// characters long: the content of a greeting never depends on what was
/// built before it.
pub proof fn lemma_greeting_repeats(first: String, second: String)
    requires
        first@ == greeting_text(),
        second@ == greeting_text(),
    ensures
        first@ == second@,
        first@.len() == 7,
{
}

} // verus!
