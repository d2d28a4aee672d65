//! Predicates on messages: where a text occurs in another, and whether a
//! message ends by naming a target.

use vstd::prelude::*;

verus! {

/// Whether `pattern` stands in `text` at position `i`.
pub open spec fn occurs_at(pattern: Seq<char>, text: Seq<char>, i: int) -> bool {
    &&& 0 <= i
    &&& i + pattern.len() <= text.len()
    &&& text.subrange(i, i + pattern.len()) == pattern
}

/// Whether `pattern` stands somewhere in `text`.
pub open spec fn occurs_in(pattern: Seq<char>, text: Seq<char>) -> bool {
    exists|i: int| occurs_at(pattern, text, i)
}

/// The words that name the target at the end of a message: `for '<target>'`.
pub open spec fn target_suffix(target: Seq<char>) -> Seq<char> {
    "for '"@ + target + "'"@
}

/// Whether a message ends by naming some target.
pub open spec fn names_a_target(message: Seq<char>) -> bool {
    exists|target: Seq<char>| #[trigger] target_suffix(target).is_suffix_of(message)
}

} // verus!
