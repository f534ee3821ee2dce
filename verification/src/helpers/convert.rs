//! Splitting text into one entry per character, as list models of the
//! window expect it.

use vstd::prelude::*;

use crate::text::push_char;

verus! {

/// One single-character string for each character of `s`, in order.
pub fn split_chars(s: &str) -> (parts: Vec<String>)
    ensures
        parts.len() == s@.len(),
        forall|i: int| 0 <= i < parts.len() ==> #[trigger] parts[i]@ == seq![s@[i]],
{
    let mut parts: Vec<String> = Vec::new();
    let chars = s.chars();
    for c in it: chars
        invariant
            it.seq() == s@,
            parts.len() == it.index(),
            forall|i: int| 0 <= i < parts.len() ==> #[trigger] parts[i]@ == seq![s@[i]],
    {
        let mut part = String::new();
        push_char(&mut part, c);
        assert(part@ =~= seq![c]);
        parts.push(part);
    }
    parts
}

} // verus!
