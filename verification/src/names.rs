//! Display names of entities.

use vstd::prelude::*;

verus! {

/// The name shown for an entity: its own name, or `fallback` when it has none.
pub open spec fn spec_display_name(name: Seq<char>, fallback: Seq<char>) -> Seq<char> {
    if name.len() == 0 {
        fallback
    } else {
        name
    }
}

/// Returns `name` if non-empty, otherwise `fallback`.
pub fn display_name<'a>(name: &'a str, fallback: &'a str) -> (r: &'a str)
    ensures
        r@ == spec_display_name(name@, fallback@),
        fallback@.len() > 0 ==> r@.len() > 0,
{
    if name.is_empty() {
        fallback
    } else {
        name
    }
}

/// A name cut to at most `max` characters: a longer name keeps its first
/// `max - 1` characters (none when `max` is 0) followed by an ellipsis `…`.
pub open spec fn spec_truncate(name: Seq<char>, max: nat) -> Seq<char> {
    if name.len() > max {
        name.take(if max >= 1 { max - 1 } else { 0 }) + seq!['\u{2026}']
    } else {
        name
    }
}

/// Shortens a name to at most `max` characters, marking the cut with `…`.
pub fn truncate(name: &str, max: usize) -> (r: String)
    ensures
        r@ == spec_truncate(name@, max as nat),
        max >= 1 ==> r@.len() <= max,
        r@.len() <= name@.len(),
{
    if name.unicode_len() > max {
        let keep = if max >= 1 { max - 1 } else { 0 };
        let head = name.substring_char(0, keep);
        let mut s = String::from_str(head);
        proof {
            reveal_strlit("\u{2026}");
        }
        s.append("\u{2026}");
        proof {
            assert(name@.subrange(0, keep as int) == name@.take(keep as int));
        }
        s
    } else {
        name.to_owned()
    }
}

} // verus!
