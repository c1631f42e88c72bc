//! Joining pieces of source text.

use vstd::prelude::*;

verus! {

/// The pieces in order, with the separator between each two of them.
pub open spec fn joined(parts: Seq<Seq<char>>, separator: Seq<char>) -> Seq<char>
    decreases parts.len(),
{
    if parts.len() == 0 {
        Seq::empty()
    } else if parts.len() == 1 {
        parts[0]
    } else {
        joined(parts.drop_last(), separator) + separator + parts.last()
    }
}

/// Joins the pieces, with the separator between each two of them.
pub fn join(parts: &Vec<String>, separator: &str) -> (text: String)
    ensures
        text@ == joined(parts.deep_view(), separator@),
{
    let mut text = String::new();
    let mut index: usize = 0;
    while index < parts.len()
        invariant
            index <= parts.len(),
            text@ == joined(parts.deep_view().take(index as int), separator@),
        decreases parts.len() - index,
    {
        assert(parts.deep_view().take(index + 1).drop_last() =~= parts.deep_view().take(
            index as int,
        ));
        if index > 0 {
            text.append(separator);
        }
        text.append(parts[index].as_str());
        index += 1;
    }
    assert(parts.deep_view().take(index as int) =~= parts.deep_view());
    text
}

} // verus!
