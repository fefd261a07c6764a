//! Lines of text as the screens keep them.

use vstd::prelude::*;
use vstd::string::*;

verus! {

/// The lines of `text` as character sequences.
pub open spec fn lines_of(text: Seq<String>) -> Seq<Seq<char>> {
    Seq::new(text.len(), |i: int| text[i]@)
}

/// The literals of `items` as character sequences.
pub open spec fn labels_of(items: Seq<&'static str>) -> Seq<Seq<char>> {
    Seq::new(items.len(), |i: int| items[i]@)
}

/// Owned copies of the literals in `items`, in the same order.
pub fn owned_lines(items: Vec<&'static str>) -> (text: Vec<String>)
    ensures
        lines_of(text@) == labels_of(items@),
{
    let mut text: Vec<String> = Vec::new();
    let mut i: usize = 0;
    while i < items.len()
        invariant
            i <= items.len(),
            text@.len() == i,
            forall|j: int| 0 <= j < i ==> (#[trigger] text@[j])@ == items@[j]@,
        decreases items.len() - i,
    {
        text.push(String::from_str(items[i]));
        i += 1;
    }
    text
}

} // verus!
