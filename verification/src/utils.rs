//! Small helpers.

use vstd::prelude::*;
use vstd::string::{to_string_from_display_ensures, StringExecFns};
use std::fmt::Display;

verus! {

/// A slice whose text is that of its elements as `Display` shows them, in square
/// brackets and with a comma and a space between them. The text of an empty slice
/// is empty.
pub struct SliceDisplay<'s, T>(pub &'s [T]);

/// `parts` with a comma and a space after each.
pub open spec fn listed(parts: Seq<Seq<char>>) -> Seq<char>
    decreases parts.len(),
{
    if parts.len() == 0 {
        Seq::empty()
    } else {
        listed(parts.drop_last()) + parts.last() + ", "@
    }
}

/// `parts` in square brackets, with a comma and a space between them; nothing at
/// all where there are no parts.
pub open spec fn bracketed(parts: Seq<Seq<char>>) -> Seq<char> {
    if parts.len() == 0 {
        Seq::empty()
    } else {
        "["@ + listed(parts.drop_last()) + parts.last() + "]"@
    }
}

/// The texts of `parts`.
pub open spec fn texts(parts: Seq<String>) -> Seq<Seq<char>> {
    Seq::new(parts.len(), |i: int| parts[i]@)
}

/// Whether `parts` are the texts of `items`, each as its `Display` shows it.
pub open spec fn shown_as<T: Display>(items: Seq<T>, parts: Seq<String>) -> bool {
    &&& parts.len() == items.len()
    &&& forall|i: int|
        0 <= i < items.len() ==> #[trigger] to_string_from_display_ensures::<T>(
            &items[i],
            parts[i],
        )
}

/// Puts `parts` in square brackets, with a comma and a space between them.
pub fn join_bracketed(parts: &Vec<String>) -> (text: String)
    ensures
        text@ == bracketed(texts(parts@)),
{
    let mut text = String::new();
    if parts.len() == 0 {
        return text;
    }
    text.append("[");
    let last: usize = parts.len() - 1;
    let mut i: usize = 0;
    while i < last
        invariant
            i <= last,
            last == parts.len() - 1,
            text@ == "["@ + listed(texts(parts@).take(i as int)),
        decreases last - i,
    {
        proof {
            assert(texts(parts@).take(i + 1).drop_last() =~= texts(parts@).take(i as int));
        }
        text.append(parts[i].as_str());
        text.append(", ");
        i = i + 1;
    }
    proof {
        assert(texts(parts@).take(last as int) =~= texts(parts@).drop_last());
    }
    text.append(parts[last].as_str());
    text.append("]");
    text
}

impl<'s, T: Display> SliceDisplay<'s, T> {
    /// The text of the slice.
    pub fn to_string(&self) -> (text: String)
        ensures
            exists|parts: Seq<String>| #[trigger]
                shown_as(self.0@, parts) && text@ == bracketed(texts(parts)),
    {
        let mut parts: Vec<String> = Vec::new();
        let mut i: usize = 0;
        while i < self.0.len()
            invariant
                i <= self.0.len(),
                shown_as(self.0@.take(i as int), parts@),
            decreases self.0.len() - i,
        {
            let part = self.0[i].to_string();
            parts.push(part);
            i = i + 1;
        }
        proof {
            assert(self.0@.take(i as int) =~= self.0@);
        }
        join_bracketed(&parts)
    }
}

} // verus!
