use vstd::prelude::*;

verus! {

/// Whether a string is exactly the given tag.
pub(crate) fn is_tag(s: &String, tag: &str) -> (r: bool)
    ensures
        r == (s@ == tag@),
{
    let t = tag.to_owned();
    s.eq(&t)
}

} // verus!
