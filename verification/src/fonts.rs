//! Font fallback order.

use vstd::prelude::*;

verus! {

/// Puts the loaded font names at the front of a family's fallback list, in
/// the order they were loaded, ahead of the fonts the family already had.
pub fn prepend_fonts(family: &mut Vec<String>, loaded: &Vec<String>)
    ensures
        final(family)@ == loaded@ + old(family)@,
{
    let ghost start = family@;
    let mut i: usize = 0;
    while i < loaded.len()
        invariant
            i <= loaded@.len(),
            family@ == loaded@.subrange(0, i as int) + start,
        decreases loaded@.len() - i,
    {
        let name = loaded[i].clone();
        family.insert(i, name);
        assert(family@ =~= loaded@.subrange(0, i + 1) + start);
        i = i + 1;
    }
    assert(loaded@.subrange(0, loaded@.len() as int) =~= loaded@);
}

} // verus!
