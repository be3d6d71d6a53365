//! Small helpers on character sequences.

use vstd::prelude::*;

verus! {

/// Copies a character sequence into a fresh vector.
pub fn copy_chars(source: &Vec<char>) -> (copy: Vec<char>)
    ensures
        copy@ == source@,
{
    let mut copy: Vec<char> = Vec::new();
    let mut i: usize = 0;
    while i < source.len()
        invariant
            i <= source@.len(),
            copy@ == source@.take(i as int),
        decreases source@.len() - i,
    {
        copy.push(source[i]);
        proof {
            assert(copy@ =~= source@.take(i as int + 1));
        }
        i = i + 1;
    }
    proof {
        assert(source@.take(source@.len() as int) =~= source@);
    }
    copy
}

} // verus!
