use vstd::prelude::*;

verus! {

/// The position of the first directory, counting from the starting directory
/// up to the root, whose flag in `found` says that it holds the file sought;
/// `None` where none does.
pub fn nearest_ancestor(found: &Vec<bool>) -> (r: Option<usize>)
    ensures
        r matches Some(i) ==> i < found@.len() && found@[i as int] && forall|j: int|
            0 <= j < i ==> !found@[j],
        r is None <==> forall|j: int| 0 <= j < found@.len() ==> !found@[j],
{
    let mut i: usize = 0;
    while i < found.len()
        invariant
            i <= found@.len(),
            forall|j: int| 0 <= j < i ==> !found@[j],
        decreases found@.len() - i,
    {
        if found[i] {
            return Some(i);
        }
        i = i + 1;
    }
    None
}

} // verus!
