//! Small helpers shared by the pipeline components: a sequence-of-views
//! abstraction for vectors of strings, and a verified element-wise copy.

use vstd::prelude::*;

verus! {

/// The contents of a vector of strings, abstracted as a sequence of
/// character sequences.
pub open spec fn views_of(s: Seq<String>) -> Seq<Seq<char>> {
    s.map_values(|x: String| x@)
}

/// The contents of an optional string, abstracted as an optional
/// character sequence.
pub open spec fn view_of_opt(o: Option<String>) -> Option<Seq<char>> {
    match o {
        Some(s) => Some(s@),
        None => None,
    }
}

/// Copies a vector of strings element by element; the copy holds exactly
/// the same character sequences in the same order.
pub fn clone_strings(v: &Vec<String>) -> (r: Vec<String>)
    ensures
        views_of(r@) == views_of(v@),
{
    let mut r: Vec<String> = Vec::new();
    let mut i: usize = 0;
    while i < v.len()
        invariant
            i <= v@.len(),
            r@.len() == i,
            forall|j: int| 0 <= j < i ==> r@[j]@ == v@[j]@,
        decreases v@.len() - i,
    {
        r.push(v[i].clone());
        i = i + 1;
    }
    proof {
        assert(views_of(r@) =~= views_of(v@));
    }
    r
}

} // verus!
