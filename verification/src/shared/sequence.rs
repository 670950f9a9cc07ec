use vstd::prelude::*;

verus! {

/// The values among a list of optional results, in the order of the list.
pub open spec fn kept<T>(results: Seq<Option<T>>) -> Seq<T>
    decreases results.len(),
{
    if results.len() == 0 {
        Seq::empty()
    } else {
        match results.last() {
            Some(value) => kept(results.drop_last()).push(value),
            None => kept(results.drop_last()),
        }
    }
}

} // verus!
