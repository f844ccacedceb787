//! Settings that may come from several sources.

use vstd::prelude::*;

verus! {

/// Whether `i` is the first source that holds a value.
pub open spec fn is_first_present(sources: Seq<Option<String>>, i: int) -> bool {
    &&& 0 <= i < sources.len()
    &&& sources[i].is_some()
    &&& forall|j: int| 0 <= j < i ==> sources[j].is_none()
}

/// Picks a setting from its sources, which are given in the order of their
/// rank: the first that holds a value wins. There is none where no source
/// holds one.
pub fn first_present(sources: Vec<Option<String>>) -> (value: Option<String>)
    ensures
        match value {
            Some(v) => exists|i: int|
                is_first_present(sources@, i) && sources@[i] == Some(v),
            None => forall|i: int| 0 <= i < sources@.len() ==> sources@[i].is_none(),
        },
{
    let mut rest = sources;
    let mut i: usize = 0;
    while i < rest.len()
        invariant
            rest@ == sources@,
            i <= rest.len(),
            forall|j: int| 0 <= j < i ==> sources@[j].is_none(),
        decreases rest.len() - i,
    {
        if rest[i].is_some() {
            let value = rest.swap_remove(i);
            assert(is_first_present(sources@, i as int) && sources@[i as int] == value);
            return value;
        }
        i += 1;
    }
    None
}

} // verus!
