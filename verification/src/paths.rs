//! Relative paths as lists of components.

use vstd::prelude::*;
use crate::text::strings_view;

verus! {

/// The path `tail` taken below the directory `head`.
pub fn join_paths(head: &Vec<String>, tail: &Vec<String>) -> (whole: Vec<String>)
    ensures
        strings_view(whole@) == strings_view(head@) + strings_view(tail@),
{
    let mut whole: Vec<String> = Vec::new();
    let mut i: usize = 0;
    while i < head.len()
        invariant
            i <= head.len(),
            whole.len() == i,
            forall|j: int| 0 <= j < i ==> whole@[j]@ == head@[j]@,
        decreases head.len() - i,
    {
        whole.push(head[i].clone());
        i += 1;
    }
    let mut k: usize = 0;
    while k < tail.len()
        invariant
            k <= tail.len(),
            whole.len() == head.len() + k,
            forall|j: int| 0 <= j < head.len() ==> whole@[j]@ == head@[j]@,
            forall|j: int|
                head.len() <= j < whole.len() ==> (#[trigger] whole@[j])@ == tail@[j - head.len()]@,
        decreases tail.len() - k,
    {
        whole.push(tail[k].clone());
        k += 1;
    }
    assert(strings_view(whole@) =~= strings_view(head@) + strings_view(tail@));
    whole
}

} // verus!
