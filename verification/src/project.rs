//! Locating the project root.

use vstd::prelude::*;

verus! {

/// What a directory on the way up from the start holds.
#[derive(Debug, Clone, Copy, PartialEq, Eq, Structural)]
pub struct RootCandidate {
    /// The directory holds a `.lorekeeper` directory.
    pub has_lorekeeper: bool,
    /// The directory holds a `.git` directory.
    pub has_git: bool,
}

/// Picks the project root among the directories from the start upward
/// (nearest first): the nearest holding `.lorekeeper`, else the nearest
/// holding `.git`, else none.
pub fn find_project_root(candidates: &[RootCandidate]) -> (r: Option<usize>)
    ensures
        match r {
            Some(i) => i < candidates@.len() && ((candidates@[i as int].has_lorekeeper && forall|j: int|
                0 <= j < i ==> !(#[trigger] candidates@[j]).has_lorekeeper) || (candidates@[i as int].has_git
                && (forall|j: int| 0 <= j < candidates@.len() ==> !(#[trigger] candidates@[j]).has_lorekeeper)
                && forall|j: int| 0 <= j < i ==> !(#[trigger] candidates@[j]).has_git)),
            None => forall|j: int|
                0 <= j < candidates@.len() ==> !(#[trigger] candidates@[j]).has_lorekeeper
                    && !candidates@[j].has_git,
        },
{
    let mut i: usize = 0;
    while i < candidates.len()
        invariant
            i <= candidates@.len(),
            forall|j: int| 0 <= j < i ==> !(#[trigger] candidates@[j]).has_lorekeeper,
        decreases candidates@.len() - i,
    {
        if candidates[i].has_lorekeeper {
            return Some(i);
        }
        i = i + 1;
    }
    let mut i: usize = 0;
    while i < candidates.len()
        invariant
            i <= candidates@.len(),
            forall|j: int| 0 <= j < candidates@.len() ==> !(#[trigger] candidates@[j]).has_lorekeeper,
            forall|j: int| 0 <= j < i ==> !(#[trigger] candidates@[j]).has_git,
        decreases candidates@.len() - i,
    {
        if candidates[i].has_git {
            return Some(i);
        }
        i = i + 1;
    }
    None
}

} // verus!
