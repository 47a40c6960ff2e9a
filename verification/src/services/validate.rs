//! The validator: whether a job is feasible, decided before any byte moves.

use vstd::prelude::*;
use vstd::string::StringExecFns;

verus! {

/// What validation reads from the file system about a job's two paths, taken
/// at validation time.
#[derive(Debug)]
pub struct PathFacts {
    /// Whether the source path exists.
    pub source_exists: bool,
    /// The canonical form of the source path, where it resolves.
    pub source_canonical: Option<Vec<u8>>,
    /// The canonical form of the destination path, where it resolves.
    pub destination_canonical: Option<Vec<u8>>,
}

/// The mathematical value of [`PathFacts`].
pub struct PathFactsView {
    pub source_exists: bool,
    pub source_canonical: Option<Seq<u8>>,
    pub destination_canonical: Option<Seq<u8>>,
}

impl View for PathFacts {
    type V = PathFactsView;

    open spec fn view(&self) -> PathFactsView {
        PathFactsView {
            source_exists: self.source_exists,
            source_canonical: match self.source_canonical {
                Some(path) => Some(path@),
                None => None,
            },
            destination_canonical: match self.destination_canonical {
                Some(path) => Some(path@),
                None => None,
            },
        }
    }
}

/// Two paths are the same entity where both resolve, and to the same
/// canonical path.
pub open spec fn same_entity(source: Option<Seq<u8>>, destination: Option<Seq<u8>>) -> bool {
    source is Some && destination is Some && source->0 == destination->0
}

/// The verdict on a job and the reason for a rejection: the source must
/// exist, and must not be the destination.
pub open spec fn validation(facts: PathFactsView) -> (bool, Seq<char>) {
    if !facts.source_exists {
        (false, "Source path does not exist"@)
    } else if same_entity(facts.source_canonical, facts.destination_canonical) {
        (false, "Source and destination point to the same entity"@)
    } else {
        (true, ""@)
    }
}

/// Whether two byte strings are equal.
fn same_bytes(left: &Vec<u8>, right: &Vec<u8>) -> (same: bool)
    ensures
        same == (left@ == right@),
{
    if left.len() != right.len() {
        return false;
    }
    let mut i: usize = 0;
    while i < left.len()
        invariant
            left.len() == right.len(),
            i <= left.len(),
            forall|k: int| 0 <= k < i ==> left@[k] == right@[k],
        decreases left.len() - i,
    {
        if left[i] != right[i] {
            return false;
        }
        i += 1;
    }
    assert(left@ =~= right@);
    true
}

/// Whether the canonical forms of two paths name the same file-system
/// entity. A path that does not resolve is the same as nothing.
pub fn are_paths_pointing_to_same_entity(
    source_canonical: &Option<Vec<u8>>,
    destination_canonical: &Option<Vec<u8>>,
) -> (same: bool)
    ensures
        same == same_entity(
            match source_canonical {
                Some(path) => Some(path@),
                None => None,
            },
            match destination_canonical {
                Some(path) => Some(path@),
                None => None,
            },
        ),
{
    match (source_canonical, destination_canonical) {
        (Some(source), Some(destination)) => same_bytes(source, destination),
        _ => false,
    }
}

/// Decides whether a job is feasible and gives the reason where it is not.
pub fn validate(facts: &PathFacts) -> (verdict: (bool, String))
    ensures
        verdict.0 == validation(facts@).0,
        verdict.1@ == validation(facts@).1,
{
    if !facts.source_exists {
        return (false, String::from_str("Source path does not exist"));
    }
    if are_paths_pointing_to_same_entity(&facts.source_canonical, &facts.destination_canonical) {
        return (false, String::from_str("Source and destination point to the same entity"));
    }
    (true, String::from_str(""))
}

} // verus!
