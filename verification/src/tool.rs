//! Finding the helper tools among the places where they may lie, and telling
//! whether a newer release of the download tool exists.
//!
//! Whether a file exists is for the caller to find out; this module decides
//! on what the caller found.

use vstd::prelude::*;
use crate::text::{trim, trimmed};

verus! {

/// Whether `i` is the first place at which `present` holds `true`.
pub open spec fn is_first_present(present: Seq<bool>, i: int) -> bool {
    &&& 0 <= i < present.len()
    &&& present[i]
    &&& forall|j: int| 0 <= j < i ==> !present[j]
}

/// The first place at which `present` holds `true`; `None` where it holds
/// none.
pub fn first_present(present: &Vec<bool>) -> (place: Option<usize>)
    ensures
        match place {
            Some(i) => is_first_present(present@, i as int),
            None => forall|j: int| 0 <= j < present.len() ==> !present[j],
        },
{
    let mut i: usize = 0;
    while i < present.len()
        invariant
            i <= present.len(),
            forall|j: int| 0 <= j < i ==> !present[j],
        decreases present.len() - i,
    {
        if present[i] {
            return Some(i);
        }
        i += 1;
    }
    None
}

/// Where the transcoding tool is taken to lie.
#[derive(Clone, Copy, Debug, PartialEq, Eq)]
pub struct ToolLocation {
    /// The place, among the candidates, of the path to use.
    pub candidate: usize,
    /// Whether the tool was found there. Where it was found nowhere, the
    /// first candidate is used as a guess, and the download tool is left to
    /// report what it misses.
    pub found: bool,
}

/// Chooses among the candidate paths of the transcoding tool, given for each
/// whether a file lies there: the first at which one does, else the first.
pub fn locate_tool(present: &Vec<bool>) -> (location: ToolLocation)
    ensures
        location.found == exists|j: int| 0 <= j < present.len() && present[j],
        location.found ==> is_first_present(present@, location.candidate as int),
        !location.found ==> location.candidate == 0,
{
    match first_present(present) {
        Some(i) => ToolLocation { candidate: i, found: true },
        None => ToolLocation { candidate: 0, found: false },
    }
}

/// The installed and the latest release of the download tool.
#[derive(Clone, Debug, PartialEq, Eq)]
pub struct VersionInfo {
    pub current_version: String,
    pub latest_version: String,
    pub update_available: bool,
}

/// Compares the release that the installed tool reports of itself, white
/// space around it dropped, with the tag of the latest release. An update is
/// available where the two differ.
pub fn compare_versions(reported: &str, latest: String) -> (info: VersionInfo)
    ensures
        info.current_version@ == trimmed(reported@),
        info.latest_version@ == latest@,
        info.update_available == (trimmed(reported@) != latest@),
{
    let current_version = trim(reported);
    let update_available = current_version != latest;
    VersionInfo { current_version, latest_version: latest, update_available }
}

} // verus!
