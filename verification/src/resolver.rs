//! Path Resolver.
//!
//! Given candidate root directories and the outcome of an existence probe
//! for each (read-only checks performed by the caller), the resolver picks
//! the first candidate that exists, in list order, or reports that input is
//! needed. A user-supplied hint is classified as a launcher root, as the
//! installation directory itself, or as neither.

use vstd::prelude::*;
use crate::paths::{has_final_component, joined, join_component, ends_with_component};

verus! {

/// Outcome of a resolution attempt, in priority order: a target was found,
/// no candidate matched and a hint is required, or a supplied hint matched
/// neither expected shape.
pub enum ResolutionResult {
    Found(String),
    NeedsInput,
    Invalid(String),
}

/// At least one probe in `exists` came back positive.
pub open spec fn any_exists(exists: Seq<bool>) -> bool {
    exists|i: int| 0 <= i < exists.len() && exists[i]
}

/// `i` is the position of the first positive probe in `exists`.
pub open spec fn is_first_existing(exists: Seq<bool>, i: int) -> bool {
    &&& 0 <= i < exists.len()
    &&& exists[i]
    &&& forall|j: int| 0 <= j < i ==> !exists[j]
}

/// The name of the game's installation folder.
pub open spec fn game_folder_name() -> Seq<char> {
    "Sky Children of the Light"@
}

/// The relative path from a launcher root to the game's default library
/// location.
pub open spec fn library_relative_path() -> Seq<char> {
    "steamapps\\common\\Sky Children of the Light"@
}

/// The fixed, ordered list of well-known launcher installation roots.
pub fn launcher_root_candidates() -> (r: Vec<String>)
    ensures
        r@.len() == 2,
        r@[0]@ == "C:\\Program Files (x86)\\Steam"@,
        r@[1]@ == "C:\\Program Files\\Steam"@,
{
    let mut r: Vec<String> = Vec::new();
    r.push(String::from_str("C:\\Program Files (x86)\\Steam"));
    r.push(String::from_str("C:\\Program Files\\Steam"));
    r
}

/// The fixed, ordered list of candidate game directories derived from a
/// launcher root: the root's own library location first, then fixed
/// fallback locations on alternate volumes.
pub fn game_directory_candidates(launcher_root: &String) -> (r: Vec<String>)
    ensures
        r@.len() == 3,
        r@[0]@ == joined(launcher_root@, library_relative_path()),
        r@[1]@ == "D:\\SteamLibrary\\steamapps\\common\\Sky Children of the Light"@,
        r@[2]@ == "E:\\SteamLibrary\\steamapps\\common\\Sky Children of the Light"@,
{
    let mut r: Vec<String> = Vec::new();
    r.push(join_component(launcher_root, "steamapps\\common\\Sky Children of the Light"));
    r.push(String::from_str("D:\\SteamLibrary\\steamapps\\common\\Sky Children of the Light"));
    r.push(String::from_str("E:\\SteamLibrary\\steamapps\\common\\Sky Children of the Light"));
    r
}

/// Pick the first candidate whose probe came back positive.
///
/// Returns `Found` with that candidate iff at least one candidate exists,
/// and `NeedsInput` otherwise; it never returns `Invalid`. The first match
/// in list order wins; there is no ranking beyond list order.
pub fn resolve_candidates(candidates: &Vec<String>, exists: &Vec<bool>) -> (r: ResolutionResult)
    requires
        candidates@.len() == exists@.len(),
    ensures
        (r is Found) <==> any_exists(exists@),
        r matches ResolutionResult::Found(p) ==> exists|i: int|
            is_first_existing(exists@, i) && p == candidates@[i],
        !any_exists(exists@) ==> r is NeedsInput,
{
    let n = candidates.len();
    let mut i: usize = 0;
    while i < n
        invariant
            n == candidates@.len(),
            candidates@.len() == exists@.len(),
            i <= n,
            forall|j: int| 0 <= j < i ==> !exists@[j],
        decreases n - i,
    {
        if exists[i] {
            proof {
                assert(is_first_existing(exists@, i as int));
            }
            return ResolutionResult::Found(candidates[i].clone());
        }
        i += 1;
    }
    ResolutionResult::NeedsInput
}

/// The reason a hint that matches neither expected shape is rejected with.
pub open spec fn invalid_hint_reason() -> Seq<char> {
    "Invalid path. Please select Steam folder or game folder."@
}

/// How a user-supplied hint path is classified.
pub enum HintClass {
    /// The hint contains the launcher's marker subdirectory; resolution
    /// proceeds by sub-resolution from the hint.
    LauncherLike,
    /// The hint exists and either holds the game's marker file or is named
    /// like the game folder; it is accepted directly as the target.
    TargetLike,
    /// Neither shape matched.
    Neither,
}

/// Classification of a hint from its path and the caller's probe results:
/// whether the marker subdirectory exists under the hint, whether the hint
/// itself exists, and whether the game's marker file exists under it.
pub open spec fn hint_class_spec(
    hint: Seq<char>,
    has_marker_subdir: bool,
    hint_exists: bool,
    has_marker_file: bool,
) -> HintClass {
    if has_marker_subdir {
        HintClass::LauncherLike
    } else if hint_exists && (has_marker_file || has_final_component(hint, game_folder_name())) {
        HintClass::TargetLike
    } else {
        HintClass::Neither
    }
}

/// Classify a user-supplied hint path.
///
/// `has_marker_subdir`, `hint_exists` and `has_marker_file` are the
/// caller's probe results for the hint's marker subdirectory, the hint
/// itself, and the game's marker file under the hint.
pub fn classify_hint(
    hint: &String,
    has_marker_subdir: bool,
    hint_exists: bool,
    has_marker_file: bool,
) -> (r: HintClass)
    ensures
        r == hint_class_spec(hint@, has_marker_subdir, hint_exists, has_marker_file),
{
    if has_marker_subdir {
        HintClass::LauncherLike
    } else if hint_exists && (has_marker_file || ends_with_component(hint, "Sky Children of the Light")) {
        HintClass::TargetLike
    } else {
        HintClass::Neither
    }
}

/// Resolve a user-supplied hint path, in priority order.
///
/// A launcher-like hint resolves by sub-resolution: `sub_candidates` and
/// `sub_exists` are the candidate game directories under the hint and
/// their probe results, and the first existing one wins, or input is still
/// needed. A target-like hint is accepted directly. A hint matching
/// neither shape is invalid, with the fixed reason.
pub fn resolve_hint(
    hint: &String,
    has_marker_subdir: bool,
    hint_exists: bool,
    has_marker_file: bool,
    sub_candidates: &Vec<String>,
    sub_exists: &Vec<bool>,
) -> (r: ResolutionResult)
    requires
        sub_candidates@.len() == sub_exists@.len(),
    ensures
        hint_class_spec(hint@, has_marker_subdir, hint_exists, has_marker_file)
            is LauncherLike ==> {
            &&& (r is Found) <==> any_exists(sub_exists@)
            &&& (r matches ResolutionResult::Found(p) ==> exists|i: int|
                is_first_existing(sub_exists@, i) && p == sub_candidates@[i])
            &&& !any_exists(sub_exists@) ==> r is NeedsInput
        },
        hint_class_spec(hint@, has_marker_subdir, hint_exists, has_marker_file) is TargetLike
            ==> {
            &&& r matches ResolutionResult::Found(p) && p@ == hint@
        },
        hint_class_spec(hint@, has_marker_subdir, hint_exists, has_marker_file) is Neither ==> {
            &&& r matches ResolutionResult::Invalid(m) && m@ == invalid_hint_reason()
        },
{
    match classify_hint(hint, has_marker_subdir, hint_exists, has_marker_file) {
        HintClass::LauncherLike => resolve_candidates(sub_candidates, sub_exists),
        HintClass::TargetLike => ResolutionResult::Found(hint.clone()),
        HintClass::Neither => ResolutionResult::Invalid(
            String::from_str("Invalid path. Please select Steam folder or game folder."),
        ),
    }
}

} // verus!
