//! Session state.
//!
//! Process-local, in-memory state of one installer session: the detected
//! launcher root and installation target, the current status line, the
//! operation-in-progress flag and the import status. The methods are the
//! decisions the presentation loop dispatches: applying probe results,
//! classifying a browsed hint, gating and preparing an install, consuming
//! its outcome, and preparing an import.
//!
//! Status lines carry an explicit rendering tag instead of marker
//! substrings, so no caller inspects message text to classify an outcome.

use vstd::prelude::*;
use crate::resolver::{
    ResolutionResult,
    HintClass,
    hint_class_spec,
    classify_hint,
    any_exists,
    is_first_existing,
    resolve_candidates,
    invalid_hint_reason,
};
use crate::installer::{InstallOutcome, dll_destination, dll_destination_spec};
use crate::importer::{import_destination, import_destination_spec};

verus! {

/// How a status line should be rendered.
pub enum StatusKind {
    Success,
    Warning,
    Failure,
    Busy,
    Neutral,
}

/// A status line: a rendering tag and a human-readable message.
pub struct StatusLine {
    pub kind: StatusKind,
    pub message: String,
}

/// Everything a newly triggered install operation needs: the URL to fetch
/// and the full destination path of the asset.
pub struct InstallRequest {
    pub url: String,
    pub destination: String,
}

/// The state of one installer session.
pub struct SessionState {
    /// The URL the asset is fetched from.
    pub dll_url: String,
    /// The current status line.
    pub status: StatusLine,
    /// Whether an install operation is in flight.
    pub is_installing: bool,
    /// The detected launcher root, if any.
    pub launcher_root: Option<String>,
    /// The resolved installation target, if any.
    pub game_path: Option<String>,
    /// Whether the presentation loop should offer manual path input.
    pub show_manual_input: bool,
    /// The status line of the resource import, if one ran or is running.
    pub import_status: Option<StatusLine>,
}

/// The initial status message.
pub open spec fn ready_message() -> Seq<char> {
    "Ready to install"@
}

/// The warning shown when no launcher root exists on disk.
pub open spec fn no_launcher_message() -> Seq<char> {
    "Steam directory not found. Please browse for path."@
}

/// The message shown when the game directory was found, with its path.
pub open spec fn game_found_message(path: Seq<char>) -> Seq<char> {
    "Game found: "@ + path
}

/// The warning shown when no candidate game directory exists on disk.
pub open spec fn game_not_found_message() -> Seq<char> {
    "Sky Children of the Light not found in Steam directories"@
}

/// The message shown when a browsed hint was accepted as the target.
pub open spec fn game_path_set_message(path: Seq<char>) -> Seq<char> {
    "Game path set: "@ + path
}

/// The message shown when an install is triggered without a URL.
pub open spec fn missing_url_message() -> Seq<char> {
    "Please enter a DLL URL first"@
}

/// The message shown when an install is triggered without a target.
pub open spec fn missing_target_message() -> Seq<char> {
    "Game directory not found. Cannot install."@
}

/// The status shown while an install operation is in flight.
pub open spec fn installing_message() -> Seq<char> {
    "Downloading and installing..."@
}

/// The message shown when an import is triggered without a target.
pub open spec fn import_missing_target_message() -> Seq<char> {
    "Game directory not set. Cannot import resources."@
}

/// The status shown while an import runs.
pub open spec fn importing_message() -> Seq<char> {
    "Importing resources..."@
}

/// The message shown when an import completed.
pub open spec fn import_success_message() -> Seq<char> {
    "Resources imported successfully!"@
}

/// The message shown when an import failed, with the entry's error.
pub open spec fn import_failure_message(detail: Seq<char>) -> Seq<char> {
    "Import failed: "@ + detail
}

impl SessionState {
    /// The fields no detection step touches.
    pub open spec fn detection_peers_unchanged(pre: SessionState, post: SessionState) -> bool {
        &&& post.dll_url == pre.dll_url
        &&& post.is_installing == pre.is_installing
        &&& post.import_status == pre.import_status
    }

    /// A fresh session: ready, nothing detected, nothing in flight.
    pub fn new(default_url: String) -> (r: SessionState)
        ensures
            r.dll_url == default_url,
            r.status.kind is Neutral,
            r.status.message@ == ready_message(),
            !r.is_installing,
            r.launcher_root is None,
            r.game_path is None,
            !r.show_manual_input,
            r.import_status is None,
    {
        SessionState {
            dll_url: default_url,
            status: StatusLine {
                kind: StatusKind::Neutral,
                message: String::from_str("Ready to install"),
            },
            is_installing: false,
            launcher_root: None,
            game_path: None,
            show_manual_input: false,
            import_status: None,
        }
    }

    /// Record the outcome of probing the launcher root candidates.
    ///
    /// The first existing candidate becomes the launcher root and the
    /// caller goes on to probe game directories under it; if none exists,
    /// the session warns and asks for manual input.
    pub fn apply_root_probe(&mut self, roots: &Vec<String>, exists: &Vec<bool>) -> (found: bool)
        requires
            roots@.len() == exists@.len(),
        ensures
            found == any_exists(exists@),
            Self::detection_peers_unchanged(*old(self), *final(self)),
            final(self).game_path == old(self).game_path,
            found ==> {
                &&& final(self).launcher_root matches Some(p) && exists|i: int|
                    is_first_existing(exists@, i) && p == roots@[i]
                &&& final(self).status == old(self).status
                &&& final(self).show_manual_input == old(self).show_manual_input
            },
            !found ==> {
                &&& final(self).launcher_root == old(self).launcher_root
                &&& final(self).status.kind is Warning
                &&& final(self).status.message@ == no_launcher_message()
                &&& final(self).show_manual_input
            },
    {
        match resolve_candidates(roots, exists) {
            ResolutionResult::Found(p) => {
                self.launcher_root = Some(p);
                true
            },
            ResolutionResult::NeedsInput => {
                self.status = StatusLine {
                    kind: StatusKind::Warning,
                    message: String::from_str(
                        "Steam directory not found. Please browse for path.",
                    ),
                };
                self.show_manual_input = true;
                false
            },
            ResolutionResult::Invalid(_) => unreached(),
        }
    }

    /// Record the outcome of probing the candidate game directories.
    ///
    /// The first existing candidate becomes the installation target and
    /// the status reports it; if none exists, the session warns and asks
    /// for manual input.
    pub fn apply_game_probe(&mut self, candidates: &Vec<String>, exists: &Vec<bool>)
        requires
            candidates@.len() == exists@.len(),
        ensures
            Self::detection_peers_unchanged(*old(self), *final(self)),
            final(self).launcher_root == old(self).launcher_root,
            any_exists(exists@) ==> {
                &&& final(self).game_path matches Some(p) && exists|i: int|
                    is_first_existing(exists@, i) && p == candidates@[i]
                &&& final(self).status.kind is Success
                &&& (final(self).game_path matches Some(p) && final(self).status.message@
                    == game_found_message(p@))
                &&& !final(self).show_manual_input
            },
            !any_exists(exists@) ==> {
                &&& final(self).game_path == old(self).game_path
                &&& final(self).status.kind is Warning
                &&& final(self).status.message@ == game_not_found_message()
                &&& final(self).show_manual_input
            },
    {
        match resolve_candidates(candidates, exists) {
            ResolutionResult::Found(p) => {
                self.status = StatusLine {
                    kind: StatusKind::Success,
                    message: String::from_str("Game found: ").concat(p.as_str()),
                };
                self.game_path = Some(p);
                self.show_manual_input = false;
            },
            ResolutionResult::NeedsInput => {
                self.status = StatusLine {
                    kind: StatusKind::Warning,
                    message: String::from_str(
                        "Sky Children of the Light not found in Steam directories",
                    ),
                };
                self.show_manual_input = true;
            },
            ResolutionResult::Invalid(_) => unreached(),
        }
    }

    /// Record a browsed or typed hint path.
    ///
    /// A hint with the launcher's marker subdirectory becomes the launcher
    /// root, and the caller goes on to probe game directories under it; a
    /// hint that exists and holds the game's marker file, or is named like
    /// the game folder, becomes the target directly; anything else is
    /// rejected. The probe results for the hint arrive as arguments.
    pub fn apply_hint(
        &mut self,
        hint: &String,
        has_marker_subdir: bool,
        hint_exists: bool,
        has_marker_file: bool,
    ) -> (launcher_like: bool)
        ensures
            Self::detection_peers_unchanged(*old(self), *final(self)),
            launcher_like == (hint_class_spec(
                hint@,
                has_marker_subdir,
                hint_exists,
                has_marker_file,
            ) is LauncherLike),
            hint_class_spec(hint@, has_marker_subdir, hint_exists, has_marker_file)
                is LauncherLike ==> {
                &&& final(self).launcher_root matches Some(p) && p@ == hint@
                &&& final(self).game_path == old(self).game_path
                &&& final(self).status == old(self).status
                &&& final(self).show_manual_input == old(self).show_manual_input
            },
            hint_class_spec(hint@, has_marker_subdir, hint_exists, has_marker_file)
                is TargetLike ==> {
                &&& final(self).game_path matches Some(p) && p@ == hint@
                &&& final(self).launcher_root == old(self).launcher_root
                &&& final(self).status.kind is Success
                &&& final(self).status.message@ == game_path_set_message(hint@)
                &&& !final(self).show_manual_input
            },
            hint_class_spec(hint@, has_marker_subdir, hint_exists, has_marker_file)
                is Neither ==> {
                &&& final(self).game_path == old(self).game_path
                &&& final(self).launcher_root == old(self).launcher_root
                &&& final(self).status.kind is Failure
                &&& final(self).status.message@ == invalid_hint_reason()
                &&& final(self).show_manual_input == old(self).show_manual_input
            },
    {
        match classify_hint(hint, has_marker_subdir, hint_exists, has_marker_file) {
            HintClass::LauncherLike => {
                self.launcher_root = Some(hint.clone());
                true
            },
            HintClass::TargetLike => {
                self.game_path = Some(hint.clone());
                self.status = StatusLine {
                    kind: StatusKind::Success,
                    message: String::from_str("Game path set: ").concat(hint.as_str()),
                };
                self.show_manual_input = false;
                false
            },
            HintClass::Neither => {
                self.status = StatusLine {
                    kind: StatusKind::Failure,
                    message: String::from_str(
                        "Invalid path. Please select Steam folder or game folder.",
                    ),
                };
                false
            },
        }
    }

    /// Gate and prepare an install operation.
    ///
    /// While one install is in flight, a second trigger is ignored before
    /// anything is prepared. An empty URL or a missing target is reported
    /// synchronously and no operation starts. Otherwise the in-progress
    /// flag is set before the request is handed out, and the request
    /// carries the URL and the asset's full destination path.
    pub fn trigger_install(&mut self) -> (r: Option<InstallRequest>)
        ensures
            old(self).is_installing ==> r is None && *final(self) == *old(self),
            !old(self).is_installing && old(self).dll_url@.len() == 0 ==> {
                &&& r is None
                &&& !final(self).is_installing
                &&& final(self).status.kind is Failure
                &&& final(self).status.message@ == missing_url_message()
            },
            !old(self).is_installing && old(self).dll_url@.len() > 0 && old(self).game_path
                is None ==> {
                &&& r is None
                &&& !final(self).is_installing
                &&& final(self).status.kind is Failure
                &&& final(self).status.message@ == missing_target_message()
            },
            !old(self).is_installing && old(self).dll_url@.len() > 0 && (old(self).game_path
                matches Some(g)) ==> {
                &&& r matches Some(req) && req.url == old(self).dll_url
                    && (old(self).game_path matches Some(g)
                    && req.destination@ == dll_destination_spec(g@))
                &&& final(self).is_installing
                &&& final(self).status.kind is Busy
                &&& final(self).status.message@ == installing_message()
            },
            final(self).dll_url == old(self).dll_url,
            final(self).launcher_root == old(self).launcher_root,
            final(self).game_path == old(self).game_path,
            final(self).show_manual_input == old(self).show_manual_input,
            final(self).import_status == old(self).import_status,
    {
        if self.is_installing {
            return None;
        }
        if self.dll_url.as_str().is_empty() {
            self.status = StatusLine {
                kind: StatusKind::Failure,
                message: String::from_str("Please enter a DLL URL first"),
            };
            return None;
        }
        let destination = match &self.game_path {
            Some(g) => dll_destination(g),
            None => {
                self.status = StatusLine {
                    kind: StatusKind::Failure,
                    message: String::from_str("Game directory not found. Cannot install."),
                };
                return None;
            },
        };
        self.is_installing = true;
        self.status = StatusLine {
            kind: StatusKind::Busy,
            message: String::from_str("Downloading and installing..."),
        };
        Some(InstallRequest { url: self.dll_url.clone(), destination })
    }

    /// Consume the single outcome of the in-flight install operation.
    ///
    /// The outcome's message becomes the status line under its own tag and
    /// the in-progress flag is cleared.
    pub fn receive_outcome(&mut self, outcome: InstallOutcome)
        ensures
            !final(self).is_installing,
            outcome matches InstallOutcome::Success(m) ==> {
                &&& final(self).status.kind is Success
                &&& final(self).status.message == m
            },
            outcome matches InstallOutcome::Failure(stage, m) ==> {
                &&& final(self).status.kind is Failure
                &&& final(self).status.message == m
            },
            final(self).dll_url == old(self).dll_url,
            final(self).launcher_root == old(self).launcher_root,
            final(self).game_path == old(self).game_path,
            final(self).show_manual_input == old(self).show_manual_input,
            final(self).import_status == old(self).import_status,
    {
        match outcome {
            InstallOutcome::Success(m) => {
                self.status = StatusLine { kind: StatusKind::Success, message: m };
            },
            InstallOutcome::Failure(_, m) => {
                self.status = StatusLine { kind: StatusKind::Failure, message: m };
            },
        }
        self.is_installing = false;
    }

    /// Gate and prepare a resource import.
    ///
    /// Without a resolved target the import fails immediately and touches
    /// nothing; otherwise the import's destination directory is handed out
    /// and the import status reports the operation as running.
    pub fn trigger_import(&mut self) -> (r: Option<String>)
        ensures
            old(self).game_path is None ==> {
                &&& r is None
                &&& final(self).import_status matches Some(s) && s.kind is Failure && s.message@
                    == import_missing_target_message()
            },
            old(self).game_path matches Some(g) ==> {
                &&& r matches Some(d) && d@ == import_destination_spec(g@)
                &&& final(self).import_status matches Some(s) && s.kind is Busy && s.message@
                    == importing_message()
            },
            final(self).dll_url == old(self).dll_url,
            final(self).status == old(self).status,
            final(self).is_installing == old(self).is_installing,
            final(self).launcher_root == old(self).launcher_root,
            final(self).game_path == old(self).game_path,
            final(self).show_manual_input == old(self).show_manual_input,
    {
        let destination = match &self.game_path {
            Some(g) => import_destination(g),
            None => {
                self.import_status = Some(
                    StatusLine {
                        kind: StatusKind::Failure,
                        message: String::from_str(
                            "Game directory not set. Cannot import resources.",
                        ),
                    },
                );
                return None;
            },
        };
        self.import_status = Some(
            StatusLine {
                kind: StatusKind::Busy,
                message: String::from_str("Importing resources..."),
            },
        );
        Some(destination)
    }

    /// Record the result of a completed resource import.
    pub fn finish_import(&mut self, result: Result<(), String>)
        ensures
            result is Ok ==> {
                &&& final(self).import_status matches Some(s) && s.kind is Success && s.message@
                    == import_success_message()
            },
            result matches Err(e) ==> {
                &&& final(self).import_status matches Some(s) && s.kind is Failure && s.message@
                    == import_failure_message(e@)
            },
            final(self).dll_url == old(self).dll_url,
            final(self).status == old(self).status,
            final(self).is_installing == old(self).is_installing,
            final(self).launcher_root == old(self).launcher_root,
            final(self).game_path == old(self).game_path,
            final(self).show_manual_input == old(self).show_manual_input,
    {
        match result {
            Ok(_) => {
                self.import_status = Some(
                    StatusLine {
                        kind: StatusKind::Success,
                        message: String::from_str("Resources imported successfully!"),
                    },
                );
            },
            Err(e) => {
                self.import_status = Some(
                    StatusLine {
                        kind: StatusKind::Failure,
                        message: String::from_str("Import failed: ").concat(e.as_str()),
                    },
                );
            },
        }
    }
}

} // verus!
