use mod_installer::installer::{InstallOutcome, InstallStage};
use mod_installer::session::{SessionState, StatusKind};

const URL: &str = "https://github.com/alvindimas05/ThatNoobSkyMod/releases/latest/download/TNSM.dll";

fn detected_session() -> SessionState {
    let mut session = SessionState::new(String::from(URL));
    let candidates = vec![String::from("C:\\Steam\\steamapps\\common\\Sky Children of the Light")];
    session.apply_game_probe(&candidates, &vec![true]);
    session
}

#[test]
fn fresh_session_is_ready() {
    let session = SessionState::new(String::from(URL));
    assert!(matches!(session.status.kind, StatusKind::Neutral));
    assert_eq!(session.status.message, "Ready to install");
    assert!(!session.is_installing);
    assert!(session.launcher_root.is_none());
    assert!(session.game_path.is_none());
    assert!(!session.show_manual_input);
    assert!(session.import_status.is_none());
}

#[test]
fn root_probe_takes_first_existing_root() {
    let mut session = SessionState::new(String::from(URL));
    let roots = vec![String::from("C:\\A"), String::from("C:\\B")];
    let found = session.apply_root_probe(&roots, &vec![false, true]);
    assert!(found);
    assert_eq!(session.launcher_root.as_deref(), Some("C:\\B"));
}

#[test]
fn root_probe_without_match_warns_and_asks_for_input() {
    let mut session = SessionState::new(String::from(URL));
    let roots = vec![String::from("C:\\A")];
    let found = session.apply_root_probe(&roots, &vec![false]);
    assert!(!found);
    assert!(session.launcher_root.is_none());
    assert!(matches!(session.status.kind, StatusKind::Warning));
    assert_eq!(
        session.status.message,
        "Steam directory not found. Please browse for path."
    );
    assert!(session.show_manual_input);
}

#[test]
fn game_probe_reports_found_directory() {
    let mut session = SessionState::new(String::from(URL));
    let candidates = vec![
        String::from("C:\\Steam\\steamapps\\common\\Sky Children of the Light"),
        String::from("D:\\SteamLibrary\\steamapps\\common\\Sky Children of the Light"),
    ];
    session.apply_game_probe(&candidates, &vec![false, true]);
    assert_eq!(
        session.game_path.as_deref(),
        Some("D:\\SteamLibrary\\steamapps\\common\\Sky Children of the Light")
    );
    assert!(matches!(session.status.kind, StatusKind::Success));
    assert_eq!(
        session.status.message,
        "Game found: D:\\SteamLibrary\\steamapps\\common\\Sky Children of the Light"
    );
    assert!(!session.show_manual_input);
}

#[test]
fn game_probe_without_match_warns() {
    let mut session = SessionState::new(String::from(URL));
    let candidates = vec![String::from("C:\\X")];
    session.apply_game_probe(&candidates, &vec![false]);
    assert!(session.game_path.is_none());
    assert!(matches!(session.status.kind, StatusKind::Warning));
    assert_eq!(
        session.status.message,
        "Sky Children of the Light not found in Steam directories"
    );
    assert!(session.show_manual_input);
}

#[test]
fn launcher_like_hint_sets_root_only() {
    let mut session = SessionState::new(String::from(URL));
    let hint = String::from("E:\\Steam");
    let launcher_like = session.apply_hint(&hint, true, true, false);
    assert!(launcher_like);
    assert_eq!(session.launcher_root.as_deref(), Some("E:\\Steam"));
    assert!(session.game_path.is_none());
}

#[test]
fn target_like_hint_sets_game_path() {
    let mut session = SessionState::new(String::from(URL));
    let hint = String::from("E:\\Games\\Sky Children of the Light");
    let launcher_like = session.apply_hint(&hint, false, true, false);
    assert!(!launcher_like);
    assert_eq!(
        session.game_path.as_deref(),
        Some("E:\\Games\\Sky Children of the Light")
    );
    assert!(matches!(session.status.kind, StatusKind::Success));
    assert_eq!(
        session.status.message,
        "Game path set: E:\\Games\\Sky Children of the Light"
    );
    assert!(!session.show_manual_input);
}

#[test]
fn invalid_hint_is_rejected_with_failure_status() {
    let mut session = SessionState::new(String::from(URL));
    let hint = String::from("E:\\Random");
    let launcher_like = session.apply_hint(&hint, false, true, false);
    assert!(!launcher_like);
    assert!(session.game_path.is_none());
    assert!(matches!(session.status.kind, StatusKind::Failure));
    assert_eq!(
        session.status.message,
        "Invalid path. Please select Steam folder or game folder."
    );
}

#[test]
fn trigger_without_url_fails_synchronously() {
    let mut session = detected_session();
    session.dll_url = String::new();
    assert!(session.trigger_install().is_none());
    assert!(!session.is_installing);
    assert!(matches!(session.status.kind, StatusKind::Failure));
    assert_eq!(session.status.message, "Please enter a DLL URL first");
}

#[test]
fn trigger_without_target_fails_synchronously() {
    let mut session = SessionState::new(String::from(URL));
    assert!(session.trigger_install().is_none());
    assert!(!session.is_installing);
    assert!(matches!(session.status.kind, StatusKind::Failure));
    assert_eq!(
        session.status.message,
        "Game directory not found. Cannot install."
    );
}

#[test]
fn trigger_with_target_starts_install() {
    let mut session = detected_session();
    let request = session.trigger_install().expect("install should start");
    assert_eq!(request.url, URL);
    assert_eq!(
        request.destination,
        "C:\\Steam\\steamapps\\common\\Sky Children of the Light\\powrprof.dll"
    );
    assert!(session.is_installing);
    assert!(matches!(session.status.kind, StatusKind::Busy));
    assert_eq!(session.status.message, "Downloading and installing...");
}

#[test]
fn second_trigger_while_in_flight_is_rejected() {
    let mut session = detected_session();
    assert!(session.trigger_install().is_some());
    let before_message = session.status.message.clone();
    assert!(session.trigger_install().is_none());
    assert!(session.is_installing);
    assert_eq!(session.status.message, before_message);
}

#[test]
fn received_success_clears_flag_and_reports() {
    let mut session = detected_session();
    session.trigger_install().expect("install should start");
    session.receive_outcome(InstallOutcome::Success(String::from("done")));
    assert!(!session.is_installing);
    assert!(matches!(session.status.kind, StatusKind::Success));
    assert_eq!(session.status.message, "done");
}

#[test]
fn received_failure_clears_flag_and_reports() {
    let mut session = detected_session();
    session.trigger_install().expect("install should start");
    session.receive_outcome(InstallOutcome::Failure(
        InstallStage::Download,
        String::from("Download failed: no route"),
    ));
    assert!(!session.is_installing);
    assert!(matches!(session.status.kind, StatusKind::Failure));
    assert_eq!(session.status.message, "Download failed: no route");
}

#[test]
fn trigger_after_outcome_is_accepted_again() {
    let mut session = detected_session();
    session.trigger_install().expect("first install should start");
    session.receive_outcome(InstallOutcome::Success(String::from("done")));
    assert!(session.trigger_install().is_some());
}

#[test]
fn import_without_target_fails_immediately() {
    let mut session = SessionState::new(String::from(URL));
    assert!(session.trigger_import().is_none());
    let status = session.import_status.as_ref().expect("an import status");
    assert!(matches!(status.kind, StatusKind::Failure));
    assert_eq!(
        status.message,
        "Game directory not set. Cannot import resources."
    );
}

#[test]
fn import_with_target_hands_out_destination() {
    let mut session = detected_session();
    let destination = session.trigger_import().expect("import should start");
    assert_eq!(
        destination,
        "C:\\Steam\\steamapps\\common\\Sky Children of the Light\\TNSM Resources"
    );
    let status = session.import_status.as_ref().expect("an import status");
    assert!(matches!(status.kind, StatusKind::Busy));
    assert_eq!(status.message, "Importing resources...");
}

#[test]
fn finished_import_reports_success() {
    let mut session = detected_session();
    session.trigger_import().expect("import should start");
    session.finish_import(Ok(()));
    let status = session.import_status.as_ref().expect("an import status");
    assert!(matches!(status.kind, StatusKind::Success));
    assert_eq!(status.message, "Resources imported successfully!");
}

#[test]
fn failed_import_reports_the_entry_error() {
    let mut session = detected_session();
    session.trigger_import().expect("import should start");
    session.finish_import(Err(String::from("Failed to copy file: denied")));
    let status = session.import_status.as_ref().expect("an import status");
    assert!(matches!(status.kind, StatusKind::Failure));
    assert_eq!(
        status.message,
        "Import failed: Failed to copy file: denied"
    );
}
