use mod_installer::paths::{ends_with_component, join_component};
use mod_installer::resolver::{
    classify_hint, game_directory_candidates, launcher_root_candidates, resolve_candidates,
    resolve_hint, HintClass, ResolutionResult,
};

#[test]
fn join_appends_one_separator() {
    let base = String::from("C:\\Game");
    assert_eq!(join_component(&base, "powrprof.dll"), "C:\\Game\\powrprof.dll");
}

#[test]
fn launcher_candidates_are_the_two_known_roots() {
    let roots = launcher_root_candidates();
    assert_eq!(
        roots,
        vec![
            String::from("C:\\Program Files (x86)\\Steam"),
            String::from("C:\\Program Files\\Steam"),
        ]
    );
}

#[test]
fn game_candidates_derive_from_root_then_fixed_volumes() {
    let root = String::from("C:\\Program Files\\Steam");
    let candidates = game_directory_candidates(&root);
    assert_eq!(
        candidates,
        vec![
            String::from("C:\\Program Files\\Steam\\steamapps\\common\\Sky Children of the Light"),
            String::from("D:\\SteamLibrary\\steamapps\\common\\Sky Children of the Light"),
            String::from("E:\\SteamLibrary\\steamapps\\common\\Sky Children of the Light"),
        ]
    );
}

#[test]
fn first_existing_candidate_wins() {
    let candidates = vec![
        String::from("A:\\one"),
        String::from("B:\\two"),
        String::from("C:\\three"),
    ];
    let exists = vec![false, true, true];
    match resolve_candidates(&candidates, &exists) {
        ResolutionResult::Found(p) => assert_eq!(p, "B:\\two"),
        _ => panic!("expected Found"),
    }
}

#[test]
fn no_existing_candidate_needs_input() {
    let candidates = vec![String::from("A:\\one"), String::from("B:\\two")];
    let exists = vec![false, false];
    assert!(matches!(
        resolve_candidates(&candidates, &exists),
        ResolutionResult::NeedsInput
    ));
}

#[test]
fn empty_candidate_list_needs_input() {
    let candidates: Vec<String> = Vec::new();
    let exists: Vec<bool> = Vec::new();
    assert!(matches!(
        resolve_candidates(&candidates, &exists),
        ResolutionResult::NeedsInput
    ));
}

#[test]
fn hint_with_marker_subdir_is_launcher_like() {
    let hint = String::from("D:\\SomewhereElse\\Steam");
    let class = classify_hint(&hint, true, true, false);
    assert!(matches!(class, HintClass::LauncherLike));
}

#[test]
fn hint_with_marker_file_is_target_like() {
    let hint = String::from("D:\\Games\\SkyStuff");
    let class = classify_hint(&hint, false, true, true);
    assert!(matches!(class, HintClass::TargetLike));
}

#[test]
fn hint_named_like_game_folder_is_target_like() {
    let hint = String::from("D:\\Games\\Sky Children of the Light");
    let class = classify_hint(&hint, false, true, false);
    assert!(matches!(class, HintClass::TargetLike));
}

#[test]
fn hint_matching_neither_shape_is_rejected() {
    let hint = String::from("D:\\Games\\Other");
    let class = classify_hint(&hint, false, true, false);
    assert!(matches!(class, HintClass::Neither));
}

#[test]
fn missing_hint_is_rejected_even_with_game_name() {
    let hint = String::from("D:\\Games\\Sky Children of the Light");
    let class = classify_hint(&hint, false, false, false);
    assert!(matches!(class, HintClass::Neither));
}

#[test]
fn launcher_like_hint_resolves_by_sub_resolution() {
    let hint = String::from("E:\\Steam");
    let subs = game_directory_candidates(&hint);
    let r = resolve_hint(&hint, true, true, false, &subs, &vec![false, false, true]);
    match r {
        ResolutionResult::Found(p) => assert_eq!(
            p,
            "E:\\SteamLibrary\\steamapps\\common\\Sky Children of the Light"
        ),
        _ => panic!("expected Found"),
    }
}

#[test]
fn launcher_like_hint_without_game_needs_input() {
    let hint = String::from("E:\\Steam");
    let subs = game_directory_candidates(&hint);
    let r = resolve_hint(&hint, true, true, false, &subs, &vec![false, false, false]);
    assert!(matches!(r, ResolutionResult::NeedsInput));
}

#[test]
fn target_like_hint_resolves_to_itself() {
    let hint = String::from("E:\\Games\\Sky Children of the Light");
    let r = resolve_hint(&hint, false, true, false, &Vec::new(), &Vec::new());
    match r {
        ResolutionResult::Found(p) => assert_eq!(p, hint),
        _ => panic!("expected Found"),
    }
}

#[test]
fn unrecognized_hint_resolves_to_invalid() {
    let hint = String::from("E:\\Random");
    let r = resolve_hint(&hint, false, true, false, &Vec::new(), &Vec::new());
    match r {
        ResolutionResult::Invalid(reason) => assert_eq!(
            reason,
            "Invalid path. Please select Steam folder or game folder."
        ),
        _ => panic!("expected Invalid"),
    }
}

#[test]
fn final_component_matches_whole_path() {
    let p = String::from("Sky Children of the Light");
    assert!(ends_with_component(&p, "Sky Children of the Light"));
}

#[test]
fn final_component_matches_after_separator() {
    let p = String::from("D:\\Games\\Sky Children of the Light");
    assert!(ends_with_component(&p, "Sky Children of the Light"));
}

#[test]
fn final_component_rejects_partial_segment() {
    let p = String::from("D:\\NotSky Children of the Light");
    assert!(!ends_with_component(&p, "Sky Children of the Light"));
}

#[test]
fn final_component_rejects_shorter_path() {
    let p = String::from("Light");
    assert!(!ends_with_component(&p, "Sky Children of the Light"));
}
