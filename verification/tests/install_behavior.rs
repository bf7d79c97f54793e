use mod_installer::channel::StatusChannel;
use mod_installer::fs_model::FsModel;
use mod_installer::importer::{import_destination, import_step, SourceTree};
use mod_installer::installer::{
    dll_destination, install_step, run_install_task, write_failure, FetchResult, InstallOutcome,
    InstallStage,
};

#[test]
fn dll_destination_is_fixed_filename_in_target() {
    let target = String::from("C:\\Games\\Sky Children of the Light");
    assert_eq!(
        dll_destination(&target),
        "C:\\Games\\Sky Children of the Light\\powrprof.dll"
    );
}

#[test]
fn successful_install_writes_fetched_bytes() {
    let mut fs = FsModel::new();
    let target = String::from("C:\\Game");
    let body = vec![1u8, 2, 3, 4];
    let outcome = install_step(&mut fs, &target, FetchResult::Fetched(body.clone()));
    assert!(matches!(outcome, InstallOutcome::Success(_)));
    let dest = dll_destination(&target);
    assert_eq!(fs.read_file(&dest), Some(body));
    assert_eq!(fs.file_count(), 1);
}

#[test]
fn successful_install_overwrites_prior_contents() {
    let mut fs = FsModel::new();
    let target = String::from("C:\\Game");
    let dest = dll_destination(&target);
    fs.write_file(&dest, &vec![9u8, 9, 9]);
    install_step(&mut fs, &target, FetchResult::Fetched(vec![7u8]));
    assert_eq!(fs.read_file(&dest), Some(vec![7u8]));
    assert_eq!(fs.file_count(), 1);
}

#[test]
fn installing_twice_leaves_one_file_with_latest_contents() {
    let mut fs = FsModel::new();
    let target = String::from("C:\\Game");
    install_step(&mut fs, &target, FetchResult::Fetched(vec![1u8, 2]));
    install_step(&mut fs, &target, FetchResult::Fetched(vec![3u8, 4, 5]));
    let dest = dll_destination(&target);
    assert_eq!(fs.read_file(&dest), Some(vec![3u8, 4, 5]));
    assert_eq!(fs.file_count(), 1);
    assert_eq!(fs.dir_count(), 0);
}

#[test]
fn transport_failure_writes_nothing_and_reports_download_stage() {
    let mut fs = FsModel::new();
    let target = String::from("C:\\Game");
    let outcome = install_step(
        &mut fs,
        &target,
        FetchResult::TransportFailed(String::from("connection refused")),
    );
    assert_eq!(fs.file_count(), 0);
    assert_eq!(fs.read_file(&dll_destination(&target)), None);
    match outcome {
        InstallOutcome::Failure(InstallStage::Download, message) => {
            assert_eq!(message, "Download failed: connection refused");
        }
        _ => panic!("expected a download-stage failure"),
    }
}

#[test]
fn read_failure_writes_nothing_and_reports_read_stage() {
    let mut fs = FsModel::new();
    let target = String::from("C:\\Game");
    let outcome = install_step(
        &mut fs,
        &target,
        FetchResult::ReadFailed(String::from("body interrupted")),
    );
    assert_eq!(fs.file_count(), 0);
    match outcome {
        InstallOutcome::Failure(InstallStage::Read, message) => {
            assert_eq!(message, "Failed to read response: body interrupted");
        }
        _ => panic!("expected a read-stage failure"),
    }
}

#[test]
fn write_failure_reports_write_stage() {
    let outcome = write_failure(&String::from("permission denied"));
    match outcome {
        InstallOutcome::Failure(InstallStage::Write, message) => {
            assert_eq!(message, "Failed to write DLL: permission denied");
        }
        _ => panic!("expected a write-stage failure"),
    }
}

#[test]
fn failed_task_delivers_exactly_one_failure_message() {
    let mut fs = FsModel::new();
    let mut channel = StatusChannel::new();
    let target = String::from("C:\\Game");
    run_install_task(
        &mut fs,
        &mut channel,
        &target,
        FetchResult::TransportFailed(String::from("unreachable")),
    );
    assert_eq!(fs.file_count(), 0);
    match channel.try_recv() {
        Some(InstallOutcome::Failure(InstallStage::Download, message)) => {
            assert_eq!(message, "Download failed: unreachable");
        }
        _ => panic!("expected the one download failure"),
    }
    assert!(channel.try_recv().is_none());
}

#[test]
fn successful_task_delivers_one_success_message() {
    let mut fs = FsModel::new();
    let mut channel = StatusChannel::new();
    let target = String::from("C:\\Game");
    run_install_task(&mut fs, &mut channel, &target, FetchResult::Fetched(vec![5u8]));
    match channel.try_recv() {
        Some(InstallOutcome::Success(message)) => {
            assert_eq!(
                message,
                "Mod installed successfully! Launch the game to use it."
            );
        }
        _ => panic!("expected the one success message"),
    }
    assert!(channel.try_recv().is_none());
    assert_eq!(
        fs.read_file(&dll_destination(&target)),
        Some(vec![5u8])
    );
}

#[test]
fn fresh_channel_holds_nothing() {
    let mut channel = StatusChannel::new();
    assert!(channel.try_recv().is_none());
}

#[test]
fn import_destination_is_fixed_subdirectory() {
    let target = String::from("C:\\Game");
    assert_eq!(import_destination(&target), "C:\\Game\\TNSM Resources");
}

#[test]
fn import_mirrors_files_and_subdirectories() {
    let mut fs = FsModel::new();
    let target = String::from("C:\\Game");
    let tree = SourceTree {
        dirs: vec![String::from("music"), String::from("music\\extra")],
        files: vec![
            (String::from("readme.txt"), vec![10u8, 11]),
            (String::from("music\\a.ogg"), vec![1u8]),
            (String::from("music\\extra\\b.ogg"), vec![2u8, 3]),
        ],
    };
    import_step(&mut fs, &tree, &target);
    assert_eq!(fs.file_count(), 3);
    // destination root plus the two subdirectories
    assert_eq!(fs.dir_count(), 3);
    assert!(fs.has_dir(&String::from("C:\\Game\\TNSM Resources")));
    assert!(fs.has_dir(&String::from("C:\\Game\\TNSM Resources\\music")));
    assert!(fs.has_dir(&String::from("C:\\Game\\TNSM Resources\\music\\extra")));
    assert_eq!(
        fs.read_file(&String::from("C:\\Game\\TNSM Resources\\readme.txt")),
        Some(vec![10u8, 11])
    );
    assert_eq!(
        fs.read_file(&String::from("C:\\Game\\TNSM Resources\\music\\a.ogg")),
        Some(vec![1u8])
    );
    assert_eq!(
        fs.read_file(&String::from("C:\\Game\\TNSM Resources\\music\\extra\\b.ogg")),
        Some(vec![2u8, 3])
    );
}

#[test]
fn import_overwrites_same_name_and_keeps_others() {
    let mut fs = FsModel::new();
    let target = String::from("C:\\Game");
    let elsewhere = String::from("C:\\Other\\keep.txt");
    fs.write_file(&elsewhere, &vec![42u8]);
    let inside = String::from("C:\\Game\\TNSM Resources\\readme.txt");
    fs.write_file(&inside, &vec![0u8]);
    let tree = SourceTree {
        dirs: Vec::new(),
        files: vec![(String::from("readme.txt"), vec![1u8, 2])],
    };
    import_step(&mut fs, &tree, &target);
    assert_eq!(fs.read_file(&inside), Some(vec![1u8, 2]));
    assert_eq!(fs.read_file(&elsewhere), Some(vec![42u8]));
    assert_eq!(fs.file_count(), 2);
}

#[test]
fn empty_tree_import_creates_only_the_destination() {
    let mut fs = FsModel::new();
    let target = String::from("C:\\Game");
    let tree = SourceTree { dirs: Vec::new(), files: Vec::new() };
    import_step(&mut fs, &tree, &target);
    assert_eq!(fs.file_count(), 0);
    assert_eq!(fs.dir_count(), 1);
    assert!(fs.has_dir(&String::from("C:\\Game\\TNSM Resources")));
}
