use nextui_updater::app_state::{AppState, Progress, Reporting};
use nextui_updater::github::{Asset, Release, Reply};
use nextui_updater::update::self_update::{
    do_self_update, install_package, self_update, weigh_release, SelfUpdate, SelfUpdateTask,
    BACKUP_EXTENSION, RESTART_CODE,
};
use nextui_updater::update::startup::{start, Startup};
use nextui_updater::work::{extract_zip, Event, Work};
use std::io::{Cursor, Read, Write};
use zip::write::SimpleFileOptions;
use zip::ZipWriter;

fn package(files: &[(&str, &[u8])]) -> Vec<u8> {
    let mut writer = ZipWriter::new(Cursor::new(Vec::new()));
    for (name, content) in files {
        writer.start_file(*name, SimpleFileOptions::default()).unwrap();
        writer.write_all(content).unwrap();
    }
    writer.finish().unwrap().into_inner()
}

fn release(tag_name: &str) -> Release {
    let asset = |name: &str| Asset {
        name: name.to_string(),
        url: format!("https://example.org/{tag_name}/{name}"),
    };
    Release { tag_name: tag_name.to_string(), assets: vec![asset("first.zip"), asset("second.zip")] }
}

fn answered(release: Release) -> Event {
    Event::Release(Reply::Answered { status: 200, body: Ok(release) })
}

fn state() -> AppState {
    let mut state = AppState::new(Reporting::Terse);
    state.error = Some("old".to_string());
    state.hint = Some("hint".to_string());
    state
}

fn operation(state: &AppState) -> Option<&str> {
    state.current_operation.as_deref()
}

/// Runs a self-update from 1.0.0 to 1.1.0 up to the moment when the program's file
/// has been moved aside and the package was looked into.
fn up_to_opening(state: &mut AppState, package: Vec<u8>) -> (SelfUpdateTask, Work) {
    let (task, work) = do_self_update(state, "1.0.0");
    match work {
        Work::FetchRelease { url } => assert_eq!(
            url,
            "https://api.github.com/repos/LanderN/nextui-updater-pak/releases/latest"
        ),
        _ => panic!("no release asked for"),
    }
    assert_eq!(operation(state), Some("Fetching latest updater release..."));
    assert_eq!(state.progress, Some(Progress::Indeterminate));
    let (task, work) = task.resume(state, answered(release("1.1.0")));
    assert!(matches!(work, Work::BuildClient));
    assert_eq!(operation(state), Some("Downloading updater..."));
    let (task, work) = task.resume(state, Event::Client(Ok(())));
    match work {
        Work::Download { url, lenient } => {
            assert_eq!(url, "https://example.org/1.1.0/first.zip");
            assert!(lenient);
        }
        _ => panic!("no download asked for"),
    }
    state.update_progress(Some(Progress::Determinate { done: 1, total: 2 }));
    let (task, work) = task.resume(state, Event::Package(Ok(package)));
    match work {
        Work::BackUpBinary { extension } => assert_eq!(extension, "bak"),
        _ => panic!("nothing to move aside"),
    }
    assert_eq!(operation(state), Some("Extracting NextUI Updater 1.1.0..."));
    assert_eq!(state.progress, Some(Progress::Indeterminate));
    let (task, work) = task.resume(state, Event::BackedUp(Ok(())));
    assert!(matches!(work, Work::OpenPackage));
    assert_eq!(operation(state), Some("Extracting NextUI Updater 1.1.0..."));
    task.prepare().resume(state, Event::Opened)
}

/// The extension from which the program's file is to be moved back.
fn restored_from(work: Work) -> String {
    match work {
        Work::RestoreBinary { extension } => extension,
        _ => panic!("nothing to move back"),
    }
}

#[test]
fn keeps_the_program_under_the_backup_extension() {
    assert_eq!(BACKUP_EXTENSION, "bak");
}

#[test]
fn only_a_package_is_looked_into() {
    let opened = SelfUpdate::Opening { package: package(&[("updater", b"new")]) }.prepare();
    match opened {
        SelfUpdate::Opened { work: Ok(Work::Extract { archive, .. }) } => {
            assert_eq!(archive.len(), 1)
        }
        _ => panic!("not looked into"),
    }
    let failed = SelfUpdate::Opening { package: b"no zip at all".to_vec() }.prepare();
    assert!(matches!(failed, SelfUpdate::Opened { work: Err(_) }));
    assert!(matches!(SelfUpdate::AwaitPause.prepare(), SelfUpdate::AwaitPause));
    match (SelfUpdate::AwaitBackUp { package: vec![1, 2] }).prepare() {
        SelfUpdate::AwaitBackUp { package } => assert_eq!(package, vec![1, 2]),
        _ => panic!("another step"),
    }
    let (startup, _) = start(&mut state(), "1.0.0");
    match startup.prepare() {
        Startup::Updating(task) => assert!(matches!(task.step, SelfUpdate::AwaitRelease { .. })),
        Startup::Checking(_) => panic!("no self-update"),
    }
}

#[test]
fn installs_a_newer_version_and_restarts() {
    let mut state = state();
    let new_version = package(&[("updater", b"new")]);
    let (task, work) = up_to_opening(&mut state, new_version.clone());
    match work {
        Work::Extract { mut archive, root, unwrap_root } => {
            assert_eq!(root, "/mnt/SDCARD/");
            assert!(!unwrap_root);
            let mut content = String::new();
            archive.by_name("updater").unwrap().read_to_string(&mut content).unwrap();
            assert_eq!(content, "new");
            assert_eq!(archive.into_inner().into_inner(), new_version);
        }
        _ => panic!("nothing to extract"),
    }
    let (task, work) = task.resume(&mut state, Event::Extracted(Ok(())));
    assert!(matches!(work, Work::Pause { seconds: 1 }));
    assert_eq!(operation(&state), Some("Self-update success! Restarting updater..."));
    let (task, work) = task.resume(&mut state, Event::Paused);
    assert!(matches!(work, Work::Exit { code: 5 }));
    assert_eq!(RESTART_CODE, 5);
    assert!(!task.is_finished());
    assert_eq!(state.error.as_deref(), Some("old"));
    assert_eq!(state.hint.as_deref(), Some("hint"));
}

#[test]
fn does_nothing_when_nothing_is_newer() {
    for tag in ["1.0.0", "0.9.9", "1.0.0-rc.1"] {
        let mut state = state();
        let (task, _) = do_self_update(&mut state, "1.0.0");
        let empty = Release { tag_name: tag.to_string(), assets: Vec::new() };
        let (task, work) = task.resume(&mut state, answered(empty));
        assert!(matches!(work, Work::Nothing));
        assert!(task.is_finished());
        assert!(matches!(task.step, SelfUpdate::Finished(Ok(()))));
        assert_eq!(operation(&state), None);
        assert_eq!(state.progress, None);
        assert_eq!(state.error.as_deref(), Some("old"));
    }
}

#[test]
fn shows_why_the_release_could_not_be_used() {
    let cases = [
        (
            Event::Release(Reply::Unsent("no route".to_string())),
            "Self-update failed: no route",
        ),
        (
            Event::Release(Reply::Answered { status: 503, body: Err("x".to_string()) }),
            "Self-update failed: GitHub API request failed: 503 Service Unavailable",
        ),
        (
            answered(release("latest")),
            "Self-update failed: unexpected character 'l' while parsing major version number",
        ),
    ];
    for (event, message) in cases {
        let mut state = state();
        let (task, _) = do_self_update(&mut state, "1.0.0");
        let (task, work) = task.resume(&mut state, event);
        assert!(matches!(work, Work::Nothing));
        assert!(task.is_finished());
        assert_eq!(operation(&state), None);
        assert_eq!(state.progress, None);
        assert_eq!(state.error.as_deref(), Some(message));
    }
}

#[test]
fn shows_why_the_download_failed() {
    let mut state = state();
    let (task, _) = do_self_update(&mut state, "1.0.0");
    let (task, _) = task.resume(&mut state, answered(release("1.1.0")));
    let (task, work) = task.resume(&mut state, Event::Client(Err("no client".to_string())));
    assert!(matches!(work, Work::Nothing) && task.is_finished());
    assert_eq!(state.error.as_deref(), Some("Self-update failed: no client"));

    let (task, _) = do_self_update(&mut state, "1.0.0");
    let (task, _) = task.resume(&mut state, answered(release("1.1.0")));
    let (task, _) = task.resume(&mut state, Event::Client(Ok(())));
    let (task, work) = task.resume(&mut state, Event::Package(Err("cut off".to_string())));
    assert!(matches!(work, Work::Nothing) && task.is_finished());
    assert_eq!(state.error.as_deref(), Some("Self-update failed: cut off"));
}

#[test]
fn leaves_the_program_alone_when_it_cannot_be_moved() {
    let mut state = state();
    let (task, _) = do_self_update(&mut state, "1.0.0");
    let (task, _) = task.resume(&mut state, answered(release("1.1.0")));
    let (task, _) = task.resume(&mut state, Event::Client(Ok(())));
    let (task, _) = task.resume(&mut state, Event::Package(Ok(package(&[]))));
    let (task, work) = task.resume(&mut state, Event::BackedUp(Err("read-only".to_string())));
    assert!(matches!(work, Work::Nothing) && task.is_finished());
    assert_eq!(state.error.as_deref(), Some("Self-update failed: read-only"));
}

#[test]
fn moves_the_program_back_when_the_package_cannot_be_opened() {
    let mut state = state();
    let (task, work) = up_to_opening(&mut state, b"no zip at all".to_vec());
    assert_eq!(restored_from(work), "bak");
    assert!(!task.is_finished());
    let (task, work) = task.resume(&mut state, Event::Restored(Ok(())));
    assert!(matches!(work, Work::Nothing) && task.is_finished());
    assert_eq!(
        state.error.as_deref(),
        Some("Self-update failed: Failed to extract update package")
    );
    assert_eq!(operation(&state), None);
}

#[test]
fn moves_the_program_back_when_unpacking_fails() {
    let mut state = state();
    let (task, _) = up_to_opening(&mut state, package(&[("updater", b"new")]));
    let (task, work) = task.resume(&mut state, Event::Extracted(Err("disk full".to_string())));
    assert_eq!(restored_from(work), "bak");
    let (task, work) = task.resume(&mut state, Event::Restored(Err("gone".to_string())));
    assert!(matches!(work, Work::Nothing) && task.is_finished());
    assert_eq!(state.error.as_deref(), Some("Self-update failed: gone"));
}

#[test]
fn a_bare_self_update_leaves_the_screen_to_its_caller() {
    let mut state = state();
    let (step, _) = self_update(&mut state, "1.0.0");
    let (step, work) =
        step.resume(&mut state, Event::Release(Reply::Unsent("no route".to_string())));
    assert!(matches!(work, Work::Nothing));
    match step {
        SelfUpdate::Finished(Err(text)) => assert_eq!(text, "no route"),
        _ => panic!("not over"),
    }
    assert_eq!(operation(&state), Some("Fetching latest updater release..."));
    assert_eq!(state.error.as_deref(), Some("old"));
}

#[test]
fn weighs_a_release_by_what_it_is_told() {
    let mut state = state();
    let (step, work) = weigh_release(&mut state, release("9.9.9"), Ok(false));
    assert!(matches!(step, SelfUpdate::Finished(Ok(()))) && matches!(work, Work::Nothing));
    assert_eq!(operation(&state), None);
    let (step, work) = weigh_release(&mut state, release("0.0.1"), Ok(true));
    assert!(matches!(step, SelfUpdate::AwaitClient { .. }) && matches!(work, Work::BuildClient));
    assert_eq!(operation(&state), Some("Downloading updater..."));
    let (step, _) = weigh_release(&mut state, release("0.0.1"), Err("bad".to_string()));
    match step {
        SelfUpdate::Finished(Err(text)) => assert_eq!(text, "bad"),
        _ => panic!("not over"),
    }
}

#[test]
fn installs_what_could_be_opened() {
    let (step, work) = install_package(Err("bad".to_string()));
    assert!(matches!(step, SelfUpdate::AwaitRestore));
    assert_eq!(restored_from(work), BACKUP_EXTENSION);
    let (step, work) = install_package(extract_zip(package(&[("a", b"b")]), false));
    assert!(matches!(step, SelfUpdate::AwaitExtraction) && matches!(work, Work::Extract { .. }));
}

#[test]
fn a_start_checks_for_nextui_after_the_self_update() {
    let mut state = state();
    let (startup, work) = start(&mut state, "1.0.0");
    assert!(matches!(work, Work::FetchRelease { .. }));
    let (startup, work) =
        startup.resume(&mut state, Event::Release(Reply::Unsent("no route".to_string())));
    assert!(matches!(startup, Startup::Checking(_)));
    match work {
        Work::FetchRelease { url } => assert_eq!(
            url,
            "https://api.github.com/repos/LoveRetro/NextUI/releases/latest"
        ),
        _ => panic!("no release asked for"),
    }
    assert_eq!(state.error.as_deref(), Some("Self-update failed: no route"));
    assert_eq!(operation(&state), Some("Fetching latest NextUI release..."));
    let (startup, work) =
        startup.resume(&mut state, Event::Release(Reply::Unsent("still none".to_string())));
    assert!(matches!(work, Work::Nothing));
    match startup {
        Startup::Checking(check) => assert!(check.is_finished()),
        Startup::Updating(_) => panic!("no check"),
    }
    assert_eq!(state.error.as_deref(), Some("Fetch failed: still none"));
    assert_eq!(operation(&state), None);
}
