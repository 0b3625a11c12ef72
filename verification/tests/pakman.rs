use nextui_updater::app_state::{AppState, Progress, Reporting};
use nextui_updater::github::{Asset, Release, Reply};
use nextui_updater::pakman::{
    announce_pakman, do_pakman_release_check, do_pakman_update, install_pakman, update_pakman,
    PakmanCheck, PakmanUpdate,
};
use nextui_updater::work::{Event, Work};
use std::io::{Cursor, Write};
use zip::write::SimpleFileOptions;
use zip::ZipWriter;

fn package() -> Vec<u8> {
    let mut writer = ZipWriter::new(Cursor::new(Vec::new()));
    writer.start_file("pakman/launch.sh", SimpleFileOptions::default()).unwrap();
    writer.write_all(b"#!/bin/sh\n").unwrap();
    writer.finish().unwrap().into_inner()
}

fn release() -> Release {
    let asset = |name: &str| Asset {
        name: name.to_string(),
        url: format!("https://example.org/{name}"),
    };
    Release { tag_name: "v0.3".to_string(), assets: vec![asset("one.zip"), asset("all.zip")] }
}

fn known() -> AppState {
    let mut state = AppState::new(Reporting::Terse);
    state.pakman_release = Some(release());
    state
}

fn operation(state: &AppState) -> Option<&str> {
    state.current_operation.as_deref()
}

#[test]
fn a_pakman_check_notes_the_release() {
    let mut state = AppState::new(Reporting::Terse);
    let (check, work) = do_pakman_release_check(&mut state);
    match work {
        Work::FetchRelease { url } => assert_eq!(
            url,
            "https://api.github.com/repos/josegonzalez/pakman/releases/latest"
        ),
        _ => panic!("no release asked for"),
    }
    assert_eq!(operation(&state), Some("Fetching latest Pakman release..."));
    assert_eq!(state.progress, Some(Progress::Indeterminate));
    let event = Event::Release(Reply::Answered { status: 200, body: Ok(release()) });
    let (check, work) = check.resume(&mut state, event);
    assert_eq!(check, PakmanCheck::Finished);
    assert!(matches!(work, Work::Nothing));
    assert_eq!(state.pakman_release.as_ref().unwrap().tag_name, "v0.3");
    assert_eq!(operation(&state), None);
    assert_eq!(state.error, None);
}

#[test]
fn a_pakman_check_shows_why_it_failed() {
    for reporting in [Reporting::Terse, Reporting::Staged] {
        let mut state = AppState::new(reporting);
        let (check, _) = do_pakman_release_check(&mut state);
        let event = Event::Release(Reply::Answered { status: 500, body: Err("x".to_string()) });
        check.resume(&mut state, event);
        assert_eq!(
            state.error.as_deref(),
            Some("Fetch failed: GitHub API request failed: 500 Internal Server Error")
        );
        assert_eq!(operation(&state), None);
        assert_eq!(state.progress, None);
        assert!(state.pakman_release.is_none());
    }
}

#[test]
fn a_pakman_update_unpacks_without_the_root() {
    let mut state = known();
    let (task, work) = do_pakman_update(&mut state);
    match work {
        Work::Download { url, lenient } => {
            assert_eq!(url, "https://example.org/one.zip");
            assert!(!lenient);
        }
        _ => panic!("no download asked for"),
    }
    assert_eq!(operation(&state), Some("Downloading Pakman v0.3..."));
    let brought = package();
    let (task, work) = task.resume(&mut state, Event::Package(Ok(brought.clone())));
    assert!(matches!(work, Work::OpenPackage));
    assert_eq!(
        operation(&state),
        Some("Extracting Pakman v0.3...\nPlease be patient, this may take a while...")
    );
    let (task, work) = task.prepare().resume(&mut state, Event::Opened);
    match work {
        Work::Extract { archive, root, unwrap_root } => {
            assert_eq!(archive.len(), 1);
            assert_eq!(archive.into_inner().into_inner(), brought);
            assert_eq!(root, "/mnt/SDCARD/");
            assert!(unwrap_root);
        }
        _ => panic!("nothing to extract"),
    }
    assert_eq!(
        operation(&state),
        Some("Extracting Pakman v0.3...\nPlease be patient, this may take a while...")
    );
    let (task, work) = task.resume(&mut state, Event::Extracted(Ok(())));
    assert!(matches!(work, Work::Pause { seconds: 4 }));
    assert_eq!(operation(&state), Some("Pakman update success!"));
    let (task, work) = task.resume(&mut state, Event::Paused);
    assert!(matches!(work, Work::Nothing) && task.is_finished());
    assert_eq!(operation(&state), None);
    assert_eq!(state.progress, None);
    assert_eq!(state.error, None);
}

#[test]
fn a_pakman_update_shows_why_it_failed() {
    let mut state = AppState::new(Reporting::Terse);
    let (task, work) = do_pakman_update(&mut state);
    assert!(matches!(work, Work::Nothing) && task.is_finished());
    assert_eq!(state.error.as_deref(), Some("Update failed: No release found"));

    let mut state = known();
    let (task, _) = do_pakman_update(&mut state);
    let (task, _) = task.resume(&mut state, Event::Package(Err("cut off".to_string())));
    assert!(task.is_finished());
    assert_eq!(state.error.as_deref(), Some("Update failed: cut off"));
    assert_eq!(operation(&state), None);

    let mut state = known();
    let (task, _) = do_pakman_update(&mut state);
    let (task, _) = task.resume(&mut state, Event::Package(Ok(b"no zip at all".to_vec())));
    let (task, _) = task.prepare().resume(&mut state, Event::Opened);
    assert!(task.is_finished());
    let error = state.error.unwrap();
    assert!(error.starts_with("Update failed: invalid Zip archive: "));

    let mut state = known();
    let (task, _) = do_pakman_update(&mut state);
    let (task, _) = task.resume(&mut state, Event::Package(Ok(package())));
    let (task, _) = task.prepare().resume(&mut state, Event::Opened);
    let (task, _) = task.resume(&mut state, Event::Extracted(Err("disk full".to_string())));
    assert!(task.is_finished());
    assert_eq!(state.error.as_deref(), Some("Update failed: disk full"));
}

#[test]
fn a_pakman_download_is_announced() {
    let mut state = AppState::new(Reporting::Terse);
    state.error = Some("old".to_string());
    announce_pakman(&mut state, "v0.4");
    assert_eq!(operation(&state), Some("Downloading Pakman v0.4..."));
    assert_eq!(state.progress, Some(Progress::Indeterminate));
    assert_eq!(state.error.as_deref(), Some("old"));
}

#[test]
fn a_bare_pakman_update_leaves_the_screen_to_its_caller() {
    let mut state = AppState::new(Reporting::Terse);
    let (step, _) = update_pakman(&mut state);
    assert!(matches!(step, PakmanUpdate::Finished(Err(_))));
    assert_eq!(state.error, None);
    let (step, _) = install_pakman(Err("bad".to_string()));
    assert!(matches!(step, PakmanUpdate::Finished(Err(_))));
    assert!(matches!(PakmanUpdate::AwaitPause.prepare(), PakmanUpdate::AwaitPause));
}
