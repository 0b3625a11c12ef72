use nextui_updater::app_state::{AppState, Progress, Reporting};
use nextui_updater::archive::{extract_minui, quick_payload};
use nextui_updater::github::{Asset, Commit, Release, Reply, Tag};
use nextui_updater::update::nextui::{
    do_update, install_update, update_nextui, write_minui, NextuiUpdate, UpdateTask, REBOOT_COMMAND,
};
use nextui_updater::update::do_nextui_release_check;
use nextui_updater::work::{extract_zip, Event, Work};
use std::io::{Cursor, Write};
use zip::write::SimpleFileOptions;
use zip::{CompressionMethod, ZipWriter};

fn packed(files: &[(&str, &[u8])], method: CompressionMethod) -> Vec<u8> {
    let mut writer = ZipWriter::new(Cursor::new(Vec::new()));
    for (name, content) in files {
        let options = SimpleFileOptions::default().compression_method(method);
        writer.start_file(*name, options).unwrap();
        writer.write_all(content).unwrap();
    }
    writer.finish().unwrap().into_inner()
}

fn update_package() -> Vec<u8> {
    packed(
        &[("README.txt", b"read me"), ("MinUI.zip", b"the payload")],
        CompressionMethod::Deflated,
    )
}

fn asset(name: &str) -> Asset {
    Asset { name: name.to_string(), url: format!("https://example.org/{name}") }
}

fn release() -> Release {
    Release {
        tag_name: "v6.0.1".to_string(),
        assets: vec![asset("NextUI-all.zip"), asset("NextUI-base.zip")],
    }
}

fn known(reporting: Reporting) -> AppState {
    let mut state = AppState::new(reporting);
    state.set_nextui_release(Some(release()));
    state
}

fn operation(state: &AppState) -> Option<&str> {
    state.current_operation.as_deref()
}

fn tags(names: &[(&str, &str)]) -> Event {
    let body = names
        .iter()
        .map(|(name, sha)| Tag {
            name: name.to_string(),
            commit: Commit { sha: sha.to_string() },
        })
        .collect();
    Event::Tags(Reply::Answered { status: 200, body: Ok(body) })
}

fn answered(release: Release) -> Event {
    Event::Release(Reply::Answered { status: 200, body: Ok(release) })
}

#[test]
fn a_check_notes_the_release_and_its_tag() {
    for reporting in [Reporting::Terse, Reporting::Staged] {
        let mut state = AppState::new(reporting);
        let (check, work) = do_nextui_release_check(&mut state);
        match work {
            Work::FetchRelease { url } => assert_eq!(
                url,
                "https://api.github.com/repos/LoveRetro/NextUI/releases/latest"
            ),
            _ => panic!("no release asked for"),
        }
        assert_eq!(operation(&state), Some("Fetching latest NextUI release..."));
        assert_eq!(state.progress, Some(Progress::Indeterminate));
        let (check, work) = check.resume(&mut state, answered(release()));
        match work {
            Work::FetchTags { url } => {
                assert_eq!(url, "https://api.github.com/repos/LoveRetro/NextUI/tags")
            }
            _ => panic!("no tags asked for"),
        }
        assert_eq!(operation(&state), Some("Fetching latest NextUI tag..."));
        assert_eq!(state.nextui_release().unwrap().tag_name, "v6.0.1");
        let (check, work) =
            check.resume(&mut state, tags(&[("v6.0.0", "000"), ("v6.0.1", "abc")]));
        assert!(matches!(work, Work::Nothing) && check.is_finished());
        assert_eq!(state.nextui_tag.as_ref().unwrap().commit.sha, "abc");
        assert_eq!(operation(&state), None);
        assert_eq!(state.progress, None);
        assert_eq!(state.error, None);
    }
}

#[test]
fn a_check_shows_that_the_release_could_not_be_had() {
    let cases = [
        (Reporting::Terse, "Fetch failed: no route"),
        (Reporting::Staged, "Release fetch failed: no route"),
    ];
    for (reporting, message) in cases {
        let mut state = AppState::new(reporting);
        let (check, _) = do_nextui_release_check(&mut state);
        let (check, work) =
            check.resume(&mut state, Event::Release(Reply::Unsent("no route".to_string())));
        assert!(matches!(work, Work::Nothing) && check.is_finished());
        assert_eq!(state.error.as_deref(), Some(message));
        assert_eq!(operation(&state), None);
        assert!(state.nextui_release.is_none());
    }
}

#[test]
fn a_check_shows_that_the_tag_could_not_be_had() {
    let cases = [
        (Reporting::Terse, "Fetch failed: Tag not found"),
        (Reporting::Staged, "Tag fetch failed: Tag not found"),
    ];
    for (reporting, message) in cases {
        let mut state = AppState::new(reporting);
        let (check, _) = do_nextui_release_check(&mut state);
        let (check, _) = check.resume(&mut state, answered(release()));
        let (check, work) = check.resume(&mut state, tags(&[("v6.0.0", "000")]));
        assert!(matches!(work, Work::Nothing) && check.is_finished());
        assert_eq!(state.error.as_deref(), Some(message));
        assert_eq!(operation(&state), None);
        assert_eq!(state.progress, None);
        assert!(state.nextui_release.is_some() && state.nextui_tag.is_none());
    }
}

#[test]
fn a_terse_update_builds_a_client_before_it_chooses() {
    let mut state = known(Reporting::Terse);
    let (step, work) = update_nextui(&mut state, true);
    assert!(matches!(work, Work::BuildClient));
    assert_eq!(operation(&state), Some("Downloading update..."));
    let (_, work) = step.resume(&mut state, Event::Client(Ok(())));
    match work {
        Work::Download { url, lenient } => {
            assert_eq!(url, "https://example.org/NextUI-all.zip");
            assert!(lenient);
        }
        _ => panic!("no download asked for"),
    }
    assert_eq!(operation(&state), Some("Downloading NextUI-all.zip..."));
    assert_eq!(state.progress, Some(Progress::Indeterminate));
}

#[test]
fn a_staged_update_begins_at_nothing_of_the_whole() {
    let mut state = known(Reporting::Staged);
    let (_, work) = update_nextui(&mut state, false);
    match work {
        Work::Download { url, .. } => assert_eq!(url, "https://example.org/NextUI-base.zip"),
        _ => panic!("no download asked for"),
    }
    assert_eq!(operation(&state), Some("Downloading NextUI-base.zip..."));
    assert_eq!(state.progress, Some(Progress::Determinate { done: 0, total: 1 }));
}

#[test]
fn an_update_needs_a_release() {
    let cases = [(Reporting::Terse, None), (Reporting::Staged, Some("Downloading update..."))];
    for (reporting, shown) in cases {
        let mut state = AppState::new(reporting);
        let (step, work) = update_nextui(&mut state, true);
        assert!(matches!(work, Work::Nothing));
        match step {
            NextuiUpdate::Finished(Err(text)) => assert_eq!(text, "No release found"),
            _ => panic!("not over"),
        }
        assert_eq!(operation(&state), shown);
    }
}

#[test]
fn an_update_needs_an_asset() {
    let mut state = AppState::new(Reporting::Staged);
    state.set_nextui_release(Some(Release { tag_name: "v1".to_string(), assets: Vec::new() }));
    let (step, _) = update_nextui(&mut state, true);
    match step {
        NextuiUpdate::Finished(Err(text)) => assert_eq!(text, "No assets found"),
        _ => panic!("not over"),
    }
}

#[test]
fn a_full_update_unpacks_all_and_reboots() {
    let mut state = known(Reporting::Staged);
    let package = update_package();
    let (task, _) = do_update(&mut state, true);
    let (task, work) = task.resume(&mut state, Event::Package(Ok(package.clone())));
    assert!(matches!(work, Work::OpenPackage));
    assert_eq!(operation(&state), Some("Extracting NextUI-all.zip...\nPlease wait..."));
    let (task, work) = task.prepare().resume(&mut state, Event::Opened);
    match work {
        Work::Extract { archive, root, unwrap_root } => {
            assert_eq!(archive.len(), 2);
            assert_eq!(archive.into_inner().into_inner(), package);
            assert_eq!(root, "/mnt/SDCARD/");
            assert!(!unwrap_root);
        }
        _ => panic!("nothing to extract"),
    }
    assert_eq!(operation(&state), Some("Extracting NextUI-all.zip...\nPlease wait..."));
    assert_eq!(state.progress, Some(Progress::Indeterminate));
    let (task, work) = task.resume(&mut state, Event::Extracted(Ok(())));
    assert!(matches!(work, Work::Pause { seconds: 2 }));
    assert_eq!(operation(&state), Some("Update complete, preparing to reboot..."));
    let (task, work) = task.resume(&mut state, Event::Paused);
    match work {
        Work::Reboot { command } => assert_eq!(command, "reboot"),
        _ => panic!("no reboot"),
    }
    assert_eq!(REBOOT_COMMAND, "reboot");
    assert_eq!(operation(&state), Some("Rebooting system..."));
    let (task, work) = task.resume(&mut state, Event::Rebooted(Ok(())));
    assert!(matches!(work, Work::Nothing) && task.is_finished());
    assert!(matches!(task, UpdateTask::Updating(_)));
    assert_eq!(operation(&state), Some("Rebooting system..."));
    assert_eq!(state.error, None);
}

#[test]
fn a_quick_update_writes_minui_only() {
    let mut state = known(Reporting::Terse);
    let (task, _) = do_update(&mut state, false);
    let (task, _) = task.resume(&mut state, Event::Client(Ok(())));
    let (task, work) = task.resume(&mut state, Event::Package(Ok(update_package())));
    assert!(matches!(work, Work::OpenPackage));
    assert_eq!(operation(&state), Some("Extracting NextUI-base.zip...\nPlease wait..."));
    let (task, work) = task.prepare().resume(&mut state, Event::Opened);
    match work {
        Work::WriteFile { path, content } => {
            assert_eq!(path, "/mnt/SDCARD//MinUI.zip");
            assert_eq!(content, b"the payload");
        }
        _ => panic!("nothing to write"),
    }
    let (_, work) = task.resume(&mut state, Event::Written(Ok(())));
    assert!(matches!(work, Work::Pause { seconds: 2 }));
}

#[test]
fn a_quick_update_needs_minui_in_the_package() {
    let mut state = known(Reporting::Staged);
    let (task, _) = do_update(&mut state, false);
    let package = packed(&[("other.zip", b"x")], CompressionMethod::Stored);
    let (task, _) = task.resume(&mut state, Event::Package(Ok(package)));
    let (task, work) = task.prepare().resume(&mut state, Event::Opened);
    assert!(matches!(task, UpdateTask::Checking(_)) && matches!(work, Work::FetchRelease { .. }));
    assert_eq!(
        state.error.as_deref(),
        Some("Update failed: File MinUI.zip not found in archive")
    );
    assert_eq!(operation(&state), Some("Fetching latest NextUI release..."));
}

#[test]
fn a_package_must_be_an_archive() {
    for full in [true, false] {
        let mut state = known(Reporting::Staged);
        let (task, _) = do_update(&mut state, full);
        let (task, _) = task.resume(&mut state, Event::Package(Ok(b"no zip at all".to_vec())));
        let (task, _) = task.prepare().resume(&mut state, Event::Opened);
        assert!(matches!(task, UpdateTask::Checking(_)));
        let error = state.error.unwrap();
        assert!(error.starts_with("Update failed: invalid Zip archive: "));
    }
}

#[test]
fn a_failed_update_checks_for_the_release_again() {
    let mut state = known(Reporting::Staged);
    let (task, _) = do_update(&mut state, true);
    let (task, work) = task.resume(&mut state, Event::Package(Err("cut off".to_string())));
    assert!(matches!(work, Work::FetchRelease { .. }) && !task.is_finished());
    assert_eq!(state.error.as_deref(), Some("Update failed: cut off"));
    let mut newer = release();
    newer.tag_name = "v6.0.2".to_string();
    let (task, work) = task.resume(&mut state, answered(newer));
    assert!(matches!(work, Work::FetchTags { .. }));
    let (task, work) = task.resume(&mut state, tags(&[("v6.0.2", "def")]));
    assert!(matches!(work, Work::Nothing) && task.is_finished());
    assert_eq!(state.nextui_release.as_ref().unwrap().tag_name, "v6.0.2");
    assert_eq!(operation(&state), None);
    assert_eq!(state.error.as_deref(), Some("Update failed: cut off"));
}

#[test]
fn every_later_failure_is_shown() {
    let mut state = known(Reporting::Terse);
    let (task, _) = do_update(&mut state, true);
    let (task, _) = task.resume(&mut state, Event::Client(Err("no client".to_string())));
    assert!(matches!(task, UpdateTask::Checking(_)));
    assert_eq!(state.error.as_deref(), Some("Update failed: no client"));

    let mut state = known(Reporting::Staged);
    let (task, _) = do_update(&mut state, true);
    let (task, _) = task.resume(&mut state, Event::Package(Ok(update_package())));
    let (task, _) = task.prepare().resume(&mut state, Event::Opened);
    let (task, _) = task.resume(&mut state, Event::Extracted(Err("disk full".to_string())));
    assert!(matches!(task, UpdateTask::Checking(_)));
    assert_eq!(state.error.as_deref(), Some("Update failed: disk full"));

    let mut state = known(Reporting::Staged);
    let (task, _) = do_update(&mut state, true);
    let (task, _) = task.resume(&mut state, Event::Package(Ok(update_package())));
    let (task, _) = task.prepare().resume(&mut state, Event::Opened);
    let (task, _) = task.resume(&mut state, Event::Extracted(Ok(())));
    let (task, _) = task.resume(&mut state, Event::Paused);
    let (task, _) = task.resume(&mut state, Event::Rebooted(Err("no reboot".to_string())));
    assert!(matches!(task, UpdateTask::Checking(_)));
    assert_eq!(state.error.as_deref(), Some("Update failed: no reboot"));
}

#[test]
fn an_update_without_a_release_fails_at_once() {
    let mut state = AppState::new(Reporting::Terse);
    let (task, work) = do_update(&mut state, true);
    assert!(matches!(task, UpdateTask::Checking(_)) && matches!(work, Work::FetchRelease { .. }));
    assert_eq!(state.error.as_deref(), Some("Update failed: No release found"));
}

#[test]
fn takes_minui_out_of_a_package() {
    assert_eq!(extract_minui(update_package()), Ok(b"the payload".to_vec()));
    let nested = packed(&[("dir/MinUI.zip", b"x")], CompressionMethod::Stored);
    assert_eq!(extract_minui(nested), Err("File MinUI.zip not found in archive".to_string()));
}

#[test]
fn a_spoilt_member_cannot_be_read() {
    let content = b"a payload that is easy to find";
    let mut package = packed(&[("MinUI.zip", content)], CompressionMethod::Stored);
    let at = package.windows(content.len()).position(|w| w == content).unwrap();
    package[at] ^= 1;
    assert_eq!(extract_minui(package), Err("Invalid checksum".to_string()));
}

#[test]
fn follows_what_it_is_told_of_the_package() {
    assert_eq!(quick_payload(None), Err("File MinUI.zip not found in archive".to_string()));
    assert_eq!(quick_payload(Some(Ok(vec![1, 2]))), Ok(vec![1, 2]));
    assert_eq!(quick_payload(Some(Err("torn".to_string()))), Err("torn".to_string()));
    match write_minui(Ok(vec![1])) {
        Ok(Work::WriteFile { path, content }) => {
            assert_eq!(path, "/mnt/SDCARD//MinUI.zip");
            assert_eq!(content, vec![1]);
        }
        _ => panic!("nothing to write"),
    }
    assert!(matches!(write_minui(Err("torn".to_string())), Err(text) if text == "torn"));
    let (step, work) = install_update(write_minui(Ok(vec![1])), false);
    assert!(matches!(step, NextuiUpdate::AwaitInstallation { full: false }));
    assert!(matches!(work, Work::WriteFile { .. }));
    let (step, work) = install_update(extract_zip(update_package(), false), true);
    assert!(matches!(step, NextuiUpdate::AwaitInstallation { full: true }));
    assert!(matches!(work, Work::Extract { unwrap_root: false, .. }));
    let (step, work) = install_update(Err("bad".to_string()), true);
    assert!(matches!(step, NextuiUpdate::Finished(Err(_))) && matches!(work, Work::Nothing));
}

#[test]
fn only_an_update_package_is_looked_into() {
    let opening = NextuiUpdate::Opening { package: update_package(), full: false };
    match opening.prepare() {
        NextuiUpdate::Opened { work: Ok(Work::WriteFile { content, .. }), full: false } => {
            assert_eq!(content, b"the payload")
        }
        _ => panic!("not looked into"),
    }
    let opening = NextuiUpdate::Opening { package: update_package(), full: true };
    assert!(matches!(
        opening.prepare(),
        NextuiUpdate::Opened { work: Ok(Work::Extract { .. }), full: true }
    ));
    assert!(matches!(NextuiUpdate::AwaitReboot.prepare(), NextuiUpdate::AwaitReboot));
    let (task, _) = do_update(&mut AppState::new(Reporting::Terse), true);
    assert!(matches!(task.prepare(), UpdateTask::Checking(_)));
}
