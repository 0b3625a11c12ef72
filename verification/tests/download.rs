use nextui_updater::app_state::{AppState, Progress, Reporting};
use nextui_updater::download::{Download, Received};

#[test]
fn collects_the_pieces_in_order() {
    let mut download = Download::new(Some(8));
    assert_eq!(
        download.receive(&[1, 2, 3]),
        Received::Partial(Some(Progress::Determinate { done: 3, total: 8 }))
    );
    assert_eq!(
        download.receive(&[4]),
        Received::Partial(Some(Progress::Determinate { done: 4, total: 8 }))
    );
    assert_eq!(
        download.receive(&[5, 6, 7, 8]),
        Received::Partial(Some(Progress::Determinate { done: 8, total: 8 }))
    );
    assert_eq!(download.receive(&[]), Received::Complete);
    assert_eq!(download.finish(), vec![1, 2, 3, 4, 5, 6, 7, 8]);
}

#[test]
fn tells_no_share_of_an_unknown_size() {
    let mut download = Download::new(None);
    assert_eq!(download.receive(&[1]), Received::Partial(None));
    let mut download = Download::new(Some(0));
    assert_eq!(download.receive(&[1]), Received::Partial(None));
    assert_eq!(download.finish(), vec![1]);
}

#[test]
fn tells_more_than_the_announced_size_as_it_is() {
    let mut download = Download::new(Some(1));
    assert_eq!(
        download.receive(&[1, 2]),
        Received::Partial(Some(Progress::Determinate { done: 2, total: 1 }))
    );
}

#[test]
fn shows_a_share_and_keeps_it_where_none_is_known() {
    let mut state = AppState::new(Reporting::Terse);
    state.update_progress(None);
    assert_eq!(state.progress, None);
    state.update_progress(Some(Progress::Determinate { done: 1, total: 4 }));
    state.update_progress(None);
    assert_eq!(state.progress, Some(Progress::Determinate { done: 1, total: 4 }));
}
