use pupil_osc::watch::{WatchAction, WindowWatch};

#[test]
fn a_missing_window_is_announced_once() {
    let mut watch = WindowWatch::new();
    assert_eq!(watch.on_look(false), WatchAction::AnnounceWaiting);
    assert_eq!(watch.on_look(false), WatchAction::KeepWaiting);
    assert_eq!(watch.on_look(false), WatchAction::KeepWaiting);
}

#[test]
fn a_found_window_is_captured() {
    let mut watch = WindowWatch::new();
    assert_eq!(watch.on_look(true), WatchAction::Capture);
    assert_eq!(watch.on_look(true), WatchAction::Capture);
}

#[test]
fn a_window_that_comes_back_and_goes_again_is_announced_again() {
    let mut watch = WindowWatch::new();
    assert_eq!(watch.on_look(false), WatchAction::AnnounceWaiting);
    assert_eq!(watch.on_look(true), WatchAction::Capture);
    assert_eq!(watch.on_look(false), WatchAction::AnnounceWaiting);
    assert_eq!(watch.on_look(false), WatchAction::KeepWaiting);
}
