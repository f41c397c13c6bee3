use rustmission::action::{Action, CurrentTab, InputRequest, Mode};
use rustmission::app::App;
use rustmission::fetch::{mutation_step, publish_result, MutationStep};
use rustmission::popups::ErrorPopup;
use rustmission::snapshot::SharedSnapshot;
use rustmission::stats::{CumulativeStats, Stats};

fn fresh_app() -> App {
    let (action_tx, _action_rx) = tokio::sync::mpsc::unbounded_channel::<Action>();
    let (trans_tx, _trans_rx) = tokio::sync::mpsc::unbounded_channel::<Action>();
    App::new(action_tx, trans_tx)
}

#[test]
fn mode_switches_are_idempotent() {
    let mut app = fresh_app();
    assert_eq!(app.mode, Mode::Normal);
    assert_eq!(app.update(Action::SwitchToInputMode), Some(Action::Render));
    assert_eq!(app.mode, Mode::Input);
    // switching again changes nothing further
    assert_eq!(app.update(Action::SwitchToInputMode), Some(Action::Render));
    assert_eq!(app.mode, Mode::Input);
    // only the switch back reaches Normal; other actions leave Input
    assert_eq!(app.update(Action::Up), Some(Action::Render));
    assert_eq!(app.mode, Mode::Input);
    assert_eq!(app.update(Action::SwitchToNormalMode), Some(Action::Render));
    assert_eq!(app.mode, Mode::Normal);
}

#[test]
fn quit_without_popup_ends_the_session() {
    let mut app = fresh_app();
    assert!(!app.should_quit);
    assert_eq!(app.update(Action::Quit), None);
    assert!(app.should_quit);
}

#[test]
fn popup_blocks_tab_change_and_quit() {
    let mut app = fresh_app();
    let error = ErrorPopup { message: String::from("boom") };
    assert_eq!(app.update(Action::Error(error)), Some(Action::Render));
    // the popup is exclusive: ChangeTab does not change the active tab
    assert_eq!(app.update(Action::ChangeTab(CurrentTab::Search)), None);
    assert_eq!(app.main_window.tabs.current_tab, CurrentTab::Torrents);
    // Quit closes only the popup, not the session
    assert_eq!(app.update(Action::Quit), Some(Action::Render));
    assert!(!app.should_quit);
    assert!(app.main_window.global_popup_manager.error_popup.is_none());
    // without a popup, Quit ends the session
    assert_eq!(app.update(Action::Quit), None);
    assert!(app.should_quit);
}

#[test]
fn a_failed_stats_fetch_surfaces_as_the_error_popup() {
    // the scheduler turns the failure into an Error action
    let snapshot: SharedSnapshot<Stats> = SharedSnapshot::empty();
    let surfaced = publish_result(&snapshot, Err(String::from("connection refused"))).unwrap();

    // dispatched at the session tier, it installs the global error popup
    let mut app = fresh_app();
    assert_eq!(app.update(surfaced), Some(Action::Render));
    let popup = app.main_window.global_popup_manager.error_popup.clone().unwrap();
    assert_eq!(popup.message, "connection refused");

    // Confirm removes it and requests a redraw
    assert_eq!(app.update(Action::Confirm), Some(Action::Render));
    assert!(app.main_window.global_popup_manager.error_popup.is_none());
}

#[test]
fn a_successful_fetch_publishes_and_surfaces_nothing() {
    let snapshot: SharedSnapshot<Stats> = SharedSnapshot::empty();
    assert_eq!(snapshot.read(), None);
    let fetched = Stats {
        upload_speed: 1,
        download_speed: 2,
        torrent_count: 3,
        cumulative_stats: CumulativeStats { uploaded_bytes: 4, downloaded_bytes: 5 },
    };
    assert_eq!(publish_result(&snapshot, Ok(fetched)), None);
    assert_eq!(snapshot.read(), Some(fetched));
}

#[test]
fn mutation_results_refresh_or_surface() {
    assert_eq!(mutation_step(Ok(())), MutationStep::Refresh);
    assert_eq!(
        mutation_step(Err(String::from("permission denied"))),
        MutationStep::Surface(Action::Error(ErrorPopup {
            message: String::from("permission denied")
        }))
    );
}

#[test]
fn help_popup_toggles_and_intercepts() {
    let mut app = fresh_app();
    assert_eq!(app.update(Action::ShowHelp), Some(Action::Render));
    assert!(app.main_window.global_popup_manager.help_popup.is_some());
    // while the help overlay is up, navigation is consumed
    assert_eq!(app.update(Action::Down), None);
    // ShowHelp toggles it away again
    assert_eq!(app.update(Action::ShowHelp), Some(Action::Render));
    assert!(app.main_window.global_popup_manager.help_popup.is_none());
}

#[test]
fn torrent_add_is_handed_to_the_mutation_queue() {
    let (action_tx, _action_rx) = tokio::sync::mpsc::unbounded_channel::<Action>();
    let (trans_tx, mut trans_rx) = tokio::sync::mpsc::unbounded_channel::<Action>();
    let mut app = App::new(action_tx, trans_tx);
    let magnet = Action::TorrentAdd(String::from("magnet:?xt=urn:btih:abc"));
    assert_eq!(app.update(magnet.clone()), None);
    assert_eq!(trans_rx.try_recv(), Ok(magnet));
}

#[test]
fn tab_change_without_popup_switches_the_tab() {
    let mut app = fresh_app();
    assert_eq!(app.update(Action::ChangeTab(CurrentTab::Search)), Some(Action::Render));
    assert_eq!(app.main_window.tabs.current_tab, CurrentTab::Search);
    // text edits now reach the search tab's buffer
    assert_eq!(app.update(Action::Input(InputRequest::InsertChar('a'))), Some(Action::Render));
    assert_eq!(app.main_window.search_tab.input.chars, vec!['a']);
}

#[test]
fn render_actions_only_request_a_redraw() {
    let mut app = fresh_app();
    assert!(app.on_bus_action(Action::Render));
    assert!(!app.on_bus_action(Action::ShowHelp));
    assert!(app.main_window.global_popup_manager.help_popup.is_some());
}
