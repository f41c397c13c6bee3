use rustmission::action::{Action, CurrentTab, InputRequest, KeyCode, KeyEvent, Mode};
use rustmission::action::{event_to_action, to_input_request};
use rustmission::stats::{CumulativeStats, Stats, StatisticsPopup};
use rustmission::table::TableState;
use rustmission::torrents::{TorrentRow, TorrentsTab};

fn key(code: KeyCode) -> KeyEvent {
    KeyEvent { code, alt: false, ctrl: false }
}

fn sample_stats(seed: i64) -> Stats {
    Stats {
        upload_speed: seed,
        download_speed: seed * 2,
        torrent_count: seed * 3,
        cumulative_stats: CumulativeStats { uploaded_bytes: seed * 4, downloaded_bytes: seed * 5 },
    }
}

fn sample_row(name: &str) -> TorrentRow {
    TorrentRow {
        name: String::from(name),
        size: String::from("1 GB"),
        progress: String::from("100%"),
        eta: String::from("0s"),
        download: String::from("0 B/s"),
        upload: String::from("0 B/s"),
    }
}

fn three_row_tab() -> TorrentsTab {
    let mut tab = TorrentsTab::new();
    tab.rows.replace(vec![sample_row("a"), sample_row("b"), sample_row("c")]);
    // select the first row
    let first = tab.handle_actions(Action::Down);
    assert_eq!(first, Some(Action::Render));
    assert_eq!(tab.table.selected, Some(0));
    tab
}

#[test]
fn translation_of_normal_mode_keys() {
    assert_eq!(event_to_action(Mode::Normal, key(KeyCode::Char('j'))), Some(Action::Down));
    assert_eq!(event_to_action(Mode::Normal, key(KeyCode::Char('k'))), Some(Action::Up));
    assert_eq!(event_to_action(Mode::Normal, key(KeyCode::Char('q'))), Some(Action::Quit));
    assert_eq!(event_to_action(Mode::Normal, key(KeyCode::Char('s'))), Some(Action::ShowStats));
    assert_eq!(event_to_action(Mode::Normal, key(KeyCode::Char('?'))), Some(Action::ShowHelp));
    assert_eq!(
        event_to_action(Mode::Normal, key(KeyCode::Char('/'))),
        Some(Action::SwitchToInputMode)
    );
    assert_eq!(
        event_to_action(Mode::Normal, key(KeyCode::Char('2'))),
        Some(Action::ChangeTab(CurrentTab::Search))
    );
    assert_eq!(event_to_action(Mode::Normal, key(KeyCode::Char('x'))), None);
}

#[test]
fn translation_of_input_mode_keys() {
    assert_eq!(
        event_to_action(Mode::Input, key(KeyCode::Esc)),
        Some(Action::SwitchToNormalMode)
    );
    assert_eq!(event_to_action(Mode::Input, key(KeyCode::Enter)), Some(Action::Confirm));
    assert_eq!(
        event_to_action(Mode::Input, key(KeyCode::Char('a'))),
        Some(Action::Input(InputRequest::InsertChar('a')))
    );
    assert_eq!(
        event_to_action(Mode::Input, key(KeyCode::Left)),
        Some(Action::Input(InputRequest::GoToPrevChar))
    );
    assert_eq!(
        event_to_action(Mode::Input, key(KeyCode::Right)),
        Some(Action::Input(InputRequest::GoToNextChar))
    );
    let ctrl_c = KeyEvent { code: KeyCode::Char('c'), alt: false, ctrl: true };
    assert_eq!(event_to_action(Mode::Input, ctrl_c), Some(Action::Quit));
}

#[test]
fn translation_of_editing_keys() {
    let alt_backspace = KeyEvent { code: KeyCode::Backspace, alt: true, ctrl: false };
    assert_eq!(to_input_request(alt_backspace), Some(InputRequest::DeletePrevWord));
    // only alt alone means the previous word; any other modifier set
    // deletes the previous character
    let alt_ctrl_backspace = KeyEvent { code: KeyCode::Backspace, alt: true, ctrl: true };
    assert_eq!(to_input_request(alt_ctrl_backspace), Some(InputRequest::DeletePrevChar));
    assert_eq!(to_input_request(key(KeyCode::Backspace)), Some(InputRequest::DeletePrevChar));
    assert_eq!(to_input_request(key(KeyCode::Delete)), Some(InputRequest::DeleteNextChar));
    assert_eq!(to_input_request(key(KeyCode::Char('z'))), Some(InputRequest::InsertChar('z')));
    assert_eq!(to_input_request(key(KeyCode::Enter)), None);
}

#[test]
fn selection_stays_in_range_over_any_walk() {
    let mut table = TableState::new();
    assert_eq!(table.selected, None);
    // the table is empty: moves keep the selection absent
    table.next(0);
    assert_eq!(table.selected, None);
    table.previous(0);
    assert_eq!(table.selected, None);
    // three rows: a long walk down stops at the last row
    for _ in 0..10 {
        table.next(3);
        let i: usize = table.selected.unwrap();
        assert!(i < 3);
    }
    assert_eq!(table.selected, Some(2));
    // and a long walk up stops at the first
    for _ in 0..10 {
        table.previous(3);
        let i: usize = table.selected.unwrap();
        assert!(i < 3);
    }
    assert_eq!(table.selected, Some(0));
}

#[test]
fn stale_selection_is_reclamped_after_shrink() {
    let mut table = TableState::new();
    for _ in 0..5 {
        table.next(5);
    }
    assert_eq!(table.selected, Some(4));
    // the row list shrank to two entries: the next move clamps
    table.next(2);
    assert_eq!(table.selected, Some(1));
    table.previous(2);
    assert_eq!(table.selected, Some(0));
}

#[test]
fn down_moves_selection_and_requests_render() {
    // input "j" translates to Down; dispatched to a three-row table
    // selected at index 0, the selection becomes 1 and exactly one
    // redraw is requested
    let mut tab = three_row_tab();
    let action = event_to_action(Mode::Normal, key(KeyCode::Char('j'))).unwrap();
    assert_eq!(action, Action::Down);
    let out = tab.handle_actions(action);
    assert_eq!(tab.table.selected, Some(1));
    assert_eq!(out, Some(Action::Render));
}

#[test]
fn up_and_down_on_an_empty_tab_never_select() {
    let mut tab = TorrentsTab::new();
    assert_eq!(tab.handle_actions(Action::Down), Some(Action::Render));
    assert_eq!(tab.table.selected, None);
    assert_eq!(tab.handle_actions(Action::Up), Some(Action::Render));
    assert_eq!(tab.table.selected, None);
}

#[test]
fn show_stats_needs_a_fetched_snapshot() {
    let mut tab = TorrentsTab::new();
    // nothing fetched yet: the popup cannot open
    assert_eq!(tab.handle_actions(Action::ShowStats), None);
    assert!(tab.statistics_popup.is_none());
    // once a snapshot is published the popup opens on the fetched value
    tab.stats.stats.replace(sample_stats(7));
    assert_eq!(tab.handle_actions(Action::ShowStats), Some(Action::Render));
    assert_eq!(tab.statistics_popup, Some(StatisticsPopup::new(sample_stats(7))));
    // while it is open, other actions are consumed whole
    assert_eq!(tab.handle_actions(Action::Down), None);
    assert_eq!(tab.table.selected, None);
    // Confirm closes it and requests a redraw
    assert_eq!(tab.handle_actions(Action::Confirm), Some(Action::Render));
    assert!(tab.statistics_popup.is_none());
}

#[test]
fn unrecognized_actions_fall_through_unchanged() {
    let mut tab = TorrentsTab::new();
    let magnet = Action::TorrentAdd(String::from("magnet:?xt=urn:btih:abc"));
    assert_eq!(tab.handle_actions(magnet.clone()), Some(magnet));
}
