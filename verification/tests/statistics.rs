use rustmission::action::Action;
use rustmission::stats::{ratio_of, CumulativeStats, Ratio, Stats, StatisticsPopup};

fn stats(uploaded: i64, downloaded: i64) -> Stats {
    Stats {
        upload_speed: 0,
        download_speed: 0,
        torrent_count: 1,
        cumulative_stats: CumulativeStats {
            uploaded_bytes: uploaded,
            downloaded_bytes: downloaded,
        },
    }
}

#[test]
fn ratio_with_zero_downloaded_is_the_sentinel() {
    // nothing downloaded yet: the quotient is undefined, not a fault
    assert_eq!(ratio_of(100, 0), Ratio::Undefined);
    assert_eq!(StatisticsPopup::new(stats(100, 0)).ratio(), Ratio::Undefined);
}

#[test]
fn ratio_is_the_integer_quotient() {
    assert_eq!(ratio_of(100, 50), Ratio::Value(2));
    assert_eq!(ratio_of(99, 100), Ratio::Value(0));
    assert_eq!(ratio_of(0, 100), Ratio::Value(0));
    assert_eq!(StatisticsPopup::new(stats(300, 100)).ratio(), Ratio::Value(3));
}

#[test]
fn statistics_popup_consumes_all_but_confirm() {
    let mut popup = StatisticsPopup::new(stats(1, 1));
    assert_eq!(popup.handle_actions(Action::Down), None);
    assert_eq!(popup.handle_actions(Action::ShowStats), None);
    assert_eq!(popup.handle_actions(Action::Confirm), Some(Action::Quit));
}
