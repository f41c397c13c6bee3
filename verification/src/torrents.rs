use vstd::prelude::*;
use crate::action::Action;
use crate::snapshot::SharedSnapshot;
use crate::stats::{FreeSpace, Stats, StatisticsPopup};
use crate::table::{down_sel, selection_in_range, up_sel, TableState};

verus! {

/// One formatted row of the torrent table, ready to paint.
#[derive(Clone, Debug, PartialEq, Eq)]
pub struct TorrentRow {
    pub name: String,
    pub size: String,
    pub progress: String,
    pub eta: String,
    pub download: String,
    pub upload: String,
}

/// The stats line under the torrent table: read-only handles on the
/// snapshots the background fetch tasks keep fresh.
pub struct StatsComponent {
    pub stats: SharedSnapshot<Stats>,
    pub free_space: SharedSnapshot<FreeSpace>,
}

impl StatsComponent {
    pub fn new() -> (r: Self) {
        StatsComponent { stats: SharedSnapshot::empty(), free_space: SharedSnapshot::empty() }
    }
}

/// The tab listing the managed transfers: a selection over the fetched
/// rows, the stats line, and an optional statistics overlay that takes
/// every action while present.
pub struct TorrentsTab {
    pub table: TableState,
    pub rows_len: usize,
    pub rows: SharedSnapshot<Vec<TorrentRow>>,
    pub stats: StatsComponent,
    pub statistics_popup: Option<StatisticsPopup>,
}

impl TorrentsTab {
    /// A fresh tab: nothing selected, no rows seen yet, no overlay.
    pub fn new() -> (r: Self)
        ensures
            r.table == (TableState { selected: None }),
            r.rows_len == 0,
            r.statistics_popup is None,
    {
        TorrentsTab {
            table: TableState::new(),
            rows_len: 0,
            rows: SharedSnapshot::empty(),
            stats: StatsComponent::new(),
            statistics_popup: None,
        }
    }

    /// How many rows the latest published row list holds right now.
    fn current_rows_len(&self) -> usize {
        match self.rows.read() {
            Some(rows) => rows.len(),
            None => 0,
        }
    }

    /// The routing contract of this tab, relating the state before one
    /// action to the state and follow-up after it.
    ///
    /// While the statistics overlay is present it sees the action first:
    /// Confirm removes it and requests a redraw, anything else is
    /// consumed.  Otherwise Up and Down move the selection inside the
    /// row count read from the snapshot — always landing in range, or on
    /// None exactly when there are no rows — and request a redraw;
    /// ShowStats opens the overlay exactly when a stats snapshot was
    /// already fetched, requesting a redraw; every other action falls
    /// through unchanged.  Total over Action.
    pub open spec fn step_ok(pre: Self, a: Action, post: Self, r: Option<Action>) -> bool {
        &&& post.rows == pre.rows
        &&& post.stats.stats == pre.stats.stats
        &&& post.stats.free_space == pre.stats.free_space
        &&& if pre.statistics_popup is Some {
            &&& post.table == pre.table
            &&& post.rows_len == pre.rows_len
            &&& if a is Confirm {
                post.statistics_popup is None && r == Some(Action::Render)
            } else {
                post.statistics_popup == pre.statistics_popup && r is None
            }
        } else {
            match a {
                Action::Up => {
                    &&& post.table.selected == up_sel(pre.table.selected, post.rows_len)
                    &&& selection_in_range(post.table.selected, post.rows_len)
                    &&& post.statistics_popup is None
                    &&& r == Some(Action::Render)
                },
                Action::Down => {
                    &&& post.table.selected == down_sel(pre.table.selected, post.rows_len)
                    &&& selection_in_range(post.table.selected, post.rows_len)
                    &&& post.statistics_popup is None
                    &&& r == Some(Action::Render)
                },
                Action::ShowStats => {
                    &&& post.table == pre.table
                    &&& post.rows_len == pre.rows_len
                    &&& match post.statistics_popup {
                        Some(_) => r == Some(Action::Render),
                        None => r is None,
                    }
                },
                _ => {
                    &&& post.table == pre.table
                    &&& post.rows_len == pre.rows_len
                    &&& post.statistics_popup is None
                    &&& r == Some(a)
                },
            }
        }
    }

    /// Routes one action through this tab, per `step_ok`.
    pub fn handle_actions(&mut self, action: Action) -> (r: Option<Action>)
        ensures
            Self::step_ok(*old(self), action, *final(self), r),
    {
        if let Some(popup) = &mut self.statistics_popup {
            let pr = popup.handle_actions(action);
            if let Some(Action::Quit) = pr {
                self.statistics_popup = None;
                return Some(Action::Render);
            }
            return None;
        }
        match action {
            Action::Up => {
                let n: usize = self.current_rows_len();
                self.rows_len = n;
                self.table.previous(n);
                Some(Action::Render)
            },
            Action::Down => {
                let n: usize = self.current_rows_len();
                self.rows_len = n;
                self.table.next(n);
                Some(Action::Render)
            },
            Action::ShowStats => {
                match self.stats.stats.read() {
                    Some(stats) => {
                        self.statistics_popup = Some(StatisticsPopup::new(stats));
                        Some(Action::Render)
                    },
                    None => None,
                }
            },
            other => Some(other),
        }
    }
}

} // verus!
