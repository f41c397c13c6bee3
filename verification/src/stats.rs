use vstd::prelude::*;
use crate::action::Action;

verus! {

/// Lifetime totals reported by the daemon, in bytes.
#[derive(Clone, Copy, Debug, PartialEq, Eq)]
pub struct CumulativeStats {
    pub uploaded_bytes: i64,
    pub downloaded_bytes: i64,
}

/// The aggregate counters one stats fetch returns, as plain values.
#[derive(Clone, Copy, Debug, PartialEq, Eq)]
pub struct Stats {
    pub upload_speed: i64,
    pub download_speed: i64,
    pub torrent_count: i64,
    pub cumulative_stats: CumulativeStats,
}

impl Stats {
    /// The daemon reports byte counts and totals; all are non-negative.
    pub open spec fn wf(self) -> bool {
        self.upload_speed >= 0 && self.download_speed >= 0 && self.torrent_count >= 0
            && self.cumulative_stats.uploaded_bytes >= 0
            && self.cumulative_stats.downloaded_bytes >= 0
    }
}

/// Free space on the daemon's download directory, in bytes.
#[derive(Clone, Copy, Debug, PartialEq, Eq)]
pub struct FreeSpace {
    pub size_bytes: i64,
}

/// A share ratio: the quotient of uploaded over downloaded bytes, or the
/// explicit sentinel when nothing was downloaded yet and the quotient is
/// undefined.
#[derive(Clone, Copy, Debug, PartialEq, Eq)]
pub enum Ratio {
    Undefined,
    Value(i64),
}

/// The ratio of the two byte totals: undefined on a zero denominator,
/// the integer quotient otherwise.
pub open spec fn ratio_spec(uploaded: i64, downloaded: i64) -> Ratio {
    if downloaded == 0 {
        Ratio::Undefined
    } else {
        Ratio::Value((uploaded as int / downloaded as int) as i64)
    }
}

/// Computes the share ratio; a zero denominator yields the sentinel,
/// never an arithmetic fault.
pub fn ratio_of(uploaded: i64, downloaded: i64) -> (r: Ratio)
    requires
        uploaded >= 0,
        downloaded >= 0,
    ensures
        r == ratio_spec(uploaded, downloaded),
{
    if downloaded == 0 {
        Ratio::Undefined
    } else {
        Ratio::Value(uploaded / downloaded)
    }
}

/// The overlay showing one complete stats snapshot.  It is exclusive
/// while present: Confirm asks the tier above to close it, every other
/// action is consumed.
#[derive(Clone, Copy, Debug, PartialEq, Eq)]
pub struct StatisticsPopup {
    pub stats: Stats,
}

impl StatisticsPopup {
    pub fn new(stats: Stats) -> (r: Self)
        ensures
            r == (StatisticsPopup { stats }),
    {
        StatisticsPopup { stats }
    }

    /// Routes one action to the popup: Confirm yields Quit, the request
    /// to the owning tab to remove the popup; everything else is
    /// consumed without effect.  Total over Action.
    pub fn handle_actions(&mut self, action: Action) -> (r: Option<Action>)
        ensures
            *final(self) == *old(self),
            r == (if action is Confirm {
                Some(Action::Quit)
            } else {
                None::<Action>
            }),
    {
        match action {
            Action::Confirm => Some(Action::Quit),
            _ => None,
        }
    }

    /// The share ratio of the snapshot shown.
    pub fn ratio(&self) -> (r: Ratio)
        requires
            self.stats.wf(),
        ensures
            r == ratio_spec(
                self.stats.cumulative_stats.uploaded_bytes,
                self.stats.cumulative_stats.downloaded_bytes,
            ),
    {
        ratio_of(
            self.stats.cumulative_stats.uploaded_bytes,
            self.stats.cumulative_stats.downloaded_bytes,
        )
    }
}

} // verus!
