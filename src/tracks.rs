//! Discovery of a file's audio tracks.
//!
//! The measuring run is made for track 0, 1, 2, ... in turn. The first track
//! whose report cannot be read marks the end of the tracks: it is no error,
//! and the measurements found before it are the result.
use crate::status::AudioConstants;
use vstd::prelude::*;

verus! {

/// The measurements found so far, and whether the end has been reached.
pub type ScanState = (Seq<AudioConstants>, bool);

/// The scan state after the report of the next track, `report`, is recorded.
pub open spec fn scan_step(state: ScanState, report: Option<AudioConstants>) -> ScanState {
    if state.1 {
        state
    } else {
        match report {
            Some(c) => (state.0.push(c), false),
            None => (state.0, true),
        }
    }
}

/// The scan state after the reports `reports` of tracks 0, 1, ... are recorded.
pub open spec fn scan_all(reports: Seq<Option<AudioConstants>>) -> ScanState
    decreases reports.len(),
{
    if reports.len() == 0 {
        (Seq::empty(), false)
    } else {
        scan_step(scan_all(reports.drop_last()), reports.last())
    }
}

/// The discovery of audio tracks in progress.
#[derive(Clone, Debug)]
pub struct AudioTrackScan {
    pub constants: Vec<AudioConstants>,
    pub finished: bool,
}

impl AudioTrackScan {
    pub open spec fn state(self) -> ScanState {
        (self.constants@, self.finished)
    }

    /// A scan that has found nothing yet.
    pub fn new() -> (r: AudioTrackScan)
        ensures
            r.state() == scan_all(Seq::empty()),
    {
        AudioTrackScan { constants: Vec::new(), finished: false }
    }

    /// The index of the track to measure next.
    pub fn next_index(&self) -> (r: usize)
        ensures
            r == self.constants@.len(),
    {
        self.constants.len()
    }

    /// Records the report of track `next_index()`: the measurements when it
    /// could be read, `None` when it could not. Returns whether to go on.
    pub fn record(&mut self, report: Option<AudioConstants>) -> (more: bool)
        ensures
            final(self).state() == scan_step(old(self).state(), report),
            more == !final(self).finished,
    {
        if !self.finished {
            match report {
                Some(c) => self.constants.push(c),
                None => self.finished = true,
            }
        }
        !self.finished
    }
}

/// Track discovery stops at the first report that cannot be read: when the
/// reports of tracks `0 .. n` are read and that of track `n` is not, the scan
/// has ended with exactly the measurements of tracks `0 .. n` (none when
/// `n == 0`), and reports after it change nothing.
pub proof fn lemma_scan_stops_at_first_miss(reports: Seq<Option<AudioConstants>>, n: int)
    requires
        0 <= n < reports.len(),
        reports[n] is None,
        forall|i: int| 0 <= i < n ==> #[trigger] reports[i] is Some,
    ensures
        scan_all(reports).1,
        scan_all(reports).0 == reports.take(n).map_values(|r: Option<AudioConstants>| r->0),
        scan_all(reports) == scan_all(reports.take(n + 1)),
{
    lemma_scan_prefix(reports, n);
    assert(reports.take(n + 1).drop_last() == reports.take(n));
    assert(reports.take(n + 1).last() == reports[n]);
    lemma_scan_after_end(reports, n + 1);
}

/// While every report is read, the scan goes on with all of them.
proof fn lemma_scan_prefix(reports: Seq<Option<AudioConstants>>, n: int)
    requires
        0 <= n <= reports.len(),
        forall|i: int| 0 <= i < n ==> #[trigger] reports[i] is Some,
    ensures
        scan_all(reports.take(n)) == (
            reports.take(n).map_values(|r: Option<AudioConstants>| r->0),
            false,
        ),
    decreases n,
{
    if n > 0 {
        lemma_scan_prefix(reports, n - 1);
        assert(reports.take(n).drop_last() == reports.take(n - 1));
        assert(reports.take(n).map_values(|r: Option<AudioConstants>| r->0) =~= reports.take(
            n - 1,
        ).map_values(|r: Option<AudioConstants>| r->0).push(reports[n - 1]->0));
    }
}

/// Once the scan has ended, later reports leave it as it is.
proof fn lemma_scan_after_end(reports: Seq<Option<AudioConstants>>, m: int)
    requires
        1 <= m <= reports.len(),
        scan_all(reports.take(m)).1,
    ensures
        scan_all(reports) == scan_all(reports.take(m)),
    decreases reports.len(),
{
    if m < reports.len() {
        let prefix = reports.drop_last();
        assert(prefix.take(m) == reports.take(m));
        lemma_scan_after_end(prefix, m);
    } else {
        assert(reports.take(m) == reports);
    }
}

} // verus!
