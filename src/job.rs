//! The state of one acquisition job as its observer sees it: phase, status
//! text and progress, and the decisions of the segment-fetch loop.
use vstd::prelude::*;
use crate::decimal::{decimal, decimal_of};

verus! {

/// A fraction `done / total` of the work.
#[derive(Debug, Clone, Copy, PartialEq, Eq, Structural)]
pub struct Progress {
    pub done: usize,
    pub total: usize,
}

impl Progress {
    pub open spec fn wf(self) -> bool {
        self.total > 0 && self.done <= self.total
    }

    /// The whole of the work is done.
    pub open spec fn is_complete(self) -> bool {
        self.done == self.total
    }

    /// `self` is at most `other`, as fractions.
    pub open spec fn le(self, other: Progress) -> bool {
        self.done * other.total <= other.done * self.total
    }
}

/// Progress read at successive steps never goes down: the order of
/// fractions is transitive, so each step's `le` chains over a whole run.
pub proof fn lemma_progress_monotone(a: Progress, b: Progress, c: Progress)
    requires
        a.wf(),
        b.wf(),
        c.wf(),
        a.le(b),
        b.le(c),
    ensures
        a.le(c),
{
    let (ad, at, bd, bt, cd, ct) = (a.done as int, a.total as int, b.done as int, b.total as int, c.done as int, c.total as int);
    assert(ad * bt * ct <= bd * at * ct) by (nonlinear_arith)
        requires ad * bt <= bd * at, ct > 0;
    assert(bd * ct * at <= cd * bt * at) by (nonlinear_arith)
        requires bd * ct <= cd * bt, at > 0;
    assert(ad * ct * bt <= cd * at * bt) by (nonlinear_arith)
        requires ad * bt * ct <= bd * at * ct, bd * ct * at <= cd * bt * at;
    assert(ad * ct <= cd * at) by (nonlinear_arith)
        requires ad * ct * bt <= cd * at * bt, bt > 0;
}

/// Where a job stands. Phases only move forward.
#[derive(Debug, Clone, Copy, PartialEq, Eq, Structural)]
pub enum Phase {
    Created,
    ResolvingMetadata,
    ResolvingPlaylist,
    DownloadingSegments,
    Converting,
    Succeeded,
    Aborted,
    Failed,
}

/// What the fetch loop does next.
#[derive(Debug, Clone, Copy, PartialEq, Eq, Structural)]
pub enum SegmentStep {
    /// Fetch the segment at this position and append it to the output.
    Fetch(usize),
    /// The abort flag was seen: stop, keeping what was written.
    Stop,
    /// Every segment was written.
    Complete,
}

/// The observable state of one job.
#[derive(Debug, Clone)]
pub struct JobState {
    pub phase: Phase,
    pub status: String,
    pub progress: Progress,
    /// The number of segments to fetch, once known.
    pub segments: usize,
    /// The number of segments written.
    pub fetched: usize,
    /// A segment fetch was handed out and has not been reported back.
    pub in_flight: bool,
}

pub open spec fn terminal(p: Phase) -> bool {
    p == Phase::Succeeded || p == Phase::Aborted || p == Phase::Failed
}

pub open spec fn zero() -> Progress {
    Progress { done: 0, total: 1 }
}

pub open spec fn quoted(prefix: Seq<char>, title: Seq<char>) -> Seq<char> {
    prefix + title + "'"@
}

pub open spec fn segment_status(k: nat, n: nat) -> Seq<char> {
    "Downloading segment "@ + decimal_of(k) + "/"@ + decimal_of(n) + "..."@
}

impl JobState {
    pub open spec fn wf(&self) -> bool {
        &&& self.progress.wf()
        &&& self.fetched <= self.segments
        &&& match self.phase {
            Phase::Created | Phase::ResolvingMetadata | Phase::ResolvingPlaylist => self.progress
                == zero() && !self.in_flight,
            Phase::DownloadingSegments => if self.segments == 0 {
                self.progress == zero() && !self.in_flight
            } else {
                self.progress.total == self.segments && self.progress.done == self.fetched + (
                if self.in_flight {
                    1int
                } else {
                    0int
                }) && (self.in_flight ==> self.fetched < self.segments)
            },
            _ => self.progress.is_complete() && !self.in_flight,
        }
    }

    /// One step of a job: it keeps the job well formed and never lowers its
    /// progress.
    pub open spec fn advances(&self, next: &JobState) -> bool {
        next.wf() && self.progress.le(next.progress)
    }

    /// A fresh job: no status, no progress.
    pub fn new() -> (r: JobState)
        ensures
            r.wf(),
            r.phase == Phase::Created,
            r.status@.len() == 0,
            r.progress == zero(),
    {
        JobState {
            phase: Phase::Created,
            status: String::new(),
            progress: Progress { done: 0, total: 1 },
            segments: 0,
            fetched: 0,
            in_flight: false,
        }
    }

    /// The job begins with its metadata lookup.
    pub fn start(&mut self)
        requires
            old(self).wf(),
            old(self).phase == Phase::Created,
        ensures
            old(self).advances(final(self)),
            final(self).phase == Phase::ResolvingMetadata,
            final(self).status@ == "Starting..."@,
    {
        self.phase = Phase::ResolvingMetadata;
        self.status = String::from_str("Starting...");
    }

    /// The metadata was resolved; the master playlist is fetched next.
    pub fn metadata_resolved(&mut self, title: &str)
        requires
            old(self).wf(),
            old(self).phase == Phase::ResolvingMetadata,
        ensures
            old(self).advances(final(self)),
            final(self).phase == Phase::ResolvingPlaylist,
            final(self).status@ == quoted("Fetching playlist for '"@, title@),
    {
        self.phase = Phase::ResolvingPlaylist;
        self.status = String::from_str("Fetching playlist for '").concat(title).concat("'");
    }

    /// The variant playlist was chosen; it is fetched next.
    pub fn variant_selected(&mut self, title: &str)
        requires
            old(self).wf(),
            old(self).phase == Phase::ResolvingPlaylist,
        ensures
            old(self).advances(final(self)),
            final(self).phase == Phase::ResolvingPlaylist,
            final(self).status@ == quoted("Fetching segments for '"@, title@),
    {
        self.status = String::from_str("Fetching segments for '").concat(title).concat("'");
    }

    /// The segment list is known; the fetch loop starts from zero progress.
    pub fn segments_listed(&mut self, n: usize)
        requires
            old(self).wf(),
            old(self).phase == Phase::ResolvingPlaylist,
        ensures
            old(self).advances(final(self)),
            final(self).phase == Phase::DownloadingSegments,
            final(self).segments == n,
            final(self).fetched == 0,
            !final(self).in_flight,
            final(self).progress.done == 0,
            final(self).status@ == "Downloading "@ + decimal_of(n as nat) + " segments..."@,
    {
        self.phase = Phase::DownloadingSegments;
        self.segments = n;
        self.fetched = 0;
        self.progress = Progress { done: 0, total: if n > 0 { n } else { 1 } };
        self.status = String::from_str("Downloading ").concat(decimal(n).as_str()).concat(
            " segments...",
        );
    }

    /// Decides the next step of the fetch loop from the abort flag: stop when
    /// it is set, else hand out the next segment, reporting its position and
    /// the progress it will reach, else report that all were written.
    pub fn next_segment(&mut self, aborted: bool) -> (r: SegmentStep)
        requires
            old(self).wf(),
            old(self).phase == Phase::DownloadingSegments,
            !old(self).in_flight,
        ensures
            old(self).advances(final(self)),
            final(self).segments == old(self).segments,
            final(self).fetched == old(self).fetched,
            aborted ==> r == SegmentStep::Stop && final(self).phase == Phase::Aborted
                && final(self).status@ == "Aborted by user."@ && final(self).progress.is_complete(),
            !aborted && old(self).fetched < old(self).segments ==> r == SegmentStep::Fetch(
                old(self).fetched,
            ) && final(self).in_flight && final(self).phase == Phase::DownloadingSegments
                && final(self).progress == (Progress {
                done: (old(self).fetched + 1) as usize,
                total: old(self).segments,
            }) && final(self).status@ == segment_status(
                (old(self).fetched + 1) as nat,
                old(self).segments as nat,
            ),
            !aborted && old(self).fetched == old(self).segments ==> r == SegmentStep::Complete
                && *final(self) == *old(self),
    {
        if aborted {
            self.phase = Phase::Aborted;
            self.status = String::from_str("Aborted by user.");
            self.progress = Progress { done: 1, total: 1 };
            return SegmentStep::Stop;
        }
        if self.fetched < self.segments {
            let k = self.fetched;
            let n = self.segments;
            let ghost before = self.progress;
            self.progress = Progress { done: k + 1, total: n };
            proof {
                if before != zero() {
                    assert(before.done == k && before.total == n);
                    assert(k * n <= (k + 1) * n) by (nonlinear_arith);
                }
            }
            self.status = String::from_str("Downloading segment ").concat(decimal(k + 1).as_str())
                .concat("/").concat(decimal(n).as_str()).concat("...");
            self.in_flight = true;
            return SegmentStep::Fetch(k);
        }
        SegmentStep::Complete
    }

    /// The handed-out segment was appended to the output.
    pub fn segment_written(&mut self)
        requires
            old(self).wf(),
            old(self).phase == Phase::DownloadingSegments,
            old(self).in_flight,
        ensures
            old(self).advances(final(self)),
            final(self).phase == Phase::DownloadingSegments,
            final(self).fetched == old(self).fetched + 1,
            final(self).segments == old(self).segments,
            !final(self).in_flight,
            final(self).status@ == old(self).status@,
    {
        self.fetched = self.fetched + 1;
        self.in_flight = false;
    }

    /// Every segment was written to `path`.
    pub fn download_complete(&mut self, path: &str)
        requires
            old(self).wf(),
            old(self).phase == Phase::DownloadingSegments,
            !old(self).in_flight,
            old(self).fetched == old(self).segments,
        ensures
            old(self).advances(final(self)),
            final(self).phase == Phase::Succeeded,
            final(self).progress.is_complete(),
            final(self).status@ == "Saved to "@ + path@,
    {
        let ghost before = self.progress;
        self.phase = Phase::Succeeded;
        self.progress = Progress { done: 1, total: 1 };
        self.status = String::from_str("Saved to ").concat(path);
    }

    /// A conversion of the finished download to `format` starts.
    pub fn conversion_started(&mut self, format: &str)
        requires
            old(self).wf(),
            old(self).phase == Phase::Succeeded,
        ensures
            old(self).advances(final(self)),
            final(self).phase == Phase::Converting,
            final(self).progress == old(self).progress,
            final(self).status@ == "Converting to "@ + format@ + "..."@,
    {
        self.phase = Phase::Converting;
        self.status = String::from_str("Converting to ").concat(format).concat("...");
    }

    /// The conversion ended: `Ok` with the converted file's path, or `Err`
    /// with the transcoder's reason. Either way the job has succeeded.
    pub fn conversion_finished(&mut self, outcome: Result<&str, &str>)
        requires
            old(self).wf(),
            old(self).phase == Phase::Converting,
        ensures
            old(self).advances(final(self)),
            final(self).phase == Phase::Succeeded,
            final(self).progress == old(self).progress,
            match outcome {
                Ok(p) => final(self).status@ == "Saved to "@ + p@,
                Err(e) => final(self).status@ == "Conversion failed: "@ + e@,
            },
    {
        self.phase = Phase::Succeeded;
        match outcome {
            Ok(p) => {
                self.status = String::from_str("Saved to ").concat(p);
            },
            Err(e) => {
                self.status = String::from_str("Conversion failed: ").concat(e);
            },
        }
    }

    /// The job failed for `reason`.
    pub fn fail(&mut self, reason: &str)
        requires
            old(self).wf(),
            !terminal(old(self).phase),
        ensures
            old(self).advances(final(self)),
            final(self).phase == Phase::Failed,
            final(self).progress.is_complete(),
            final(self).status@ == "Error: "@ + reason@,
    {
        self.phase = Phase::Failed;
        self.in_flight = false;
        self.progress = Progress { done: 1, total: 1 };
        self.status = String::from_str("Error: ").concat(reason);
    }

    /// A batch item that the abort flag reached before it started.
    pub fn skip_aborted(&mut self)
        requires
            old(self).wf(),
            old(self).phase == Phase::Created,
        ensures
            old(self).advances(final(self)),
            final(self).phase == Phase::Aborted,
            final(self).progress.is_complete(),
            final(self).status@ == "Aborted by user."@,
    {
        self.phase = Phase::Aborted;
        self.progress = Progress { done: 1, total: 1 };
        self.status = String::from_str("Aborted by user.");
    }

    /// The observer's "finished" signal: progress is whole.
    pub fn is_finished(&self) -> (r: bool)
        requires
            self.wf(),
        ensures
            r == self.progress.is_complete(),
            terminal(self.phase) ==> r,
    {
        self.progress.done == self.progress.total
    }
}

} // verus!
