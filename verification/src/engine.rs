//! Download-batch bookkeeping.  The engine schedules one batch of jobs
//! under a concurrency cap; for each job it decides whether to transfer
//! at all (the existence short-circuit), turns the transfer's outcome
//! into the job's result, and hands exactly the successful transfers to
//! the tagger.  A failed job never cancels its siblings; the batch result
//! reports every job on its own.

use vstd::prelude::*;
use vstd::string::StringExecFns;

use crate::catalog::TrackInfo;
use crate::manifest::ResolvedStream;
use crate::manifest::spec_file_name;
use crate::manifest::track_file_name;
use crate::tagger::TagError;

verus! {

/// Failures of one download job.
#[derive(Debug, Clone, Copy, PartialEq, Eq, Structural)]
pub enum DownloadError {
    NoContentLength,
    TransferFailed,
}

/// One scheduled unit: a descriptor, its resolved stream, and the file
/// the payload is written to.
#[derive(Debug, Clone)]
pub struct DownloadJob {
    pub track: TrackInfo,
    pub stream: ResolvedStream,
    pub dest_path: String,
}

/// The full destination path of a track under its batch directory.
pub fn job_file_path(dest_dir: &str, t: &TrackInfo) -> (r: String)
    ensures
        r@ == dest_dir@ + "/"@ + spec_file_name(*t),
{
    let mut out = String::from_str(dest_dir);
    out.append("/");
    let name = track_file_name(t);
    out.append(name.as_str());
    out
}

/// Builds the job of one resolved track.
pub fn make_job(track: TrackInfo, stream: ResolvedStream, dest_dir: &str) -> (r: DownloadJob)
    ensures
        r.track == track,
        r.stream == stream,
        r.dest_path@ == dest_dir@ + "/"@ + spec_file_name(track),
{
    let dest_path = job_file_path(dest_dir, &track);
    DownloadJob { track, stream, dest_path }
}

/// How many jobs of a batch may run at once: the configured cap, but
/// never more than the batch holds.
pub fn effective_concurrency(batch_size: usize, cap: usize) -> (r: usize)
    ensures
        r == (if batch_size <= cap {
            batch_size as int
        } else {
            cap as int
        }),
        r <= batch_size,
        r <= cap,
        (batch_size > 0 && cap > 0) ==> r > 0,
{
    if batch_size <= cap {
        batch_size
    } else {
        cap
    }
}

/// Whether a job transfers at all: the existence short-circuit skips a
/// job exactly when skipping is requested and the file is already there.
pub fn should_transfer(skip_if_exists: bool, file_exists: bool) -> (r: bool)
    ensures
        r == !(skip_if_exists && file_exists),
{
    !(skip_if_exists && file_exists)
}

/// The next progress position after a chunk of a transfer arrived: the
/// received total, clamped to the declared length.
pub fn next_progress(downloaded: u64, chunk: u64, total: u64) -> (r: u64)
    requires
        downloaded <= total,
    ensures
        r as int == (if downloaded + chunk <= total {
            downloaded + chunk
        } else {
            total as int
        }),
        downloaded <= r <= total,
{
    if chunk <= total - downloaded {
        downloaded + chunk
    } else {
        total
    }
}

/// How one attempted transfer ended.
#[derive(Debug, Clone, Copy, PartialEq, Eq, Structural)]
pub enum TransferOutcome {
    /// Every byte was received and written in order.
    Delivered,
    /// The response declared no content length, so no progress could be
    /// shown; the job fails before any byte is written.
    NoLength,
    /// The connection or a write failed mid-transfer.
    Failed,
}

/// What the application observed for one job: whether the destination
/// file already existed, how the transfer ended, and — where tagging ran
/// — whether it failed.
#[derive(Debug, Clone, Copy, PartialEq, Eq, Structural)]
pub struct JobEvents {
    pub file_exists: bool,
    pub transfer: TransferOutcome,
    pub tag_failure: Option<TagError>,
}

/// The result of one job: skipped without a transfer, failed, or
/// completed — where a tagging failure is recorded beside the otherwise
/// successful transfer, never turned into a download failure.
#[derive(Debug, Clone, Copy, PartialEq, Eq, Structural)]
pub enum JobOutcome {
    Skipped,
    Failed(DownloadError),
    Completed { tag_failure: Option<TagError> },
}

/// How one job settles, from its events alone.
pub open spec fn spec_settle_job(skip_if_exists: bool, ev: JobEvents) -> JobOutcome {
    if skip_if_exists && ev.file_exists {
        JobOutcome::Skipped
    } else {
        match ev.transfer {
            TransferOutcome::NoLength => JobOutcome::Failed(DownloadError::NoContentLength),
            TransferOutcome::Failed => JobOutcome::Failed(DownloadError::TransferFailed),
            TransferOutcome::Delivered => JobOutcome::Completed { tag_failure: ev.tag_failure },
        }
    }
}

/// The tagger runs for a job exactly when the job transferred and the
/// transfer delivered.
pub open spec fn spec_invokes_tagger(skip_if_exists: bool, ev: JobEvents) -> bool {
    !(skip_if_exists && ev.file_exists) && ev.transfer is Delivered
}

/// Settles one job from its events.
pub fn settle_job(skip_if_exists: bool, ev: &JobEvents) -> (r: JobOutcome)
    ensures
        r == spec_settle_job(skip_if_exists, *ev),
        r is Completed <==> spec_invokes_tagger(skip_if_exists, *ev),
{
    if skip_if_exists && ev.file_exists {
        JobOutcome::Skipped
    } else {
        match ev.transfer {
            TransferOutcome::NoLength => JobOutcome::Failed(DownloadError::NoContentLength),
            TransferOutcome::Failed => JobOutcome::Failed(DownloadError::TransferFailed),
            TransferOutcome::Delivered => JobOutcome::Completed { tag_failure: ev.tag_failure },
        }
    }
}

/// The number of completed jobs — each of which invoked the tagger —
/// in a batch result.
pub open spec fn count_completed(rs: Seq<JobOutcome>) -> int
    decreases rs.len(),
{
    if rs.len() == 0 {
        0
    } else {
        count_completed(rs.drop_last()) + (if rs.last() is Completed {
            1int
        } else {
            0int
        })
    }
}

/// The number of failed jobs in a batch result.
pub open spec fn count_failed(rs: Seq<JobOutcome>) -> int
    decreases rs.len(),
{
    if rs.len() == 0 {
        0
    } else {
        count_failed(rs.drop_last()) + (if rs.last() is Failed {
            1int
        } else {
            0int
        })
    }
}

/// The number of skipped jobs in a batch result.
pub open spec fn count_skipped(rs: Seq<JobOutcome>) -> int
    decreases rs.len(),
{
    if rs.len() == 0 {
        0
    } else {
        count_skipped(rs.drop_last()) + (if rs.last() is Skipped {
            1int
        } else {
            0int
        })
    }
}

/// Law: every job of a batch settles as exactly one of completed, failed
/// or skipped, so each failure is attributable to exactly one job and no
/// job is passed over in silence.
pub proof fn lemma_batch_accounting(rs: Seq<JobOutcome>)
    ensures
        count_completed(rs) + count_failed(rs) + count_skipped(rs) == rs.len(),
    decreases rs.len(),
{
    if rs.len() > 0 {
        lemma_batch_accounting(rs.drop_last());
    }
}

/// The number of successful transfers a batch's events hold.
pub open spec fn count_delivered(skip_if_exists: bool, evs: Seq<JobEvents>) -> int
    decreases evs.len(),
{
    if evs.len() == 0 {
        0
    } else {
        count_delivered(skip_if_exists, evs.drop_last()) + (if spec_invokes_tagger(
            skip_if_exists,
            evs.last(),
        ) {
            1int
        } else {
            0int
        })
    }
}

/// Settles a whole batch, one result per job, in order.  No job's failure
/// touches any other job.
pub fn run_batch(skip_if_exists: bool, events: &Vec<JobEvents>) -> (r: Vec<JobOutcome>)
    ensures
        r@.len() == events@.len(),
        forall|i: int|
            0 <= i < events@.len() ==> r@[i] == spec_settle_job(skip_if_exists, events@[i]),
{
    let mut out: Vec<JobOutcome> = Vec::new();
    let mut i: usize = 0;
    while i < events.len()
        invariant
            i <= events@.len(),
            out@.len() == i,
            forall|k: int|
                0 <= k < i ==> out@[k] == spec_settle_job(skip_if_exists, events@[k]),
        decreases events@.len() - i,
    {
        let o = settle_job(skip_if_exists, &events[i]);
        out.push(o);
        i = i + 1;
    }
    out
}

/// Law: over a whole batch, the tagger is invoked exactly once per
/// successful transfer — skipped and failed jobs are excluded — since a
/// job completes exactly when its transfer was attempted and delivered.
pub proof fn lemma_tagger_count(skip_if_exists: bool, evs: Seq<JobEvents>, rs: Seq<JobOutcome>)
    requires
        rs.len() == evs.len(),
        forall|i: int| 0 <= i < evs.len() ==> rs[i] == spec_settle_job(skip_if_exists, evs[i]),
    ensures
        count_completed(rs) == count_delivered(skip_if_exists, evs),
    decreases evs.len(),
{
    if evs.len() > 0 {
        assert(forall|i: int|
            0 <= i < evs.drop_last().len() ==> rs.drop_last()[i] == spec_settle_job(
                skip_if_exists,
                evs.drop_last()[i],
            ));
        lemma_tagger_count(skip_if_exists, evs.drop_last(), rs.drop_last());
        assert(rs.last() == spec_settle_job(skip_if_exists, evs.last()));
    }
}

} // verus!
