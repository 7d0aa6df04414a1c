//! The durable record of an image job and the rule by which the job store
//! advances it.
//!
//! A row is advanced only through [`ImageJob::apply_update`]: fields absent
//! from an update stay as they were, `updated_at` never goes back, a row that
//! reached a terminal status never changes again, and an update that would
//! leave the row inconsistent is refused.

use vstd::prelude::*;

verus! {

/// The lifecycle status of an image job.
#[derive(Clone, Copy, Debug, PartialEq, Eq, Structural)]
pub enum ImageJobStatus {
    Pending,
    Processing,
    Completed,
    Failed,
}

impl ImageJobStatus {
    /// `Completed` and `Failed` are terminal: no transition leaves them.
    pub open spec fn spec_is_terminal(self) -> bool {
        self == ImageJobStatus::Completed || self == ImageJobStatus::Failed
    }

    #[verifier::when_used_as_spec(spec_is_terminal)]
    pub fn is_terminal(self) -> (r: bool)
        ensures
            r == self.spec_is_terminal(),
    {
        match self {
            ImageJobStatus::Completed | ImageJobStatus::Failed => true,
            _ => false,
        }
    }

    /// The status as the row store spells it.
    pub open spec fn spec_text(self) -> Seq<char> {
        match self {
            ImageJobStatus::Pending => "pending"@,
            ImageJobStatus::Processing => "processing"@,
            ImageJobStatus::Completed => "completed"@,
            ImageJobStatus::Failed => "failed"@,
        }
    }

    /// The status as the row store spells it.
    pub fn as_text(self) -> (r: &'static str)
        ensures
            r@ == self.spec_text(),
    {
        match self {
            ImageJobStatus::Pending => "pending",
            ImageJobStatus::Processing => "processing",
            ImageJobStatus::Completed => "completed",
            ImageJobStatus::Failed => "failed",
        }
    }
}

/// One row of the job store. Timestamps are milliseconds since the Unix epoch;
/// `id` is the 128-bit job identifier.
#[derive(Debug)]
pub struct ImageJob {
    pub id: u128,
    pub created_at: i64,
    pub updated_at: i64,
    pub status: ImageJobStatus,
    pub prompt: String,
    pub model: String,
    pub size: String,
    pub urls: Option<Vec<String>>,
    pub ipfs_urls: Option<Vec<String>>,
    pub user_id: Option<String>,
    pub callback_url: Option<String>,
    pub error: Option<String>,
}

/// A partial update of a row: `None` fields leave the row's value in place.
#[derive(Debug)]
pub struct JobUpdate {
    pub status: ImageJobStatus,
    pub urls: Option<Vec<String>>,
    pub ipfs_urls: Option<Vec<String>>,
    pub error: Option<String>,
}

/// Why the store refused an update. The row is unchanged in either case.
#[derive(Clone, Copy, Debug, PartialEq, Eq, Structural)]
pub enum JobUpdateError {
    /// The row is `Completed` or `Failed` already.
    Terminal,
    /// The updated row would break the row invariants.
    Inconsistent,
}

/// Number of entries of an optional list (zero when absent).
pub open spec fn opt_len(v: Option<Vec<String>>) -> nat {
    match v {
        Some(v) => v@.len(),
        None => 0,
    }
}

/// The row invariants of the job store.
pub open spec fn consistent(job: ImageJob) -> bool {
    &&& (job.urls is Some && job.ipfs_urls is Some) ==> opt_len(job.urls) == opt_len(job.ipfs_urls)
    &&& job.status == ImageJobStatus::Completed ==> {
        &&& job.urls is Some
        &&& job.ipfs_urls is Some
        &&& opt_len(job.urls) > 0
        &&& job.error is None
    }
    &&& job.status == ImageJobStatus::Failed ==> job.error is Some && job.urls is None
    &&& job.created_at <= job.updated_at
}

/// The row that `upd` would produce at time `now`, before any check.
pub open spec fn merged(job: ImageJob, upd: JobUpdate, now: i64) -> ImageJob {
    ImageJob {
        updated_at: if now > job.updated_at { now } else { job.updated_at },
        status: upd.status,
        urls: if upd.urls is Some { upd.urls } else { job.urls },
        ipfs_urls: if upd.ipfs_urls is Some { upd.ipfs_urls } else { job.ipfs_urls },
        error: if upd.error is Some { upd.error } else { job.error },
        ..job
    }
}

/// The row after the store handles `upd` at time `now`.
pub open spec fn updated(job: ImageJob, upd: JobUpdate, now: i64) -> ImageJob {
    if job.status.spec_is_terminal() {
        job
    } else if consistent(merged(job, upd, now)) {
        merged(job, upd, now)
    } else {
        job
    }
}

/// The row after a sequence of updates, each with its time.
pub open spec fn updated_all(job: ImageJob, ups: Seq<(JobUpdate, i64)>) -> ImageJob
    decreases ups.len(),
{
    if ups.len() == 0 {
        job
    } else {
        updated_all(updated(job, ups[0].0, ups[0].1), ups.drop_first())
    }
}

fn opt_list_len(v: &Option<Vec<String>>) -> (r: usize)
    ensures
        r == opt_len(*v),
{
    match v {
        Some(v) => v.len(),
        None => 0,
    }
}

impl ImageJob {
    /// A fresh row for an accepted request: status `Processing`, no results.
    pub fn new_processing(
        id: u128,
        now: i64,
        prompt: String,
        model: String,
        size: String,
        user_id: Option<String>,
        callback_url: Option<String>,
    ) -> (r: ImageJob)
        ensures
            r == (ImageJob {
                id,
                created_at: now,
                updated_at: now,
                status: ImageJobStatus::Processing,
                prompt,
                model,
                size,
                urls: None,
                ipfs_urls: None,
                user_id,
                callback_url,
                error: None,
            }),
            consistent(r),
    {
        ImageJob {
            id,
            created_at: now,
            updated_at: now,
            status: ImageJobStatus::Processing,
            prompt,
            model,
            size,
            urls: None,
            ipfs_urls: None,
            user_id,
            callback_url,
            error: None,
        }
    }

    /// Whether the row satisfies the store's row invariants.
    pub fn is_consistent(&self) -> (r: bool)
        ensures
            r == consistent(*self),
    {
        let n = opt_list_len(&self.urls);
        let m = opt_list_len(&self.ipfs_urls);
        let aligned = !(self.urls.is_some() && self.ipfs_urls.is_some()) || n == m;
        let completed_ok = self.status != ImageJobStatus::Completed || (self.urls.is_some()
            && self.ipfs_urls.is_some() && n > 0 && self.error.is_none());
        let failed_ok = self.status != ImageJobStatus::Failed || (self.error.is_some()
            && self.urls.is_none());
        aligned && completed_ok && failed_ok && self.created_at <= self.updated_at
    }

    /// Applies a partial update at time `now`.
    ///
    /// A terminal row is left as it is (`Terminal`); an update whose result
    /// would break the row invariants is refused (`Inconsistent`); otherwise
    /// the given fields replace the row's and `updated_at` moves to `now`
    /// unless it is later already.
    pub fn apply_update(&mut self, upd: JobUpdate, now: i64) -> (r: Result<(), JobUpdateError>)
        ensures
            *final(self) == updated(*old(self), upd, now),
            r == Err::<(), JobUpdateError>(JobUpdateError::Terminal) <==> old(
                self,
            ).status.spec_is_terminal(),
            r == Err::<(), JobUpdateError>(JobUpdateError::Inconsistent) <==> (!old(
                self,
            ).status.spec_is_terminal() && !consistent(merged(*old(self), upd, now))),
            r is Ok <==> (!old(self).status.spec_is_terminal() && consistent(
                merged(*old(self), upd, now),
            )),
    {
        if self.status.is_terminal() {
            return Err(JobUpdateError::Terminal);
        }
        if !self.merge_is_consistent(&upd, now) {
            return Err(JobUpdateError::Inconsistent);
        }
        let JobUpdate { status, urls, ipfs_urls, error } = upd;
        if now > self.updated_at {
            self.updated_at = now;
        }
        self.status = status;
        if urls.is_some() {
            self.urls = urls;
        }
        if ipfs_urls.is_some() {
            self.ipfs_urls = ipfs_urls;
        }
        if error.is_some() {
            self.error = error;
        }
        Ok(())
    }

    /// Whether `upd` at time `now` would leave this row consistent.
    fn merge_is_consistent(&self, upd: &JobUpdate, now: i64) -> (r: bool)
        ensures
            r == consistent(merged(*self, *upd, now)),
    {
        let urls_some = upd.urls.is_some() || self.urls.is_some();
        let ipfs_some = upd.ipfs_urls.is_some() || self.ipfs_urls.is_some();
        let error_some = upd.error.is_some() || self.error.is_some();
        let n = if upd.urls.is_some() {
            opt_list_len(&upd.urls)
        } else {
            opt_list_len(&self.urls)
        };
        let m = if upd.ipfs_urls.is_some() {
            opt_list_len(&upd.ipfs_urls)
        } else {
            opt_list_len(&self.ipfs_urls)
        };
        let updated_at = if now > self.updated_at {
            now
        } else {
            self.updated_at
        };
        let aligned = !(urls_some && ipfs_some) || n == m;
        let completed_ok = upd.status != ImageJobStatus::Completed || (urls_some && ipfs_some && n
            > 0 && !error_some);
        let failed_ok = upd.status != ImageJobStatus::Failed || (error_some && !urls_some);
        aligned && completed_ok && failed_ok && self.created_at <= updated_at
    }
}

/// The store keeps its row invariants: a consistent row stays consistent
/// through any sequence of updates.
pub proof fn lemma_updates_keep_consistency(job: ImageJob, ups: Seq<(JobUpdate, i64)>)
    requires
        consistent(job),
    ensures
        consistent(updated_all(job, ups)),
    decreases ups.len(),
{
    if ups.len() > 0 {
        lemma_updates_keep_consistency(updated(job, ups[0].0, ups[0].1), ups.drop_first());
    }
}

/// Every completed job, whatever updates led to it, has as many result URLs as
/// content-addressed URLs, at least one of each, and no error.
pub proof fn lemma_completed_job_has_results(job: ImageJob, ups: Seq<(JobUpdate, i64)>)
    requires
        consistent(job),
        updated_all(job, ups).status == ImageJobStatus::Completed,
    ensures
        ({
            let j = updated_all(job, ups);
            &&& j.urls is Some
            &&& j.ipfs_urls is Some
            &&& opt_len(j.urls) == opt_len(j.ipfs_urls)
            &&& opt_len(j.urls) > 0
            &&& j.error is None
        }),
{
    lemma_updates_keep_consistency(job, ups);
}

/// Every failed job, whatever updates led to it, carries an error and no
/// result URLs.
pub proof fn lemma_failed_job_has_error(job: ImageJob, ups: Seq<(JobUpdate, i64)>)
    requires
        consistent(job),
        updated_all(job, ups).status == ImageJobStatus::Failed,
    ensures
        updated_all(job, ups).error is Some,
        updated_all(job, ups).urls is None,
{
    lemma_updates_keep_consistency(job, ups);
}

/// Applying two sequences of updates in turn is applying their concatenation.
pub proof fn lemma_updated_all_concat(
    job: ImageJob,
    a: Seq<(JobUpdate, i64)>,
    b: Seq<(JobUpdate, i64)>,
)
    ensures
        updated_all(job, a + b) == updated_all(updated_all(job, a), b),
    decreases a.len(),
{
    if a.len() > 0 {
        assert((a + b).drop_first() == a.drop_first() + b);
        assert((a + b)[0] == a[0]);
        lemma_updated_all_concat(updated(job, a[0].0, a[0].1), a.drop_first(), b);
    }
}

/// A terminal row is never changed again, by any sequence of updates.
pub proof fn lemma_terminal_row_is_final(job: ImageJob, ups: Seq<(JobUpdate, i64)>)
    requires
        job.status.spec_is_terminal(),
    ensures
        updated_all(job, ups) == job,
    decreases ups.len(),
{
    if ups.len() > 0 {
        lemma_terminal_row_is_final(job, ups.drop_first());
    }
}

/// Terminal stickiness: once some prefix of updates has brought a job to
/// `Completed` or `Failed`, later updates do not change its status.
pub proof fn lemma_terminal_status_is_sticky(
    job: ImageJob,
    first: Seq<(JobUpdate, i64)>,
    later: Seq<(JobUpdate, i64)>,
)
    requires
        updated_all(job, first).status.spec_is_terminal(),
    ensures
        updated_all(job, first + later).status == updated_all(job, first).status,
{
    lemma_updated_all_concat(job, first, later);
    lemma_terminal_row_is_final(updated_all(job, first), later);
}

} // verus!
