use openai_gateway::image::{backend_failure_update, completed_update, upload_failure_update};
use openai_gateway::job::{ImageJob, ImageJobStatus, JobUpdate, JobUpdateError};
use openai_gateway::rendezvous::ImageTaskResult;

fn fresh() -> ImageJob {
    ImageJob::new_processing(
        1,
        100,
        "a cat".to_string(),
        "black-forest-labs/flux-1.1-pro".to_string(),
        "1024x1024".to_string(),
        None,
        None,
    )
}

fn result() -> ImageTaskResult {
    ImageTaskResult { urls: vec!["https://cdn/x.png".to_string()], ipfs_urls: vec!["cid://QmX".to_string()] }
}

#[test]
fn completion_records_both_url_lists() {
    let mut job = fresh();
    assert_eq!(job.apply_update(completed_update(&result()), 200), Ok(()));
    assert_eq!(job.status, ImageJobStatus::Completed);
    assert_eq!(job.urls, Some(vec!["https://cdn/x.png".to_string()]));
    assert_eq!(job.ipfs_urls, Some(vec!["cid://QmX".to_string()]));
    assert!(job.error.is_none());
    assert_eq!(job.updated_at, 200);
    assert!(job.is_consistent());
}

#[test]
fn failure_records_the_error() {
    let mut job = fresh();
    let u = backend_failure_update("connection refused".to_string());
    assert_eq!(job.apply_update(u, 150), Ok(()));
    assert_eq!(job.status, ImageJobStatus::Failed);
    assert_eq!(job.error.as_deref(), Some("connection refused"));
    assert!(job.urls.is_none());
}

#[test]
fn upload_failure_fails_the_job() {
    let mut job = fresh();
    assert_eq!(job.apply_update(upload_failure_update("timeout"), 150), Ok(()));
    assert_eq!(job.status, ImageJobStatus::Failed);
    assert_eq!(job.error.as_deref(), Some("content upload failed: timeout"));
}

#[test]
fn terminal_rows_do_not_change() {
    let mut job = fresh();
    assert_eq!(job.apply_update(completed_update(&result()), 200), Ok(()));
    let again = JobUpdate { status: ImageJobStatus::Failed, urls: None, ipfs_urls: None, error: Some("late".to_string()) };
    assert_eq!(job.apply_update(again, 300), Err(JobUpdateError::Terminal));
    assert_eq!(job.status, ImageJobStatus::Completed);
    assert_eq!(job.updated_at, 200);
    assert!(job.error.is_none());

    let mut failed = fresh();
    assert_eq!(failed.apply_update(backend_failure_update("boom".to_string()), 150), Ok(()));
    assert_eq!(failed.apply_update(completed_update(&result()), 400), Err(JobUpdateError::Terminal));
    assert_eq!(failed.status, ImageJobStatus::Failed);
    assert!(failed.urls.is_none());
}

#[test]
fn inconsistent_updates_are_refused() {
    let mut job = fresh();
    let empty = JobUpdate { status: ImageJobStatus::Completed, urls: Some(vec![]), ipfs_urls: Some(vec![]), error: None };
    assert_eq!(job.apply_update(empty, 200), Err(JobUpdateError::Inconsistent));
    let misaligned = JobUpdate {
        status: ImageJobStatus::Completed,
        urls: Some(vec!["a".to_string(), "b".to_string()]),
        ipfs_urls: Some(vec!["cid://A".to_string()]),
        error: None,
    };
    assert_eq!(job.apply_update(misaligned, 200), Err(JobUpdateError::Inconsistent));
    let no_error = JobUpdate { status: ImageJobStatus::Failed, urls: None, ipfs_urls: None, error: None };
    assert_eq!(job.apply_update(no_error, 200), Err(JobUpdateError::Inconsistent));
    assert_eq!(job.status, ImageJobStatus::Processing);
    assert_eq!(job.updated_at, 100);
}

#[test]
fn timeout_refresh_keeps_processing_and_never_moves_time_back() {
    let mut job = fresh();
    let touch = JobUpdate { status: ImageJobStatus::Processing, urls: None, ipfs_urls: None, error: None };
    assert_eq!(job.apply_update(touch, 500), Ok(()));
    assert_eq!(job.status, ImageJobStatus::Processing);
    assert_eq!(job.updated_at, 500);
    let touch = JobUpdate { status: ImageJobStatus::Processing, urls: None, ipfs_urls: None, error: None };
    assert_eq!(job.apply_update(touch, 50), Ok(()));
    assert_eq!(job.updated_at, 500);
}

#[test]
fn status_texts() {
    assert_eq!(ImageJobStatus::Pending.as_text(), "pending");
    assert_eq!(ImageJobStatus::Processing.as_text(), "processing");
    assert_eq!(ImageJobStatus::Completed.as_text(), "completed");
    assert_eq!(ImageJobStatus::Failed.as_text(), "failed");
    assert!(ImageJobStatus::Completed.is_terminal());
    assert!(ImageJobStatus::Failed.is_terminal());
    assert!(!ImageJobStatus::Processing.is_terminal());
    assert!(!ImageJobStatus::Pending.is_terminal());
}
