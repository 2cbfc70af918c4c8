use ftp_suite::transfers::{Direction, JobState, TransferError, TransferJob, TransferManager};

#[test]
fn upload_lifecycle_scenario() {
    let mut m = TransferManager::new();
    let h = m.register(Direction::Upload, "/x.txt".to_string(), None, 0);
    assert_eq!(m.get(h).unwrap().state, JobState::Pending);
    m.update(h, 0, Some(JobState::InProgress)).unwrap();
    m.update(h, 1024, None).unwrap();
    m.update(h, 0, Some(JobState::Completed)).unwrap();
    let snap = m.snapshot();
    assert_eq!(snap.len(), 1);
    assert_eq!(snap[0].state, JobState::Completed);
    assert_eq!(snap[0].bytes_transferred, 1024);
    assert_eq!(snap[0].path, "/x.txt");
    assert_eq!(snap[0].direction, Direction::Upload);
}

#[test]
fn completed_job_cannot_reopen() {
    let mut m = TransferManager::new();
    let h = m.register(Direction::Download, "/a".to_string(), None, 5);
    m.update(h, 0, Some(JobState::InProgress)).unwrap();
    m.update(h, 10, Some(JobState::Completed)).unwrap();
    assert_eq!(m.update(h, 0, Some(JobState::InProgress)), Err(TransferError::InvalidTransition));
    assert_eq!(m.update(h, 0, Some(JobState::Pending)), Err(TransferError::InvalidTransition));
    assert_eq!(m.update(h, 1, None), Err(TransferError::InvalidTransition));
    let j = m.get(h).unwrap();
    assert_eq!(j.state, JobState::Completed);
    assert_eq!(j.bytes_transferred, 10);
}

#[test]
fn many_registrations_give_distinct_ids() {
    let mut m = TransferManager::new();
    let n: u64 = 50;
    for i in 0..n {
        let h = m.add(TransferJob::new(Direction::Upload, format!("/f{i}"), None, i));
        assert_eq!(h, i);
    }
    let snap = m.snapshot();
    assert_eq!(snap.len() as u64, n);
    let mut ids: Vec<u64> = snap.iter().map(|j| j.id).collect();
    ids.sort();
    ids.dedup();
    assert_eq!(ids.len() as u64, n);
    for (i, j) in snap.iter().enumerate() {
        assert_eq!(j.path, format!("/f{i}"));
    }
}

#[test]
fn unknown_handle_is_refused() {
    let mut m = TransferManager::new();
    assert_eq!(m.update(0, 1, None), Err(TransferError::UnknownJob));
    assert!(m.get(0).is_none());
}

#[test]
fn pending_cannot_complete_directly() {
    let mut m = TransferManager::new();
    let h = m.register(Direction::Upload, "/p".to_string(), None, 0);
    assert_eq!(m.update(h, 0, Some(JobState::Completed)), Err(TransferError::InvalidTransition));
    assert_eq!(m.update(h, 0, Some(JobState::Aborted)), Ok(()));
    assert_eq!(m.update(h, 0, Some(JobState::Failed)), Err(TransferError::InvalidTransition));
}

#[test]
fn byte_counter_overflow_is_refused() {
    let mut m = TransferManager::new();
    let h = m.register(Direction::Download, "/big".to_string(), None, 0);
    m.update(h, u64::MAX - 1, Some(JobState::InProgress)).unwrap();
    assert_eq!(m.update(h, 2, None), Err(TransferError::CounterOverflow));
    assert_eq!(m.get(h).unwrap().bytes_transferred, u64::MAX - 1);
    assert_eq!(m.update(h, 1, None), Ok(()));
    assert_eq!(m.get(h).unwrap().bytes_transferred, u64::MAX);
}

#[test]
fn add_resets_state_and_counter() {
    let mut m = TransferManager::new();
    let mut job = TransferJob::new(Direction::Download, "/r".to_string(), None, 9);
    job.id = 77;
    job.state = JobState::Completed;
    job.bytes_transferred = 5;
    let h = m.add(job);
    let j = m.get(h).unwrap();
    assert_eq!(j.id, 0);
    assert_eq!(j.state, JobState::Pending);
    assert_eq!(j.bytes_transferred, 0);
    assert_eq!(j.started_at, 9);
}

#[test]
fn completion_needs_the_declared_size() {
    let mut m = TransferManager::new();
    let h = m.register(Direction::Download, "/sized".to_string(), Some(100), 0);
    m.update(h, 60, Some(JobState::InProgress)).unwrap();
    assert_eq!(m.update(h, 0, Some(JobState::Completed)), Err(TransferError::InvalidTransition));
    assert_eq!(m.get(h).unwrap().state, JobState::InProgress);
    assert_eq!(m.update(h, 50, Some(JobState::Completed)), Err(TransferError::InvalidTransition));
    assert_eq!(m.update(h, 40, Some(JobState::Completed)), Ok(()));
    let j = m.get(h).unwrap();
    assert_eq!(j.state, JobState::Completed);
    assert_eq!(j.bytes_transferred, 100);
    assert_eq!(j.declared_bytes, Some(100));
}
