use ftp_suite::session::{CloseReason, Session, SessionError, SessionEvent, SessionState, DEFAULT_MAX_FAILURES};
use ftp_suite::transfers::{Direction, JobState, TransferManager};
use ftp_suite::users::UserDb;

fn store() -> UserDb {
    let mut db = UserDb::new();
    db.add_user("alice", "s3cr3t").unwrap();
    db
}

fn login(s: &mut Session, db: &UserDb, jobs: &mut TransferManager, pass: &str) -> Result<(), SessionError> {
    s.step(db, jobs, SessionEvent::User("alice".to_string())).unwrap();
    s.step(db, jobs, SessionEvent::Pass(pass.to_string()))
}

#[test]
fn login_and_upload() {
    let db = store();
    let mut jobs = TransferManager::new();
    let mut s = Session::new(DEFAULT_MAX_FAILURES);
    assert_eq!(login(&mut s, &db, &mut jobs, "s3cr3t"), Ok(()));
    assert_eq!(s.state, SessionState::Authenticated);
    s.step(&db, &mut jobs, SessionEvent::Proceed).unwrap();
    assert_eq!(s.state, SessionState::Ready);
    let t = SessionEvent::Transfer { direction: Direction::Upload, path: "/x.txt".to_string(), declared_bytes: Some(1024), started_at: 1 };
    s.step(&db, &mut jobs, t).unwrap();
    assert_eq!(s.state, SessionState::Transferring);
    assert_eq!(jobs.get(s.job).unwrap().state, JobState::Pending);
    s.step(&db, &mut jobs, SessionEvent::DataOpened).unwrap();
    s.step(&db, &mut jobs, SessionEvent::Data(512)).unwrap();
    assert_eq!(jobs.get(s.job).unwrap().bytes_transferred, 512);
    s.step(&db, &mut jobs, SessionEvent::Data(512)).unwrap();
    s.step(&db, &mut jobs, SessionEvent::Finished).unwrap();
    assert_eq!(s.state, SessionState::Ready);
    let snap = jobs.snapshot();
    assert_eq!(snap.len(), 1);
    assert_eq!(snap[0].state, JobState::Completed);
    assert_eq!(snap[0].bytes_transferred, 1024);
}

#[test]
fn three_failures_close_the_session() {
    let db = store();
    let mut jobs = TransferManager::new();
    let mut s = Session::new(DEFAULT_MAX_FAILURES);
    assert_eq!(login(&mut s, &db, &mut jobs, "a"), Err(SessionError::AuthenticationFailure));
    assert_eq!(s.state, SessionState::Connected);
    assert_eq!(login(&mut s, &db, &mut jobs, "b"), Err(SessionError::AuthenticationFailure));
    assert_eq!(login(&mut s, &db, &mut jobs, "c"), Err(SessionError::AuthenticationExhausted));
    assert_eq!(s.state, SessionState::Closed);
    assert_eq!(s.closed_by, Some(CloseReason::AuthenticationExhausted));
    assert_eq!(s.step(&db, &mut jobs, SessionEvent::User("alice".to_string())), Err(SessionError::ProtocolViolation));
}

#[test]
fn success_resets_failure_count() {
    let db = store();
    let mut jobs = TransferManager::new();
    let mut s = Session::new(2);
    assert_eq!(login(&mut s, &db, &mut jobs, "bad"), Err(SessionError::AuthenticationFailure));
    assert_eq!(s.failures, 1);
    assert_eq!(login(&mut s, &db, &mut jobs, "s3cr3t"), Ok(()));
    assert_eq!(s.failures, 0);
}

#[test]
fn tls_before_login() {
    let db = store();
    let mut jobs = TransferManager::new();
    let mut s = Session::new(DEFAULT_MAX_FAILURES);
    s.step(&db, &mut jobs, SessionEvent::RequestTls).unwrap();
    assert_eq!(s.state, SessionState::TlsNegotiating);
    s.step(&db, &mut jobs, SessionEvent::TlsEstablished).unwrap();
    assert_eq!(s.state, SessionState::Connected);
    assert!(s.tls);
    assert_eq!(s.step(&db, &mut jobs, SessionEvent::RequestTls), Err(SessionError::ProtocolViolation));
    assert_eq!(s.closed_by, Some(CloseReason::ProtocolViolation));
}

#[test]
fn tls_after_login_leads_to_ready() {
    let db = store();
    let mut jobs = TransferManager::new();
    let mut s = Session::new(DEFAULT_MAX_FAILURES);
    login(&mut s, &db, &mut jobs, "s3cr3t").unwrap();
    s.step(&db, &mut jobs, SessionEvent::RequestTls).unwrap();
    s.step(&db, &mut jobs, SessionEvent::TlsEstablished).unwrap();
    assert_eq!(s.state, SessionState::Ready);
}

#[test]
fn handshake_timeout_closes() {
    let db = UserDb::new();
    let mut jobs = TransferManager::new();
    let mut s = Session::new(DEFAULT_MAX_FAILURES);
    s.step(&db, &mut jobs, SessionEvent::RequestTls).unwrap();
    assert_eq!(s.step(&db, &mut jobs, SessionEvent::Timeout), Err(SessionError::Timeout));
    assert_eq!(s.closed_by, Some(CloseReason::Timeout));
}

#[test]
fn transfer_before_login_is_a_violation() {
    let db = UserDb::new();
    let mut jobs = TransferManager::new();
    let mut s = Session::new(DEFAULT_MAX_FAILURES);
    let t = SessionEvent::Transfer { direction: Direction::Download, path: "/y".to_string(), declared_bytes: None, started_at: 0 };
    assert_eq!(s.step(&db, &mut jobs, t), Err(SessionError::ProtocolViolation));
    assert_eq!(s.state, SessionState::Closed);
    assert_eq!(jobs.len(), 0);
}

#[test]
fn io_error_fails_job_and_keeps_session() {
    let db = store();
    let mut jobs = TransferManager::new();
    let mut s = Session::new(DEFAULT_MAX_FAILURES);
    login(&mut s, &db, &mut jobs, "s3cr3t").unwrap();
    s.step(&db, &mut jobs, SessionEvent::Proceed).unwrap();
    let t = SessionEvent::Transfer { direction: Direction::Download, path: "/y".to_string(), declared_bytes: None, started_at: 0 };
    s.step(&db, &mut jobs, t).unwrap();
    s.step(&db, &mut jobs, SessionEvent::DataOpened).unwrap();
    assert_eq!(s.step(&db, &mut jobs, SessionEvent::IoError), Err(SessionError::IoFailure));
    assert_eq!(s.state, SessionState::Ready);
    assert_eq!(jobs.get(0).unwrap().state, JobState::Failed);
    let t2 = SessionEvent::Transfer { direction: Direction::Upload, path: "/z".to_string(), declared_bytes: None, started_at: 0 };
    s.step(&db, &mut jobs, t2).unwrap();
    s.step(&db, &mut jobs, SessionEvent::DataOpened).unwrap();
    s.step(&db, &mut jobs, SessionEvent::Cancel).unwrap();
    assert_eq!(jobs.get(1).unwrap().state, JobState::Aborted);
    assert_eq!(s.state, SessionState::Ready);
}

#[test]
fn quit_during_transfer_aborts_the_job() {
    let db = store();
    let mut jobs = TransferManager::new();
    let mut s = Session::new(DEFAULT_MAX_FAILURES);
    login(&mut s, &db, &mut jobs, "s3cr3t").unwrap();
    s.step(&db, &mut jobs, SessionEvent::Proceed).unwrap();
    let t = SessionEvent::Transfer { direction: Direction::Upload, path: "/q".to_string(), declared_bytes: None, started_at: 0 };
    s.step(&db, &mut jobs, t).unwrap();
    s.step(&db, &mut jobs, SessionEvent::DataOpened).unwrap();
    assert_eq!(s.step(&db, &mut jobs, SessionEvent::Quit), Ok(()));
    assert_eq!(s.closed_by, Some(CloseReason::Quit));
    assert_eq!(jobs.get(0).unwrap().state, JobState::Aborted);
}

#[test]
fn finishing_short_of_the_declared_size_is_a_violation() {
    let db = store();
    let mut jobs = TransferManager::new();
    let mut s = Session::new(DEFAULT_MAX_FAILURES);
    login(&mut s, &db, &mut jobs, "s3cr3t").unwrap();
    s.step(&db, &mut jobs, SessionEvent::Proceed).unwrap();
    let t = SessionEvent::Transfer { direction: Direction::Upload, path: "/s".to_string(), declared_bytes: Some(10), started_at: 0 };
    s.step(&db, &mut jobs, t).unwrap();
    s.step(&db, &mut jobs, SessionEvent::DataOpened).unwrap();
    s.step(&db, &mut jobs, SessionEvent::Data(4)).unwrap();
    assert_eq!(s.step(&db, &mut jobs, SessionEvent::Finished), Err(SessionError::ProtocolViolation));
    assert_eq!(s.state, SessionState::Closed);
    assert_eq!(jobs.get(0).unwrap().state, JobState::Aborted);
    assert_eq!(jobs.get(0).unwrap().bytes_transferred, 4);
}
