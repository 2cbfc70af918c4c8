//! Per-connection protocol state machine of the server side: login with a
//! bounded number of attempts, explicit TLS upgrade, and transfers that are
//! tracked in the job registry.
use vstd::prelude::*;
use crate::transfers::{
    fresh_job, is_terminal, target_of, update_error, updated, Direction, JobHandle,
    JobState, TransferJob, TransferManager,
};
use crate::users::{accepts, UserDb};

verus! {

/// States of a session.
#[derive(Clone, Copy, Debug, PartialEq, Eq, Structural)]
pub enum SessionState {
    Connected,
    Authenticating,
    Authenticated,
    TlsNegotiating,
    Ready,
    Transferring,
    Closed,
}

/// Why a session was closed.
#[derive(Clone, Copy, Debug, PartialEq, Eq, Structural)]
pub enum CloseReason {
    AuthenticationExhausted,
    ProtocolViolation,
    Timeout,
    Quit,
}

/// Errors that a step reports to the connection handler.
#[derive(Clone, Copy, Debug, PartialEq, Eq, Structural)]
pub enum SessionError {
    /// Bad credentials; another attempt is allowed.
    AuthenticationFailure,
    /// Too many consecutive bad credentials; the session is closed.
    AuthenticationExhausted,
    /// A command out of place or malformed; the session is closed.
    ProtocolViolation,
    /// The transfer failed; its job is marked failed, the session goes on.
    IoFailure,
    /// The login or TLS handshake took too long; the session is closed.
    Timeout,
}

/// What the connection handler observed.
#[derive(Clone, Debug)]
pub enum SessionEvent {
    /// The client named the account to log in to.
    User(String),
    /// The client sent the password for the named account.
    Pass(String),
    /// The client asked to upgrade the channel to TLS.
    RequestTls,
    /// The TLS handshake completed.
    TlsEstablished,
    /// The TLS handshake failed.
    TlsFailed,
    /// An authenticated client goes on without TLS.
    Proceed,
    /// The client asked for a transfer of `path`, of `declared_bytes` bytes
    /// when the size is known.
    Transfer { direction: Direction, path: String, declared_bytes: Option<u64>, started_at: u64 },
    /// The data channel of the current transfer opened.
    DataOpened,
    /// `n` more bytes of the current transfer went through.
    Data(u64),
    /// The current transfer delivered all its bytes.
    Finished,
    /// The current transfer hit an I/O error.
    IoError,
    /// Either party cancelled the current transfer.
    Cancel,
    /// The deadline of the login or TLS phase passed.
    Timeout,
    /// The client sent a command that cannot be parsed.
    Malformed,
    /// The client ended the session.
    Quit,
}

/// One connection's protocol state.
pub struct Session {
    pub state: SessionState,
    /// Consecutive failed logins.
    pub failures: u32,
    /// Number of consecutive failed logins that closes the session.
    pub max_failures: u32,
    pub tls: bool,
    pub authenticated: bool,
    /// The account named by the last `User` command.
    pub user: String,
    /// The job of the current transfer, while `Transferring`.
    pub job: JobHandle,
    pub closed_by: Option<CloseReason>,
}

/// Number of consecutive failed logins after which a session closes, unless
/// configured otherwise.
pub const DEFAULT_MAX_FAILURES: u32 = 3;

/// `jobs` after a best-effort move of job `h` to `st`: the job changes only
/// if it exists and the registry accepts the move.
pub open spec fn marked(jobs: Seq<TransferJob>, h: JobHandle, st: JobState) -> Seq<TransferJob> {
    if h < jobs.len() && update_error(jobs[h as int], 0, Some(st)) is None {
        jobs.update(h as int, updated(jobs[h as int], 0, Some(st)))
    } else {
        jobs
    }
}

/// The session closed for `reason`.
pub open spec fn closed(s: Session, reason: CloseReason) -> Session {
    Session { state: SessionState::Closed, closed_by: Some(reason), ..s }
}

/// The session and registry after closing for `reason`: a transfer under
/// way is aborted.
pub open spec fn close_effect(s: Session, jobs: Seq<TransferJob>, reason: CloseReason) -> (Session, Seq<TransferJob>) {
    (closed(s, reason), if s.state is Transferring { marked(jobs, s.job, JobState::Aborted) } else { jobs })
}

/// The error that a close for `reason` reports; a quit is no error.
pub open spec fn close_result(reason: CloseReason) -> Result<(), SessionError> {
    match reason {
        CloseReason::AuthenticationExhausted => Err(SessionError::AuthenticationExhausted),
        CloseReason::ProtocolViolation => Err(SessionError::ProtocolViolation),
        CloseReason::Timeout => Err(SessionError::Timeout),
        CloseReason::Quit => Ok(()),
    }
}

/// A protocol violation: the session closes and a transfer under way is
/// aborted.
pub open spec fn violation_of(s: Session, jobs: Seq<TransferJob>) -> (Session, Seq<TransferJob>, Result<(), SessionError>) {
    let (s2, j2) = close_effect(s, jobs, CloseReason::ProtocolViolation);
    (s2, j2, Err(SessionError::ProtocolViolation))
}

/// The transition table. Given the session `s`, the accounts `users`, the
/// registry `jobs` and an event, this gives the next session, the next
/// registry and the result of the step.
pub open spec fn step_spec(
    s: Session,
    users: Map<Seq<char>, Seq<char>>,
    jobs: Seq<TransferJob>,
    e: SessionEvent,
) -> (Session, Seq<TransferJob>, Result<(), SessionError>) {
    let close = |reason: CloseReason| {
        let (s2, j2) = close_effect(s, jobs, reason);
        (s2, j2, close_result(reason))
    };
    let violation = violation_of(s, jobs);
    match s.state {
        SessionState::Closed => (s, jobs, Err(SessionError::ProtocolViolation)),
        _ => match e {
            SessionEvent::Quit => close(CloseReason::Quit),
            SessionEvent::Malformed => violation,
            SessionEvent::Timeout => if s.state is Connected || s.state is Authenticating || s.state is TlsNegotiating {
                close(CloseReason::Timeout)
            } else {
                (s, jobs, Ok(()))
            },
            SessionEvent::User(name) => if s.state is Connected {
                (Session { state: SessionState::Authenticating, user: name, ..s }, jobs, Ok(()))
            } else {
                violation
            },
            SessionEvent::Pass(p) => if !(s.state is Authenticating) {
                violation
            } else if accepts(users, s.user@, p@) {
                (Session { state: SessionState::Authenticated, authenticated: true, failures: 0, ..s }, jobs, Ok(()))
            } else if s.failures + 1 >= s.max_failures {
                close(CloseReason::AuthenticationExhausted)
            } else {
                (Session { state: SessionState::Connected, failures: (s.failures + 1) as u32, ..s }, jobs,
                    Err(SessionError::AuthenticationFailure))
            },
            SessionEvent::RequestTls => if (s.state is Connected || s.state is Authenticated) && !s.tls {
                (Session { state: SessionState::TlsNegotiating, ..s }, jobs, Ok(()))
            } else {
                violation
            },
            SessionEvent::TlsEstablished => if s.state is TlsNegotiating {
                (Session {
                    state: if s.authenticated { SessionState::Ready } else { SessionState::Connected },
                    tls: true,
                    ..s
                }, jobs, Ok(()))
            } else {
                violation
            },
            SessionEvent::TlsFailed => violation,
            SessionEvent::Proceed => if s.state is Authenticated {
                (Session { state: SessionState::Ready, ..s }, jobs, Ok(()))
            } else {
                violation
            },
            SessionEvent::Transfer { direction, path, declared_bytes, started_at } => if !(s.state is Ready) {
                violation
            } else if jobs.len() >= u64::MAX {
                (s, jobs, Err(SessionError::IoFailure))
            } else {
                (Session { state: SessionState::Transferring, job: jobs.len() as u64, ..s },
                    jobs.push(fresh_job(jobs.len() as u64, direction, path, declared_bytes, started_at)), Ok(()))
            },
            SessionEvent::DataOpened => transfer_step(s, jobs, 0, Some(JobState::InProgress), violation),
            SessionEvent::Data(n) => transfer_step(s, jobs, n, None, violation),
            SessionEvent::Finished => transfer_step(s, jobs, 0, Some(JobState::Completed), violation),
            SessionEvent::Cancel => transfer_step(s, jobs, 0, Some(JobState::Aborted), violation),
            SessionEvent::IoError => if s.state is Transferring {
                (Session { state: SessionState::Ready, ..s }, marked(jobs, s.job, JobState::Failed),
                    Err(SessionError::IoFailure))
            } else {
                violation
            },
        },
    }
}

/// A step of the current transfer: the job is updated by `delta` bytes and
/// optionally moved to `st`. An update the registry refuses is a protocol
/// violation; reaching a terminal state returns the session to `Ready`.
pub open spec fn transfer_step(
    s: Session,
    jobs: Seq<TransferJob>,
    delta: u64,
    st: Option<JobState>,
    violation: (Session, Seq<TransferJob>, Result<(), SessionError>),
) -> (Session, Seq<TransferJob>, Result<(), SessionError>) {
    if !(s.state is Transferring) {
        violation
    } else {
        let h = s.job;
        let job = jobs[h as int];
        if update_error(job, delta, st) is Some {
            violation
        } else {
            let after = jobs.update(h as int, updated(job, delta, st));
            (if is_terminal(target_of(job, st)) { Session { state: SessionState::Ready, ..s } } else { s }, after, Ok(()))
        }
    }
}

impl Session {
    /// The session's own invariant, and that its current job is registered
    /// in `jobs`.
    pub open spec fn wf(&self, jobs: Seq<TransferJob>) -> bool {
        &&& self.failures == 0 || self.failures < self.max_failures
        &&& (self.state is Authenticated || self.state is Ready || self.state is Transferring) ==> self.authenticated
        &&& self.state is Transferring ==> self.job < jobs.len()
        &&& self.state is Closed <==> self.closed_by is Some
    }

    /// A fresh, unauthenticated session on a plain channel that closes after
    /// `max_failures` consecutive failed logins.
    pub fn new(max_failures: u32) -> (r: Session)
        ensures
            r.state == SessionState::Connected,
            r.failures == 0,
            r.max_failures == max_failures,
            !r.tls,
            !r.authenticated,
            r.user@ == Seq::<char>::empty(),
            r.closed_by is None,
            forall|jobs: Seq<TransferJob>| r.wf(jobs),
    {
        Session {
            state: SessionState::Connected,
            failures: 0,
            max_failures,
            tls: false,
            authenticated: false,
            user: String::new(),
            job: 0,
            closed_by: None,
        }
    }

    /// Moves job `h` to `st` if the registry allows it; otherwise leaves the
    /// registry as it is.
    fn mark(jobs: &mut TransferManager, h: JobHandle, st: JobState)
        requires
            old(jobs).wf(),
        ensures
            final(jobs).wf(),
            final(jobs)@ == marked(old(jobs)@, h, st),
    {
        let _ = jobs.update(h, 0, Some(st));
    }

    /// Closes the session for `reason`, aborting a transfer under way.
    fn close(&mut self, jobs: &mut TransferManager, reason: CloseReason) -> (r: Result<(), SessionError>)
        requires
            old(jobs).wf(),
        ensures
            final(jobs).wf(),
            (*final(self), final(jobs)@) == close_effect(*old(self), old(jobs)@, reason),
            r == close_result(reason),
    {
        if let SessionState::Transferring = self.state {
            Self::mark(jobs, self.job, JobState::Aborted);
        }
        self.state = SessionState::Closed;
        self.closed_by = Some(reason);
        match reason {
            CloseReason::AuthenticationExhausted => Err(SessionError::AuthenticationExhausted),
            CloseReason::ProtocolViolation => Err(SessionError::ProtocolViolation),
            CloseReason::Timeout => Err(SessionError::Timeout),
            CloseReason::Quit => Ok(()),
        }
    }

    /// Applies the current transfer's update of `delta` bytes and optional
    /// state `st`.
    fn transfer(&mut self, jobs: &mut TransferManager, delta: u64, st: Option<JobState>) -> (r: Result<(), SessionError>)
        requires
            old(jobs).wf(),
            old(self).wf(old(jobs)@),
            old(self).state != SessionState::Closed,
        ensures
            final(jobs).wf(),
            (*final(self), final(jobs)@, r) == transfer_step(*old(self), old(jobs)@, delta, st,
                violation_of(*old(self), old(jobs)@)),
    {
        if !matches!(self.state, SessionState::Transferring) {
            return self.close(jobs, CloseReason::ProtocolViolation);
        }
        let h = self.job;
        match jobs.update(h, delta, st) {
            Ok(()) => {
                let now = jobs.get(h);
                match now {
                    Some(j) => {
                        if crate::transfers::state_is_terminal(j.state) {
                            self.state = SessionState::Ready;
                        }
                    },
                    None => {},
                }
                Ok(())
            },
            Err(_) => self.close(jobs, CloseReason::ProtocolViolation),
        }
    }
    /// Handles one event: the next state, the registry's change and the
    /// result are those of `step_spec`.
    pub fn step(&mut self, users: &UserDb, jobs: &mut TransferManager, event: SessionEvent) -> (r: Result<(), SessionError>)
        requires
            users.wf(),
            old(jobs).wf(),
            old(self).wf(old(jobs)@),
        ensures
            final(jobs).wf(),
            final(self).wf(final(jobs)@),
            (*final(self), final(jobs)@, r) == step_spec(*old(self), users@, old(jobs)@, event),
    {
        if let SessionState::Closed = self.state {
            return Err(SessionError::ProtocolViolation);
        }
        match event {
            SessionEvent::Quit => self.close(jobs, CloseReason::Quit),
            SessionEvent::Malformed => self.close(jobs, CloseReason::ProtocolViolation),
            SessionEvent::Timeout => match self.state {
                SessionState::Connected | SessionState::Authenticating | SessionState::TlsNegotiating => {
                    self.close(jobs, CloseReason::Timeout)
                },
                _ => Ok(()),
            },
            SessionEvent::User(name) => match self.state {
                SessionState::Connected => {
                    self.state = SessionState::Authenticating;
                    self.user = name;
                    Ok(())
                },
                _ => self.close(jobs, CloseReason::ProtocolViolation),
            },
            SessionEvent::Pass(p) => match self.state {
                SessionState::Authenticating => {
                    if users.verify(self.user.as_str(), p.as_str()) {
                        self.state = SessionState::Authenticated;
                        self.authenticated = true;
                        self.failures = 0;
                        Ok(())
                    } else if self.failures >= self.max_failures || self.max_failures - self.failures <= 1 {
                        self.close(jobs, CloseReason::AuthenticationExhausted)
                    } else {
                        self.state = SessionState::Connected;
                        self.failures = self.failures + 1;
                        Err(SessionError::AuthenticationFailure)
                    }
                },
                _ => self.close(jobs, CloseReason::ProtocolViolation),
            },
            SessionEvent::RequestTls => {
                let upgradable = match self.state {
                    SessionState::Connected | SessionState::Authenticated => !self.tls,
                    _ => false,
                };
                if upgradable {
                    self.state = SessionState::TlsNegotiating;
                    Ok(())
                } else {
                    self.close(jobs, CloseReason::ProtocolViolation)
                }
            },
            SessionEvent::TlsEstablished => match self.state {
                SessionState::TlsNegotiating => {
                    self.state = if self.authenticated { SessionState::Ready } else { SessionState::Connected };
                    self.tls = true;
                    Ok(())
                },
                _ => self.close(jobs, CloseReason::ProtocolViolation),
            },
            SessionEvent::TlsFailed => self.close(jobs, CloseReason::ProtocolViolation),
            SessionEvent::Proceed => match self.state {
                SessionState::Authenticated => {
                    self.state = SessionState::Ready;
                    Ok(())
                },
                _ => self.close(jobs, CloseReason::ProtocolViolation),
            },
            SessionEvent::Transfer { direction, path, declared_bytes, started_at } => match self.state {
                SessionState::Ready => {
                    if jobs.len() as u64 >= u64::MAX {
                        Err(SessionError::IoFailure)
                    } else {
                        let h = jobs.register(direction, path, declared_bytes, started_at);
                        self.state = SessionState::Transferring;
                        self.job = h;
                        Ok(())
                    }
                },
                _ => self.close(jobs, CloseReason::ProtocolViolation),
            },
            SessionEvent::DataOpened => self.transfer(jobs, 0, Some(JobState::InProgress)),
            SessionEvent::Data(n) => self.transfer(jobs, n, None),
            SessionEvent::Finished => self.transfer(jobs, 0, Some(JobState::Completed)),
            SessionEvent::Cancel => self.transfer(jobs, 0, Some(JobState::Aborted)),
            SessionEvent::IoError => match self.state {
                SessionState::Transferring => {
                    Self::mark(jobs, self.job, JobState::Failed);
                    self.state = SessionState::Ready;
                    Err(SessionError::IoFailure)
                },
                _ => self.close(jobs, CloseReason::ProtocolViolation),
            },
        }
    }
}

/// A wrong password on the last allowed attempt closes the session with
/// `AuthenticationExhausted`, and a closed session accepts no further event.
pub proof fn lemma_failed_logins_exhaust(
    s: Session,
    users: Map<Seq<char>, Seq<char>>,
    jobs: Seq<TransferJob>,
    password: String,
    e: SessionEvent,
)
    requires
        s.state == SessionState::Authenticating,
        !accepts(users, s.user@, password@),
        s.failures + 1 >= s.max_failures,
    ensures
        ({
            let (t, j, r) = step_spec(s, users, jobs, SessionEvent::Pass(password));
            &&& t.state == SessionState::Closed
            &&& t.closed_by == Some(CloseReason::AuthenticationExhausted)
            &&& r == Err::<(), SessionError>(SessionError::AuthenticationExhausted)
            &&& j == jobs
            &&& step_spec(t, users, j, e) == (t, j, Err::<(), SessionError>(SessionError::ProtocolViolation))
        }),
{
}

} // verus!
