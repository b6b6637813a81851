//! The singleton control record and its lifecycle state machine: initialize,
//! start, stop with its stopping intermediate state, and the worker's own
//! cleanup. The status snapshot lives behind its own lock, apart from the
//! control record, so the two are paired only in the model; the callers'
//! locks, the worker thread and its asynchronous runtime live outside this
//! crate and drive these transitions.

use vstd::prelude::*;

use crate::status::PlayitStatusCode;
use crate::status::StatusSnapshot;
use crate::status::StatusView;

verus! {

/// The poll interval used when the configuration does not name one.
pub const DEFAULT_POLL_INTERVAL_MS: u64 = 3000;

/// The session configuration: the credential, and optional overrides for the
/// API base URL and the run-data poll interval. Immutable once parsed; cloned
/// into each session start.
pub struct Config {
    pub secret_key: String,
    pub api_url: Option<String>,
    pub poll_interval_ms: Option<u64>,
}

/// Mathematical model of a configuration.
#[verifier::ext_equal]
pub struct ConfigView {
    pub secret_key: Seq<char>,
    pub api_url: Option<Seq<char>>,
    pub poll_interval_ms: Option<u64>,
}

impl View for Config {
    type V = ConfigView;

    open spec fn view(&self) -> ConfigView {
        ConfigView {
            secret_key: self.secret_key@,
            api_url: match self.api_url {
                Some(ref u) => Some(u@),
                None => None,
            },
            poll_interval_ms: self.poll_interval_ms,
        }
    }
}

/// The API base URL used when the configuration does not name one.
pub open spec fn default_api_url() -> Seq<char> {
    "https://api.playit.gg"@
}

impl Config {
    /// An owned copy, field for field.
    pub fn clone_config(&self) -> (c: Config)
        ensures
            c@ == self@,
    {
        let c = Config {
            secret_key: self.secret_key.clone(),
            api_url: match &self.api_url {
                Some(u) => Some(u.clone()),
                None => None,
            },
            poll_interval_ms: self.poll_interval_ms,
        };
        proof {
            assert(c@ =~= self@);
        }
        c
    }

    /// The base URL a session connects to: the configured one, or the default.
    pub fn effective_api_url(&self) -> (r: String)
        ensures
            r@ == match self@.api_url {
                Some(u) => u,
                None => default_api_url(),
            },
    {
        match &self.api_url {
            Some(u) => u.clone(),
            None => "https://api.playit.gg".to_owned(),
        }
    }

    /// The run-data poll interval: the configured one, or the default.
    pub fn effective_poll_interval_ms(&self) -> (r: u64)
        ensures
            r == match self@.poll_interval_ms {
                Some(v) => v,
                None => DEFAULT_POLL_INTERVAL_MS,
            },
    {
        match self.poll_interval_ms {
            Some(v) => v,
            None => DEFAULT_POLL_INTERVAL_MS,
        }
    }
}

/// Where the one permitted session stands. `Stopping` is the window between a
/// stop taking the session's handles and the worker's own exit: a start in
/// that window is rejected, so a worker can never be spawned while the prior
/// one is still alive.
#[derive(Copy, Clone, PartialEq, Eq, Structural, Debug)]
pub enum SessionState {
    Idle,
    Running,
    Stopping,
}

/// Mathematical model of the control record paired with the status snapshot
/// it publishes into. The stop channel and the agent's liveness flag are
/// owned by the surrounding runtime; each is tracked as held-by-the-record or
/// not, which is all the protocol reads of them.
#[verifier::ext_equal]
pub struct ControlView {
    pub config: Option<ConfigView>,
    pub session: SessionState,
    pub has_stop_channel: bool,
    pub has_keep_running: bool,
    pub status: StatusView,
}

/// The record as it stands on first use, before any call has touched it.
pub open spec fn initial_state() -> ControlView {
    ControlView {
        config: None,
        session: SessionState::Idle,
        has_stop_channel: false,
        has_keep_running: false,
        status: StatusView::stopped_clear(),
    }
}

/// What initialize leaves behind: the new configuration stored and the status
/// snapshot reset to Stopped. An active session is neither stopped nor
/// forgotten: the session fields stay as they are, so the one-session
/// discipline survives a reconfiguration, which only arms future starts.
pub open spec fn init_step(s: ControlView, c: ConfigView) -> ControlView {
    ControlView { config: Some(c), status: StatusView::stopped_clear(), ..s }
}

/// The code a start attempt returns: a live or still-stopping session wins
/// over not-configured, and zero means a worker may be launched.
pub open spec fn start_code(s: ControlView) -> i32 {
    if !(s.session is Idle) {
        -2i32
    } else if s.config is None {
        -1i32
    } else {
        0i32
    }
}

/// What start leaves behind: on success the session is Running with a fresh
/// stop channel, no liveness flag yet, and status Connecting; a refused start
/// changes nothing.
pub open spec fn start_step(s: ControlView) -> ControlView {
    if start_code(s) == 0 {
        ControlView {
            config: s.config,
            session: SessionState::Running,
            has_stop_channel: true,
            has_keep_running: false,
            status: StatusView {
                code: PlayitStatusCode::Connecting,
                address: None,
                error: None,
            },
        }
    } else {
        s
    }
}

/// What a stop request leaves behind: a running session moves to Stopping
/// with its handles taken by the stopping caller; otherwise nothing changes.
/// The status snapshot is untouched here — it is forced to Stopped only after
/// the rendezvous wait, by `finish_stop`.
pub open spec fn stop_step(s: ControlView) -> ControlView {
    if s.session is Running {
        ControlView {
            config: s.config,
            session: SessionState::Stopping,
            has_stop_channel: false,
            has_keep_running: false,
            status: s.status,
        }
    } else {
        s
    }
}

/// The stopping caller's last word, after the rendezvous wait or its timeout:
/// the status snapshot is forced to Stopped whatever the worker managed.
pub open spec fn finish_stop_step(s: ControlView) -> ControlView {
    ControlView { status: StatusView::stopped_clear(), ..s }
}

/// The worker has handed its agent's liveness flag to the control record.
pub open spec fn agent_live_step(s: ControlView) -> ControlView {
    ControlView { has_keep_running: true, ..s }
}

/// The worker's own cleanup on exit: its session — Running if it exits of its
/// own accord, Stopping if a stop asked it to — ends at Idle with the session
/// fields cleared, while whatever the session last published stays readable.
/// A record already at Idle is not the worker's to touch and is left alone.
pub open spec fn worker_exit_step(s: ControlView) -> ControlView {
    if s.session is Idle {
        s
    } else {
        ControlView {
            session: SessionState::Idle,
            has_stop_channel: false,
            has_keep_running: false,
            ..s
        }
    }
}

/// The control record's invariant: the record holds a stop channel exactly
/// while its session is Running (a stop takes the handles as it moves the
/// session to Stopping), and the snapshot's strings are null-free.
pub open spec fn control_wf(s: ControlView) -> bool {
    &&& (s.session is Running <==> s.has_stop_channel)
    &&& s.status.wf()
}

/// What a start attempt decided, carrying on success the configuration copy
/// the worker is to run with.
pub enum StartOutcome {
    Started(Config),
    NotConfigured,
    AlreadyRunning,
}

impl StartOutcome {
    /// The integer code reported across the boundary.
    pub open spec fn spec_code(&self) -> i32 {
        match self {
            StartOutcome::Started(_) => 0i32,
            StartOutcome::NotConfigured => -1i32,
            StartOutcome::AlreadyRunning => -2i32,
        }
    }

    pub fn code_value(&self) -> (r: i32)
        ensures
            r == self.spec_code(),
    {
        match self {
            StartOutcome::Started(_) => 0,
            StartOutcome::NotConfigured => -1,
            StartOutcome::AlreadyRunning => -2,
        }
    }
}

/// The process-wide control record. Exactly one lives for the process's
/// lifetime, behind the caller's control lock; every transition below is
/// performed while that lock is held, so calls from different threads are
/// linearized. The status snapshot it publishes into sits behind its own
/// lock, so a status reader never contends with an in-flight start or stop.
pub struct ControlState {
    pub config: Option<Config>,
    pub session: SessionState,
    pub has_stop_channel: bool,
    pub has_keep_running: bool,
}

impl ControlState {
    /// The record and the snapshot it is paired with, as one model value.
    pub open spec fn paired(self, st: StatusView) -> ControlView {
        ControlView {
            config: match self.config {
                Some(ref c) => Some(c@),
                None => None,
            },
            session: self.session,
            has_stop_channel: self.has_stop_channel,
            has_keep_running: self.has_keep_running,
            status: st,
        }
    }

    pub fn new() -> (r: ControlState)
        ensures
            forall|st: StatusView|
                #[trigger] r.paired(st) == (ControlView { status: st, ..initial_state() }),
    {
        let r = ControlState {
            config: None,
            session: SessionState::Idle,
            has_stop_channel: false,
            has_keep_running: false,
        };
        proof {
            assert(forall|st: StatusView|
                #[trigger] r.paired(st) =~= ControlView { status: st, ..initial_state() });
        }
        r
    }

    /// Stores a freshly parsed configuration and resets the status snapshot
    /// to Stopped. Permitted while a session is running or stopping: the
    /// session fields are left alone, so the active session keeps its handles
    /// and a start is still refused until it has fully wound down; the new
    /// configuration only arms future starts.
    pub fn apply_init(&mut self, status: &mut StatusSnapshot, config: Config)
        ensures
            final(self).paired(final(status)@) == init_step(
                old(self).paired(old(status)@),
                config@,
            ),
            final(status)@.wf(),
    {
        let ghost c = config@;
        self.config = Some(config);
        status.set_status(PlayitStatusCode::Stopped, None, None);
        proof {
            assert(status@ =~= StatusView::stopped_clear());
            assert(self.paired(status@) =~= init_step(old(self).paired(old(status)@), c));
        }
    }

    /// Decides a start attempt and, when permitted, moves the record into the
    /// Running state, publishes Connecting, and hands back the configuration
    /// copy for the worker. A session that is Running or still Stopping
    /// refuses the attempt, so at most one worker is ever alive.
    pub fn apply_start(&mut self, status: &mut StatusSnapshot) -> (r: StartOutcome)
        ensures
            final(self).paired(final(status)@) == start_step(old(self).paired(old(status)@)),
            r.spec_code() == start_code(old(self).paired(old(status)@)),
            r matches StartOutcome::Started(c) ==> old(self).paired(old(status)@).config
                == Some(c@),
    {
        match self.session {
            SessionState::Idle => {},
            _ => {
                return StartOutcome::AlreadyRunning;
            },
        }
        let config = match &self.config {
            Some(c) => c.clone_config(),
            None => {
                return StartOutcome::NotConfigured;
            },
        };
        self.session = SessionState::Running;
        self.has_stop_channel = true;
        self.has_keep_running = false;
        status.set_status(PlayitStatusCode::Connecting, None, None);
        proof {
            assert(self.paired(status@) =~= start_step(old(self).paired(old(status)@)));
        }
        StartOutcome::Started(config)
    }

    /// Decides a stop request: reports whether a running session was there to
    /// stop and, if one was, moves it to Stopping and takes its handles. The
    /// surrounding runtime then clears the liveness flag, sends the stop
    /// signal and waits out the bounded rendezvous, and afterwards forces the
    /// snapshot to Stopped through `finish_stop`; a stop with nothing running
    /// changes nothing and still counts as success.
    pub fn apply_stop(&mut self) -> (was_running: bool)
        ensures
            forall|st: StatusView|
                #[trigger] final(self).paired(st) == stop_step(old(self).paired(st)),
            was_running == (old(self).session is Running),
    {
        match self.session {
            SessionState::Running => {},
            _ => {
                proof {
                    assert(forall|st: StatusView|
                        #[trigger] self.paired(st) =~= stop_step(old(self).paired(st)));
                }
                return false;
            },
        }
        self.session = SessionState::Stopping;
        self.has_stop_channel = false;
        self.has_keep_running = false;
        proof {
            assert(forall|st: StatusView|
                #[trigger] self.paired(st) =~= stop_step(old(self).paired(st)));
        }
        true
    }

    /// Records that the worker stored its agent's liveness flag, so that a
    /// concurrent stop can short-circuit the agent's own run task.
    pub fn mark_agent_live(&mut self)
        ensures
            forall|st: StatusView|
                #[trigger] final(self).paired(st) == agent_live_step(old(self).paired(st)),
    {
        self.has_keep_running = true;
        proof {
            assert(forall|st: StatusView|
                #[trigger] self.paired(st) =~= agent_live_step(old(self).paired(st)));
        }
    }

    /// The worker's cleanup as it exits: its own session — Running or
    /// Stopping — ends at Idle with the session fields cleared. A record
    /// already at Idle is left untouched: it is no longer this worker's.
    pub fn worker_cleanup(&mut self)
        ensures
            forall|st: StatusView|
                #[trigger] final(self).paired(st) == worker_exit_step(old(self).paired(st)),
    {
        match self.session {
            SessionState::Idle => {
                proof {
                    assert(forall|st: StatusView|
                        #[trigger] self.paired(st) =~= worker_exit_step(old(self).paired(st)));
                }
            },
            _ => {
                self.session = SessionState::Idle;
                self.has_stop_channel = false;
                self.has_keep_running = false;
                proof {
                    assert(forall|st: StatusView|
                        #[trigger] self.paired(st) =~= worker_exit_step(old(self).paired(st)));
                }
            },
        }
    }
}

/// The stopping caller's last step, taken after the rendezvous wait (or its
/// timeout): the status snapshot is forced to Stopped regardless of what the
/// worker managed to publish meanwhile.
pub fn finish_stop(status: &mut StatusSnapshot)
    ensures
        final(status)@ == StatusView::stopped_clear(),
        final(status)@.wf(),
{
    status.set_status(PlayitStatusCode::Stopped, None, None);
    proof {
        assert(status@ =~= StatusView::stopped_clear());
    }
}

} // verus!
