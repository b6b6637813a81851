//! The lifecycle protocol's laws, stated over the control record's model and
//! proved once for every state and configuration.

use vstd::prelude::*;

use crate::control::agent_live_step;
use crate::control::control_wf;
use crate::control::finish_stop_step;
use crate::control::init_step;
use crate::control::initial_state;
use crate::control::start_code;
use crate::control::start_step;
use crate::control::stop_step;
use crate::control::worker_exit_step;
use crate::control::ConfigView;
use crate::control::ControlView;
use crate::control::SessionState;
use crate::rundata::has_enabled;
use crate::rundata::published_status;
use crate::rundata::tunnel_enabled;
use crate::rundata::TunnelEntry;
use crate::status::PlayitStatusCode;
use crate::status::StatusView;

verus! {

/// Law: after any initialize, whatever the prior state and whatever the
/// configuration, a status query shows Stopped with no address and no error.
pub proof fn lemma_init_then_query(s: ControlView, c: ConfigView)
    ensures
        init_step(s, c).status == StatusView::stopped_clear(),
        init_step(s, c).status.code.spec_code() == 0,
{
}

/// Law: a start with no configuration stored (in particular, any start before
/// the first successful initialize) is refused with the not-configured code
/// and changes nothing, so the record is still not running.
pub proof fn lemma_start_unconfigured(s: ControlView)
    requires
        s.config is None,
        s.session is Idle,
    ensures
        start_code(s) == -1,
        start_step(s) == s,
        !(start_step(s).session is Running),
{
}

/// Law: the state before the first call refuses a start with not-configured.
pub proof fn lemma_start_before_init()
    ensures
        start_code(initial_state()) == -1,
        start_step(initial_state()) == initial_state(),
{
}

/// Law: two starts in a row, the second before any stop or worker exit, have
/// the second refused with the already-running code, and it changes nothing.
pub proof fn lemma_start_twice(s: ControlView)
    requires
        start_code(s) == 0,
    ensures
        start_code(start_step(s)) == -2,
        start_step(start_step(s)) == start_step(s),
{
}

/// Law: a start issued while a stop is still waiting out its rendezvous — the
/// session moved to Stopping but the worker's exit not yet landed — is
/// refused, so a second worker can never be spawned beside a live one; at
/// most one session is active at a time.
pub proof fn lemma_start_during_stopping(s: ControlView)
    requires
        start_code(s) == 0,
    ensures
        stop_step(start_step(s)).session is Stopping,
        start_code(stop_step(start_step(s))) == -2,
        start_step(stop_step(start_step(s))) == stop_step(start_step(s)),
{
}

/// Law: a stop with no session running is a no-op; in particular it does not
/// alter an already-Stopped status snapshot.
pub proof fn lemma_stop_idle(s: ControlView)
    requires
        !(s.session is Running),
    ensures
        stop_step(s) == s,
{
}

/// Law: the worker's cleanup only ever retires a session that still exists;
/// a record already at Idle — someone else's session, or none — is untouched.
pub proof fn lemma_worker_exit_owns_record(s: ControlView)
    ensures
        s.session is Idle ==> worker_exit_step(s) == s,
        worker_exit_step(s).session is Idle,
        worker_exit_step(s).status == s.status,
        worker_exit_step(s).config == s.config,
{
}

/// Law: after a successful start, a stop, the worker's exit and the stopping
/// caller's final force-set, a status query shows Stopped, and a following
/// start is permitted again — no session is leaked.
pub proof fn lemma_stop_then_restart(s: ControlView)
    requires
        start_code(s) == 0,
    ensures
        finish_stop_step(worker_exit_step(stop_step(start_step(s)))).status
            == StatusView::stopped_clear(),
        finish_stop_step(worker_exit_step(stop_step(start_step(s)))).status.code.spec_code()
            == 0,
        start_code(finish_stop_step(worker_exit_step(stop_step(start_step(s))))) == 0,
{
}

/// Law: when every tunnel entry carries a disabled reason, status publication
/// yields Disconnected with no address and no error.
pub proof fn lemma_all_disabled_publishes_disconnected(ts: Seq<TunnelEntry>)
    requires
        forall|i: int| 0 <= i < ts.len() ==> ts[i].disabled_reason is Some,
    ensures
        published_status(ts) == (StatusView {
            code: PlayitStatusCode::Disconnected,
            address: None,
            error: None,
        }),
{
    assert(forall|i: int| 0 <= i < ts.len() ==> !tunnel_enabled(ts[i]));
    assert(!has_enabled(ts));
}

/// Law: every lifecycle transition preserves the control record's invariant
/// (the stop channel is held exactly while the session is Running, snapshot
/// strings null-free), and the initial record satisfies it.
pub proof fn lemma_transitions_preserve_wf(s: ControlView, c: ConfigView)
    ensures
        control_wf(initial_state()),
        control_wf(s) ==> control_wf(init_step(s, c)),
        control_wf(s) ==> control_wf(start_step(s)),
        control_wf(s) ==> control_wf(stop_step(s)),
        control_wf(s) ==> control_wf(finish_stop_step(s)),
        control_wf(s) ==> control_wf(worker_exit_step(s)),
        control_wf(s) ==> control_wf(agent_live_step(s)),
{
}

} // verus!
