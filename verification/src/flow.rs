//! The login-flow controller: a time-bounded polling state machine over an
//! interactive browser surface. Each poll tick the host reports what it
//! saw of the surface (closed, or its current location) and how much time
//! has passed; the controller decides whether to keep waiting, cancel,
//! time out, fail, or accept the authorization code carried by a matching
//! redirect. The host performs the surface and network work; every
//! decision is taken here.

use vstd::prelude::*;
use vstd::slice::slice_to_vec;
use crate::credential::AuthError;
use crate::redirect::code_param;
use crate::redirect::extract_code;
use crate::redirect::is_prefix_of;
use crate::redirect::starts_with;

verus! {

/// Configuration of one flow: where the provider redirects to, and the
/// polling cadence and deadline.
pub struct FlowConfig {
    /// The identity provider's redirect prefix: a location that begins
    /// with it is the redirect.
    pub redirect_prefix: Vec<u8>,
    /// Pause between polls, in milliseconds.
    pub poll_interval_ms: u64,
    /// Deadline: elapsed time at or past it times the flow out.
    pub flow_timeout_ms: u64,
}

pub const RECOMMENDED_POLL_INTERVAL_MS: u64 = 50;

pub const RECOMMENDED_FLOW_TIMEOUT_MS: u64 = 600000;

impl FlowConfig {
    /// The recommended cadence: poll every 50 ms for up to ten minutes.
    pub fn recommended(redirect_prefix: Vec<u8>) -> (c: FlowConfig)
        ensures
            c.redirect_prefix == redirect_prefix,
            c.poll_interval_ms == RECOMMENDED_POLL_INTERVAL_MS,
            c.flow_timeout_ms == RECOMMENDED_FLOW_TIMEOUT_MS,
    {
        FlowConfig {
            redirect_prefix,
            poll_interval_ms: RECOMMENDED_POLL_INTERVAL_MS,
            flow_timeout_ms: RECOMMENDED_FLOW_TIMEOUT_MS,
        }
    }
}

/// What the host saw of the interactive surface at one poll tick.
pub enum SurfaceObservation {
    /// Reading the surface's state failed: the user closed it.
    Closed,
    /// The surface is open at this location (a URL, as bytes).
    Location(Vec<u8>),
    /// The surface is open but its location could not be read.
    LocationUnavailable,
}

/// One poll tick: the time elapsed since the flow started, and what the
/// surface showed.
pub struct Tick {
    pub elapsed_ms: u64,
    pub seen: SurfaceObservation,
}

/// Where a flow stands, abstractly. `Pending` means still waiting for a
/// redirect; the other four are the terminal outcomes.
pub enum FlowEnd {
    Pending,
    /// The user closed the surface: a normal outcome with no credential.
    Cancelled,
    /// The deadline passed with no redirect: same shape as `Cancelled`.
    TimedOut,
    /// The surface could not be controlled.
    SurfaceFailed,
    /// A matching redirect carried this authorization code.
    Accepted { code: Seq<u8> },
}

/// The decision for one tick, checked in order: the deadline first (it
/// guards every poll round), then whether the user closed the surface,
/// then whether the location is a matching redirect with a `code`
/// parameter. Anything else waits for the next tick.
pub open spec fn tick_outcome(cfg: FlowConfig, t: Tick) -> FlowEnd {
    if t.elapsed_ms >= cfg.flow_timeout_ms {
        FlowEnd::TimedOut
    } else {
        match t.seen {
            SurfaceObservation::Closed => FlowEnd::Cancelled,
            SurfaceObservation::LocationUnavailable => FlowEnd::SurfaceFailed,
            SurfaceObservation::Location(u) => if is_prefix_of(cfg.redirect_prefix@, u@) {
                match code_param(u@) {
                    Some(c) => FlowEnd::Accepted { code: c },
                    None => FlowEnd::Pending,
                }
            } else {
                FlowEnd::Pending
            },
        }
    }
}

/// The outcome of a whole run: the decision of the first tick that does
/// not keep waiting, or `Pending` if every tick does.
pub open spec fn run_flow(cfg: FlowConfig, ticks: Seq<Tick>) -> FlowEnd
    decreases ticks.len(),
{
    if ticks.len() == 0 {
        FlowEnd::Pending
    } else {
        let d = tick_outcome(cfg, ticks[0]);
        if d is Pending {
            run_flow(cfg, ticks.drop_first())
        } else {
            d
        }
    }
}

/// The executable decision for one tick.
pub enum TickDecision {
    /// Sleep one poll interval and look again.
    Wait,
    /// The user closed the surface: end with no credential.
    Cancel,
    /// The deadline passed: close the surface, end with no credential.
    TimeOut,
    /// The surface could not be controlled: surface error.
    Fail,
    /// A matching redirect carried this code: close the surface and
    /// exchange the code for a credential.
    Accept(Vec<u8>),
}

/// What a decision means abstractly.
pub open spec fn decision_model(d: TickDecision) -> FlowEnd {
    match d {
        TickDecision::Wait => FlowEnd::Pending,
        TickDecision::Cancel => FlowEnd::Cancelled,
        TickDecision::TimeOut => FlowEnd::TimedOut,
        TickDecision::Fail => FlowEnd::SurfaceFailed,
        TickDecision::Accept(v) => FlowEnd::Accepted { code: v@ },
    }
}

/// Decide one poll tick.
pub fn flow_tick(cfg: &FlowConfig, t: &Tick) -> (d: TickDecision)
    ensures
        decision_model(d) == tick_outcome(*cfg, *t),
{
    if t.elapsed_ms >= cfg.flow_timeout_ms {
        return TickDecision::TimeOut;
    }
    match &t.seen {
        SurfaceObservation::Closed => TickDecision::Cancel,
        SurfaceObservation::LocationUnavailable => TickDecision::Fail,
        SurfaceObservation::Location(u) => {
            if starts_with(u.as_slice(), cfg.redirect_prefix.as_slice()) {
                match extract_code(u.as_slice()) {
                    Some(v) => TickDecision::Accept(slice_to_vec(v)),
                    None => TickDecision::Wait,
                }
            } else {
                TickDecision::Wait
            }
        },
    }
}

/// Where an executable session stands.
pub enum FlowStatus {
    Waiting,
    Cancelled,
    TimedOut,
    Failed,
    Accepted(Vec<u8>),
}

/// What a status means abstractly.
pub open spec fn status_model(s: FlowStatus) -> FlowEnd {
    match s {
        FlowStatus::Waiting => FlowEnd::Pending,
        FlowStatus::Cancelled => FlowEnd::Cancelled,
        FlowStatus::TimedOut => FlowEnd::TimedOut,
        FlowStatus::Failed => FlowEnd::SurfaceFailed,
        FlowStatus::Accepted(v) => FlowEnd::Accepted { code: v@ },
    }
}

/// Turn a decision into the session status it leaves behind.
fn status_of_decision(d: TickDecision) -> (s: FlowStatus)
    ensures
        status_model(s) == decision_model(d),
{
    match d {
        TickDecision::Wait => FlowStatus::Waiting,
        TickDecision::Cancel => FlowStatus::Cancelled,
        TickDecision::TimeOut => FlowStatus::TimedOut,
        TickDecision::Fail => FlowStatus::Failed,
        TickDecision::Accept(v) => FlowStatus::Accepted(v),
    }
}

/// One login session: created when the flow starts, fed one tick at a
/// time, and over once a terminal decision is reached. A finished session
/// takes no further ticks, so at most one authorization code is ever
/// accepted per session.
pub struct FlowSession {
    pub config: FlowConfig,
    pub status: FlowStatus,
}

impl FlowSession {
    pub open spec fn is_waiting(self) -> bool {
        self.status is Waiting
    }

    /// Start a session: no redirect seen yet.
    pub fn begin(config: FlowConfig) -> (s: FlowSession)
        ensures
            s.config == config,
            s.is_waiting(),
    {
        FlowSession { config, status: FlowStatus::Waiting }
    }

    /// Feed one poll tick to a session that is still waiting. The session
    /// records the decision; once it is terminal the session is over.
    pub fn advance(&mut self, t: &Tick) -> (d: TickDecision)
        requires
            old(self).is_waiting(),
        ensures
            final(self).config == old(self).config,
            decision_model(d) == tick_outcome(old(self).config, *t),
            status_model(final(self).status) == tick_outcome(old(self).config, *t),
    {
        let d = flow_tick(&self.config, t);
        let s = match &d {
            TickDecision::Wait => FlowStatus::Waiting,
            TickDecision::Cancel => FlowStatus::Cancelled,
            TickDecision::TimeOut => FlowStatus::TimedOut,
            TickDecision::Fail => FlowStatus::Failed,
            TickDecision::Accept(v) => FlowStatus::Accepted(slice_to_vec(v.as_slice())),
        };
        self.status = s;
        d
    }
}

/// Run a whole recorded sequence of ticks through the state machine and
/// return where it ends: the executable mirror of `run_flow`.
pub fn resolve(cfg: &FlowConfig, ticks: &Vec<Tick>) -> (r: FlowStatus)
    ensures
        status_model(r) == run_flow(*cfg, ticks@),
{
    let n = ticks.len();
    let mut i: usize = 0;
    proof {
        assert(ticks@.skip(0) =~= ticks@);
    }
    while i < n
        invariant
            n == ticks@.len(),
            0 <= i <= n,
            run_flow(*cfg, ticks@) == run_flow(*cfg, ticks@.skip(i as int)),
        decreases n - i,
    {
        let d = flow_tick(cfg, &ticks[i]);
        proof {
            assert(ticks@.skip(i as int)[0] == ticks@[i as int]);
            assert(ticks@.skip(i as int).drop_first() =~= ticks@.skip(i as int + 1));
        }
        match d {
            TickDecision::Wait => {
                i = i + 1;
            },
            _ => {
                return status_of_decision(d);
            },
        }
    }
    proof {
        assert(ticks@.skip(n as int) =~= Seq::<Tick>::empty());
    }
    FlowStatus::Waiting
}

/// Within one tick the checks happen in a fixed order: the deadline, then
/// whether the surface was closed, then the redirect. A tick keeps the
/// flow waiting exactly when it is within the deadline and shows an open
/// surface whose location is not a matching redirect.
pub open spec fn observes_no_redirect(cfg: FlowConfig, t: Tick) -> bool {
    &&& t.elapsed_ms < cfg.flow_timeout_ms
    &&& match t.seen {
        SurfaceObservation::Location(u) => !(is_prefix_of(cfg.redirect_prefix@, u@) && code_param(
            u@,
        ) is Some),
        _ => false,
    }
}

/// A tick keeps the flow waiting exactly when it observes no redirect.
pub proof fn lemma_pending_is_no_redirect(cfg: FlowConfig, t: Tick)
    ensures
        tick_outcome(cfg, t) is Pending <==> observes_no_redirect(cfg, t),
{
}

/// If every tick before `k` keeps the flow waiting, the run's outcome is
/// the decision of tick `k`, provided that decision is terminal.
pub proof fn lemma_run_reaches_tick(cfg: FlowConfig, ticks: Seq<Tick>, k: int)
    requires
        0 <= k < ticks.len(),
        forall|i: int| 0 <= i < k ==> observes_no_redirect(cfg, #[trigger] ticks[i]),
        !(tick_outcome(cfg, ticks[k]) is Pending),
    ensures
        run_flow(cfg, ticks) == tick_outcome(cfg, ticks[k]),
    decreases k,
{
    if k == 0 {
    } else {
        assert(tick_outcome(cfg, ticks[0]) is Pending) by {
            lemma_pending_is_no_redirect(cfg, ticks[0]);
        }
        let rest = ticks.drop_first();
        assert forall|i: int| 0 <= i < k - 1 implies observes_no_redirect(
            cfg,
            #[trigger] rest[i],
        ) by {
            assert(rest[i] == ticks[i + 1]);
        }
        assert(rest[k - 1] == ticks[k]);
        lemma_run_reaches_tick(cfg, rest, k - 1);
    }
}

/// A flow that never sees a matching redirect within the deadline times
/// out: every tick up to `k` shows an open, non-matching surface, and at
/// tick `k` the deadline has passed. The run returns no credential and no
/// error, and nothing else of it ever reaches the store.
pub proof fn lemma_no_redirect_times_out(cfg: FlowConfig, ticks: Seq<Tick>, k: int)
    requires
        0 <= k < ticks.len(),
        forall|i: int| 0 <= i < k ==> observes_no_redirect(cfg, #[trigger] ticks[i]),
        ticks[k].elapsed_ms >= cfg.flow_timeout_ms,
    ensures
        run_flow(cfg, ticks) == FlowEnd::TimedOut,
        flow_credential(run_flow(cfg, ticks)) is None,
{
    lemma_run_reaches_tick(cfg, ticks, k);
}

/// A flow whose surface is closed before any redirect is cancelled: the
/// same credential-free shape as a timeout.
pub proof fn lemma_surface_closed_cancels(cfg: FlowConfig, ticks: Seq<Tick>, k: int)
    requires
        0 <= k < ticks.len(),
        forall|i: int| 0 <= i < k ==> observes_no_redirect(cfg, #[trigger] ticks[i]),
        ticks[k].elapsed_ms < cfg.flow_timeout_ms,
        ticks[k].seen is Closed,
    ensures
        run_flow(cfg, ticks) == FlowEnd::Cancelled,
        flow_credential(run_flow(cfg, ticks)) == flow_credential(FlowEnd::TimedOut),
        flow_credential(run_flow(cfg, ticks)) is None,
{
    lemma_run_reaches_tick(cfg, ticks, k);
}

/// A flow that observes a matching redirect carrying a `code` parameter
/// accepts exactly that code: the run ends at the first such tick, with
/// one exchange owed for the one accepted code.
pub proof fn lemma_redirect_accepts_code(cfg: FlowConfig, ticks: Seq<Tick>, k: int, c: Seq<u8>)
    requires
        0 <= k < ticks.len(),
        forall|i: int| 0 <= i < k ==> observes_no_redirect(cfg, #[trigger] ticks[i]),
        ticks[k].elapsed_ms < cfg.flow_timeout_ms,
        ticks[k].seen matches SurfaceObservation::Location(u) && is_prefix_of(
            cfg.redirect_prefix@,
            u@,
        ) && code_param(u@) == Some(c),
    ensures
        run_flow(cfg, ticks) == (FlowEnd::Accepted { code: c }),
        flow_credential(run_flow(cfg, ticks)) == Some(c),
{
    lemma_run_reaches_tick(cfg, ticks, k);
}

/// The credential-bearing part of an outcome: only an accepted code
/// carries one. Cancellation and timeout are indistinguishable here by
/// design.
pub open spec fn flow_credential(e: FlowEnd) -> Option<Seq<u8>> {
    match e {
        FlowEnd::Accepted { code } => Some(code),
        _ => None,
    }
}

/// Conclude a finished session for the caller: an accepted code comes
/// back as `Ok(Some(code))`, cancellation and timeout alike as
/// `Ok(None)`, and a surface failure as the surface error.
pub fn conclude(status: FlowStatus) -> (r: Result<Option<Vec<u8>>, AuthError>)
    requires
        !(status is Waiting),
    ensures
        status matches FlowStatus::Accepted(v) ==> r matches Ok(o) && o matches Some(w) && w@
            == v@,
        status is Cancelled || status is TimedOut ==> r == Ok::<Option<Vec<u8>>, AuthError>(None),
        status is Failed ==> r == Err::<Option<Vec<u8>>, AuthError>(AuthError::Surface),
{
    match status {
        FlowStatus::Waiting => Err(AuthError::Surface),
        FlowStatus::Cancelled => Ok(None),
        FlowStatus::TimedOut => Ok(None),
        FlowStatus::Failed => Err(AuthError::Surface),
        FlowStatus::Accepted(v) => Ok(Some(v)),
    }
}

} // verus!
