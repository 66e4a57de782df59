//! Blocking retry coordinator: a cancellable, superseding retry/backoff
//! state machine.
//!
//! A trigger signal (a navigation-commit keystroke) starts a session that
//! repeatedly re-checks whether the now-focused target is blocked,
//! because the native backend may not reflect the navigation instantly.
//! At most one session is current: a new trigger supersedes the previous
//! session, whose next step observes the superseding and stops without
//! enforcing anything. Sleeps are commanded in small chunks so a
//! superseded session reacts within one chunk, not a full backoff window.
//! Sessions are compared by identity — a monotonically increasing id —
//! never by a shared flag, so a stale session cannot clobber the
//! bookkeeping of the session that replaced it.

use vstd::prelude::*;
use vstd::arithmetic::power2::{lemma2_to64, lemma_pow2_strictly_increases, lemma_pow2_unfold, pow2};

verus! {

/// Timing and attempt limits for one retry session. All durations are in
/// milliseconds.
#[derive(Debug, Clone, Copy, PartialEq, Eq, Structural)]
pub struct RetryPolicy {
    /// How many failed checks end the session as exhausted.
    pub max_attempts: u32,
    /// The backoff before the second and later checks doubles from this.
    pub base_delay_ms: u64,
    /// The settle delay before the first check.
    pub initial_delay_ms: u64,
    /// Sleeps are commanded in chunks of at most this, so cancellation is
    /// observed promptly.
    pub chunk_ms: u64,
}

/// The bounds under which the session arithmetic cannot overflow.
pub open spec fn policy_wf(p: RetryPolicy) -> bool {
    &&& 1 <= p.max_attempts <= 30
    &&& 1 <= p.base_delay_ms <= 1000000
    &&& p.initial_delay_ms <= 1000000
    &&& 1 <= p.chunk_ms
}

impl Default for RetryPolicy {
    /// The standard timing: five attempts, 500 ms base delay doubling
    /// each attempt, 50 ms settle delay, 100 ms cancellation granularity.
    fn default() -> (r: Self)
        ensures
            r == (RetryPolicy {
                max_attempts: 5,
                base_delay_ms: 500,
                initial_delay_ms: 50,
                chunk_ms: 100,
            }),
            policy_wf(r),
    {
        RetryPolicy { max_attempts: 5, base_delay_ms: 500, initial_delay_ms: 50, chunk_ms: 100 }
    }
}

/// How a session ended. All three are terminal; no session resumes.
#[derive(Debug, Clone, Copy, PartialEq, Eq, Structural)]
pub enum SessionOutcome {
    /// A check found the target blocked and enforcement was requested.
    Success,
    /// Every allowed check failed; blocking-on-navigate is best effort,
    /// so this is a logged outcome, not an error.
    Exhausted,
    /// A newer session superseded this one before it could finish.
    Cancelled,
}

/// Where a session stands between steps.
#[derive(Debug, Clone, Copy, PartialEq, Eq, Structural)]
pub enum SessionPhase {
    /// Working through a commanded sleep (the settle delay or a backoff).
    Sleeping,
    /// The sleep is drained; the next step is a blocked-target check.
    AwaitingCheck,
    Stopped(SessionOutcome),
}

/// What the driver of a session must do next.
#[derive(Debug, Clone, Copy, PartialEq, Eq, Structural)]
pub enum RetryAction {
    /// Sleep this many milliseconds, then poll again.
    Sleep(u64),
    /// Query whether the focused target is blocked and report the result.
    Check,
    /// Invoke the native enforcement call; the session has succeeded.
    Enforce,
    /// Nothing to perform; poll again.
    Continue,
    /// The session has stopped; stop driving it.
    Exit,
}

/// The backoff commanded after the check numbered `attempt` fails:
/// `base * 2^attempt`.
pub open spec fn backoff_delay_ms(base: u64, attempt: nat) -> nat
    decreases attempt,
{
    if attempt == 0 {
        base as nat
    } else {
        2 * backoff_delay_ms(base, (attempt - 1) as nat)
    }
}

/// The total backoff commanded over the first `n` failed checks.
pub open spec fn backoff_total_ms(base: u64, n: nat) -> nat
    decreases n,
{
    if n == 0 {
        0
    } else {
        backoff_total_ms(base, (n - 1) as nat) + backoff_delay_ms(base, (n - 1) as nat)
    }
}

/// All sleep a session has been commanded once it reaches `attempt`
/// failed checks: the settle delay plus the backoffs so far.
pub open spec fn scheduled_ms(p: RetryPolicy, attempt: nat) -> nat {
    (p.initial_delay_ms + backoff_total_ms(p.base_delay_ms, attempt)) as nat
}

/// Each backoff stays under `1000000 * 2^attempt` milliseconds.
proof fn lemma_backoff_delay_le_pow2(base: u64, n: nat)
    requires
        base <= 1000000,
    ensures
        backoff_delay_ms(base, n) <= 1000000 * pow2(n),
    decreases n,
{
    if n == 0 {
        lemma2_to64();
    } else {
        lemma_backoff_delay_le_pow2(base, (n - 1) as nat);
        lemma_pow2_unfold(n);
        assert(2 * (1000000 * pow2((n - 1) as nat)) == 1000000 * (2 * pow2((n - 1) as nat)))
            by (nonlinear_arith);
    }
}

/// A numeric cap on one backoff: with a base of at most a million
/// milliseconds and at most thirty attempts, no single backoff passes
/// `2^29` million milliseconds.
proof fn lemma_backoff_delay_bound(base: u64, n: nat)
    requires
        base <= 1000000,
        n <= 29,
    ensures
        backoff_delay_ms(base, n) <= 536870912000000,
{
    lemma_backoff_delay_le_pow2(base, n);
    lemma2_to64();
    if n < 29 {
        lemma_pow2_strictly_increases(n, 29);
    }
    assert(1000000 * pow2(n) <= 1000000 * 536870912) by (nonlinear_arith)
        requires
            pow2(n) <= 536870912,
    ;
}

/// A numeric cap on the total backoff of a whole session.
proof fn lemma_backoff_total_bound(base: u64, n: nat)
    requires
        base <= 1000000,
        n <= 30,
    ensures
        backoff_total_ms(base, n) <= n * 536870912000000,
    decreases n,
{
    if n > 0 {
        lemma_backoff_total_bound(base, (n - 1) as nat);
        lemma_backoff_delay_bound(base, (n - 1) as nat);
    }
}

/// A numeric cap on everything a session can be commanded to sleep.
proof fn lemma_scheduled_bound(p: RetryPolicy, attempt: nat)
    requires
        policy_wf(p),
        attempt <= 30,
    ensures
        scheduled_ms(p, attempt) <= 16106127361000000,
{
    lemma_backoff_total_bound(p.base_delay_ms, attempt);
    assert(attempt * 536870912000000 <= 30 * 536870912000000) by (nonlinear_arith)
        requires
            attempt <= 30,
    ;
}

/// One in-flight retry attempt. The counters make the session's history
/// observable: how many checks it made and how much sleep it was
/// commanded.
#[derive(Debug, Clone, Copy, PartialEq, Eq, Structural)]
pub struct BlockingSession {
    /// The identity a session is compared by; larger ids supersede.
    pub id: u64,
    pub policy: RetryPolicy,
    /// Failed checks so far.
    pub attempt: u32,
    /// Set once the session observes that it was superseded.
    pub cancelled: bool,
    pub phase: SessionPhase,
    /// What is left of the currently commanded sleep.
    pub remaining_sleep_ms: u64,
    /// Checks performed so far.
    pub checks_made: u32,
    /// Sleep commanded and acknowledged so far.
    pub slept_ms: u64,
}

/// The accounting a session maintains between steps: the counters agree
/// with the phase, and commanded sleep always sums to the schedule for
/// the current attempt.
pub open spec fn session_wf(s: BlockingSession) -> bool {
    &&& policy_wf(s.policy)
    &&& s.attempt <= s.policy.max_attempts
    &&& s.checks_made <= s.policy.max_attempts
    &&& match s.phase {
        SessionPhase::Sleeping => {
            &&& s.checks_made == s.attempt
            &&& s.slept_ms + s.remaining_sleep_ms == scheduled_ms(s.policy, s.attempt as nat)
        },
        SessionPhase::AwaitingCheck => {
            &&& s.checks_made == s.attempt
            &&& s.attempt < s.policy.max_attempts
            &&& s.remaining_sleep_ms == 0
            &&& s.slept_ms == scheduled_ms(s.policy, s.attempt as nat)
        },
        SessionPhase::Stopped(outcome) => match outcome {
            SessionOutcome::Success => {
                &&& s.checks_made == s.attempt + 1
                &&& s.slept_ms == scheduled_ms(s.policy, s.attempt as nat)
            },
            SessionOutcome::Exhausted => {
                &&& s.attempt == s.policy.max_attempts
                &&& s.checks_made == s.policy.max_attempts
                &&& s.slept_ms == scheduled_ms(s.policy, s.attempt as nat)
            },
            SessionOutcome::Cancelled => true,
        },
    }
}

/// The registry of the one current session. `next_id` only grows, and the
/// current session — when there is one — always carries an id below it.
#[derive(Debug, Clone, Copy)]
pub struct RetryCoordinator {
    pub next_id: u64,
    pub current: Option<u64>,
}

/// Ids handed out so far lie below `next_id`.
pub open spec fn coordinator_wf(c: RetryCoordinator) -> bool {
    match c.current {
        Some(id) => id < c.next_id,
        None => true,
    }
}

impl RetryCoordinator {
    /// No session yet; ids start at zero.
    pub fn new() -> (r: Self)
        ensures
            r.next_id == 0,
            r.current is None,
            coordinator_wf(r),
    {
        RetryCoordinator { next_id: 0, current: None }
    }

    /// The trigger signal: supersedes whatever session is current — its
    /// next step will observe that it is no longer registered — and
    /// registers a fresh session, which starts with the settle delay.
    pub fn trigger_blocking_retry(&mut self, policy: RetryPolicy) -> (s: BlockingSession)
        requires
            policy_wf(policy),
            coordinator_wf(*old(self)),
            old(self).next_id < u64::MAX,
        ensures
            coordinator_wf(*final(self)),
            s.id == old(self).next_id,
            final(self).next_id == old(self).next_id + 1,
            final(self).current == Some(s.id),
            old(self).current matches Some(c) ==> c != s.id,
            s.policy == policy,
            s.attempt == 0,
            !s.cancelled,
            s.phase == SessionPhase::Sleeping,
            s.remaining_sleep_ms == policy.initial_delay_ms,
            s.checks_made == 0,
            s.slept_ms == 0,
            session_wf(s),
    {
        let id = self.next_id;
        self.next_id = self.next_id + 1;
        self.current = Some(id);
        BlockingSession {
            id,
            policy,
            attempt: 0,
            cancelled: false,
            phase: SessionPhase::Sleeping,
            remaining_sleep_ms: policy.initial_delay_ms,
            checks_made: 0,
            slept_ms: 0,
        }
    }

    /// Whether this session has been superseded: it is no longer the
    /// registered current session.
    pub fn is_superseded(&self, session: &BlockingSession) -> (r: bool)
        ensures
            r == (self.current != Some(session.id)),
    {
        match self.current {
            Some(c) => c != session.id,
            None => true,
        }
    }

    /// A session reports that it stopped. Only the session that is still
    /// registered clears the registration: identities are compared, so a
    /// superseded session's exit never clobbers the bookkeeping of the
    /// session that replaced it.
    pub fn session_finished(&mut self, id: u64)
        ensures
            final(self).next_id == old(self).next_id,
            final(self).current == if old(self).current == Some(id) {
                None::<u64>
            } else {
                old(self).current
            },
    {
        let clear = match self.current {
            Some(c) => c == id,
            None => false,
        };
        if clear {
            self.current = None;
        }
    }
}

/// Ends any blocking activity: the current session — if one is in flight
/// — is superseded, so its next step stops it without enforcement.
pub fn stop_blocking(coord: &mut RetryCoordinator)
    ensures
        final(coord).current is None,
        final(coord).next_id == old(coord).next_id,
        coordinator_wf(*old(coord)) ==> coordinator_wf(*final(coord)),
{
    coord.current = None;
}

/// What one poll does to a session, given which session is currently
/// registered. A stopped session is left alone; a superseded one stops as
/// cancelled; otherwise the session works through its sleep in chunks and
/// asks for a check when the sleep is drained — or stops as exhausted
/// when no checks are left.
pub open spec fn poll_spec(s: BlockingSession, current: Option<u64>)
    -> (BlockingSession, RetryAction)
{
    if s.phase is Stopped {
        (s, RetryAction::Exit)
    } else if current != Some(s.id) {
        (
            BlockingSession {
                cancelled: true,
                phase: SessionPhase::Stopped(SessionOutcome::Cancelled),
                ..s
            },
            RetryAction::Exit,
        )
    } else if s.phase is AwaitingCheck {
        (s, RetryAction::Check)
    } else if s.remaining_sleep_ms == 0 {
        if s.attempt >= s.policy.max_attempts {
            (
                BlockingSession {
                    phase: SessionPhase::Stopped(SessionOutcome::Exhausted),
                    ..s
                },
                RetryAction::Exit,
            )
        } else {
            (BlockingSession { phase: SessionPhase::AwaitingCheck, ..s }, RetryAction::Check)
        }
    } else {
        let c = if s.policy.chunk_ms <= s.remaining_sleep_ms {
            s.policy.chunk_ms
        } else {
            s.remaining_sleep_ms
        };
        (
            BlockingSession {
                remaining_sleep_ms: (s.remaining_sleep_ms - c) as u64,
                slept_ms: (s.slept_ms + c) as u64,
                ..s
            },
            RetryAction::Sleep(c),
        )
    }
}

/// What reporting a check result does to a session. A superseded session
/// stops as cancelled and never enforces; a blocked verdict stops the
/// session with success and requests enforcement; a clear verdict
/// schedules the next backoff, doubled from the last.
pub open spec fn report_check_spec(s: BlockingSession, current: Option<u64>, blocked: bool)
    -> (BlockingSession, RetryAction)
{
    if current != Some(s.id) {
        (
            BlockingSession {
                cancelled: true,
                phase: SessionPhase::Stopped(SessionOutcome::Cancelled),
                ..s
            },
            RetryAction::Exit,
        )
    } else if blocked {
        (
            BlockingSession {
                checks_made: (s.checks_made + 1) as u32,
                phase: SessionPhase::Stopped(SessionOutcome::Success),
                ..s
            },
            RetryAction::Enforce,
        )
    } else {
        (
            BlockingSession {
                checks_made: (s.checks_made + 1) as u32,
                attempt: (s.attempt + 1) as u32,
                remaining_sleep_ms: backoff_delay_ms(
                    s.policy.base_delay_ms,
                    s.attempt as nat,
                ) as u64,
                phase: SessionPhase::Sleeping,
                ..s
            },
            RetryAction::Continue,
        )
    }
}

/// The backoff after the check numbered `attempt` fails, computed by
/// doubling.
fn backoff_delay(base: u64, attempt: u32) -> (r: u64)
    requires
        1 <= base <= 1000000,
        attempt <= 29,
    ensures
        r == backoff_delay_ms(base, attempt as nat),
{
    let mut r: u64 = base;
    let mut i: u32 = 0;
    while i < attempt
        invariant
            i <= attempt,
            attempt <= 29,
            base <= 1000000,
            r == backoff_delay_ms(base, i as nat),
        decreases attempt - i,
    {
        proof {
            lemma_backoff_delay_bound(base, i as nat);
        }
        r = r * 2;
        i = i + 1;
    }
    r
}

/// One poll of a session: behaves exactly as [`poll_spec`] describes, and
/// preserves the session accounting.
pub fn poll(s: &mut BlockingSession, coord: &RetryCoordinator) -> (a: RetryAction)
    requires
        session_wf(*old(s)),
    ensures
        *final(s) == poll_spec(*old(s), coord.current).0,
        a == poll_spec(*old(s), coord.current).1,
        session_wf(*final(s)),
{
    let stopped = match s.phase {
        SessionPhase::Stopped(_) => true,
        _ => false,
    };
    if stopped {
        return RetryAction::Exit;
    }
    if coord.is_superseded(s) {
        s.cancelled = true;
        s.phase = SessionPhase::Stopped(SessionOutcome::Cancelled);
        return RetryAction::Exit;
    }
    let awaiting = match s.phase {
        SessionPhase::AwaitingCheck => true,
        _ => false,
    };
    if awaiting {
        return RetryAction::Check;
    }
    if s.remaining_sleep_ms == 0 {
        if s.attempt >= s.policy.max_attempts {
            s.phase = SessionPhase::Stopped(SessionOutcome::Exhausted);
            return RetryAction::Exit;
        }
        s.phase = SessionPhase::AwaitingCheck;
        return RetryAction::Check;
    }
    let c = if s.policy.chunk_ms <= s.remaining_sleep_ms {
        s.policy.chunk_ms
    } else {
        s.remaining_sleep_ms
    };
    proof {
        lemma_scheduled_bound(s.policy, s.attempt as nat);
    }
    s.remaining_sleep_ms = s.remaining_sleep_ms - c;
    s.slept_ms = s.slept_ms + c;
    RetryAction::Sleep(c)
}

/// Reports one check result to a session awaiting it: behaves exactly as
/// [`report_check_spec`] describes, and preserves the session accounting.
pub fn report_check(s: &mut BlockingSession, coord: &RetryCoordinator, blocked: bool)
    -> (a: RetryAction)
    requires
        session_wf(*old(s)),
        old(s).phase == SessionPhase::AwaitingCheck,
    ensures
        *final(s) == report_check_spec(*old(s), coord.current, blocked).0,
        a == report_check_spec(*old(s), coord.current, blocked).1,
        session_wf(*final(s)),
{
    if coord.is_superseded(s) {
        s.cancelled = true;
        s.phase = SessionPhase::Stopped(SessionOutcome::Cancelled);
        return RetryAction::Exit;
    }
    if blocked {
        s.checks_made = s.checks_made + 1;
        s.phase = SessionPhase::Stopped(SessionOutcome::Success);
        return RetryAction::Enforce;
    }
    let delay = backoff_delay(s.policy.base_delay_ms, s.attempt);
    s.checks_made = s.checks_made + 1;
    s.attempt = s.attempt + 1;
    s.remaining_sleep_ms = delay;
    s.phase = SessionPhase::Sleeping;
    RetryAction::Continue
}

/// A session that was already stopped is left exactly as it is: every
/// terminal state is terminal, so each session reaches at most one
/// terminal outcome.
pub proof fn lemma_stopped_session_stays_stopped(s: BlockingSession, current: Option<u64>)
    requires
        s.phase is Stopped,
    ensures
        poll_spec(s, current) == (s, RetryAction::Exit),
{
}

/// A superseded session's next poll observably cancels it — the flag is
/// set and the phase is terminal — and commands no enforcement and no
/// further checks.
pub proof fn lemma_superseded_poll_cancels(s: BlockingSession, current: Option<u64>)
    requires
        current != Some(s.id),
        !(s.phase is Stopped),
    ensures
        poll_spec(s, current).0.cancelled,
        poll_spec(s, current).0.phase == SessionPhase::Stopped(SessionOutcome::Cancelled),
        poll_spec(s, current).1 == RetryAction::Exit,
        poll_spec(s, current).0.checks_made == s.checks_made,
        poll_spec(s, current).1 != RetryAction::Enforce,
{
}

/// Even a check result that arrives after the session was superseded
/// never turns into enforcement: the session stops as cancelled.
pub proof fn lemma_superseded_check_never_enforces(
    s: BlockingSession,
    current: Option<u64>,
    blocked: bool,
)
    requires
        current != Some(s.id),
    ensures
        report_check_spec(s, current, blocked).0.cancelled,
        report_check_spec(s, current, blocked).0.phase
            == SessionPhase::Stopped(SessionOutcome::Cancelled),
        report_check_spec(s, current, blocked).1 != RetryAction::Enforce,
        report_check_spec(s, current, blocked).0.checks_made == s.checks_made,
{
}

/// Replays a fresh session against a fixed list of check results, without
/// waiting and without performing enforcement: commanded sleep
/// accumulates in `slept_ms`, and the returned pair gives the terminal
/// outcome and whether enforcement was requested. A session that is still
/// the current one succeeds on the first blocked verdict — after the
/// settle delay and one doubled backoff per failed check — or exhausts
/// its attempts; a superseded session stops at once as cancelled.
pub fn run_session(s: &mut BlockingSession, coord: &RetryCoordinator, checks: &Vec<bool>)
    -> (r: (SessionOutcome, bool))
    requires
        session_wf(*old(s)),
        !old(s).cancelled,
        old(s).phase == SessionPhase::Sleeping,
        old(s).attempt == 0,
        old(s).checks_made == 0,
        old(s).slept_ms == 0,
        checks@.len() >= old(s).policy.max_attempts,
    ensures
        session_wf(*final(s)),
        final(s).id == old(s).id,
        final(s).policy == old(s).policy,
        final(s).phase == SessionPhase::Stopped(r.0),
        coord.current != Some(old(s).id) ==> {
            &&& r.0 == SessionOutcome::Cancelled
            &&& final(s).cancelled
            &&& final(s).checks_made == 0
            &&& !r.1
        },
        coord.current == Some(old(s).id) ==> {
            &&& r.0 != SessionOutcome::Cancelled
            &&& (r.0 == SessionOutcome::Success <==> exists|i: int|
                0 <= i < old(s).policy.max_attempts && checks@[i])
            &&& (r.0 == SessionOutcome::Success <==> r.1)
            &&& (r.0 == SessionOutcome::Success ==> {
                let j = final(s).checks_made - 1;
                &&& 1 <= final(s).checks_made <= old(s).policy.max_attempts
                &&& checks@[j]
                &&& (forall|i: int| 0 <= i < j ==> !checks@[i])
                &&& final(s).slept_ms == scheduled_ms(old(s).policy, j as nat)
            })
            &&& (r.0 == SessionOutcome::Exhausted ==> {
                &&& final(s).checks_made == old(s).policy.max_attempts
                &&& (forall|i: int| 0 <= i < old(s).policy.max_attempts ==> !checks@[i])
                &&& final(s).slept_ms == scheduled_ms(
                    old(s).policy,
                    old(s).policy.max_attempts as nat,
                )
            })
        },
{
    let is_current = match coord.current {
        Some(c) => c == s.id,
        None => false,
    };
    if !is_current {
        let a = poll(s, coord);
        return (SessionOutcome::Cancelled, false);
    }
    let mut idx: usize = 0;
    loop
        invariant
            session_wf(*s),
            s.id == old(s).id,
            s.policy == old(s).policy,
            coord.current == Some(old(s).id),
            !s.cancelled,
            s.phase == SessionPhase::Sleeping,
            idx == s.checks_made,
            forall|i: int| 0 <= i < s.checks_made ==> !checks@[i],
            checks@.len() >= s.policy.max_attempts,
        decreases
            s.policy.max_attempts - s.attempt,
            s.remaining_sleep_ms,
    {
        let a = poll(s, coord);
        match a {
            RetryAction::Sleep(_) => {},
            RetryAction::Check => {
                let blocked = checks[idx];
                idx = idx + 1;
                let a2 = report_check(s, coord, blocked);
                match a2 {
                    RetryAction::Enforce => {
                        return (SessionOutcome::Success, true);
                    },
                    RetryAction::Continue => {},
                    _ => {
                        proof {
                            assert(false);
                        }
                    },
                }
            },
            RetryAction::Exit => {
                return (SessionOutcome::Exhausted, false);
            },
            _ => {
                proof {
                    assert(false);
                }
            },
        }
    }
}

} // verus!
