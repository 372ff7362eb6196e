//! A scheduled run of a check-in task for one day, and its state machine.

use vstd::prelude::*;

use crate::domain::error::DomainError;
use crate::domain::school::policy::{BusinessDecision, SchoolBusinessDecider, business_decision_for};
use crate::text::{is_blank, str_is_blank};
use crate::time::{Date, UtcTime};

verus! {

/// Where a run stands.
#[derive(Debug, Clone, Copy, PartialEq, Eq, Structural)]
pub enum RunState {
    Pending,
    Waiting,
    Running,
    Finished,
    Failed,
    Expired,
    Canceled,
}

/// What happens to a run.
#[derive(Debug, Clone, Copy, PartialEq, Eq, Structural)]
pub enum RunEvent {
    Enqueue,
    Start,
    Succeed,
    Fail,
    Expire,
    Cancel,
}

/// The states a run never leaves.
pub open spec fn is_terminal(s: RunState) -> bool {
    s is Finished || s is Failed || s is Expired || s is Canceled
}

/// The fields of a run.
pub struct RunView {
    pub run_id: u128,
    pub task_id: u128,
    pub school_user_id: Seq<char>,
    pub date: Date,
    pub state: RunState,
    pub attempt_no: u32,
    pub scheduled_at: UtcTime,
    pub started_at: Option<UtcTime>,
    pub finished_at: Option<UtcTime>,
    pub next_retry_at: Option<UtcTime>,
}

/// The run after `event` at `now`, or `None` where the event is not allowed
/// in the run's state: a pending run is enqueued; a waiting run is started,
/// which counts an attempt; a running run succeeds; pending and waiting runs
/// expire; any run not yet ended is canceled. A failure is never applied as an
/// event (see `SchoolSignRun::apply_failure_after_error`).
pub open spec fn step(v: RunView, event: RunEvent, now: UtcTime) -> Option<RunView> {
    match event {
        RunEvent::Enqueue => if v.state is Pending {
            Some(RunView { state: RunState::Waiting, ..v })
        } else {
            None
        },
        RunEvent::Start => if v.state is Waiting {
            Some(
                RunView {
                    state: RunState::Running,
                    started_at: Some(now),
                    finished_at: None,
                    next_retry_at: None,
                    attempt_no: (v.attempt_no + 1) as u32,
                    ..v
                },
            )
        } else {
            None
        },
        RunEvent::Succeed => if v.state is Running {
            Some(
                RunView {
                    state: RunState::Finished,
                    finished_at: Some(now),
                    next_retry_at: None,
                    ..v
                },
            )
        } else {
            None
        },
        RunEvent::Fail => None,
        RunEvent::Expire => if v.state is Pending || v.state is Waiting {
            Some(RunView { state: RunState::Expired, finished_at: Some(now), next_retry_at: None, ..v })
        } else {
            None
        },
        RunEvent::Cancel => if v.state is Pending || v.state is Waiting || v.state is Running {
            Some(
                RunView {
                    state: RunState::Canceled,
                    finished_at: Some(now),
                    next_retry_at: None,
                    ..v
                },
            )
        } else {
            None
        },
    }
}

/// `2^e`.
pub open spec fn pow2(e: nat) -> int
    decreases e,
{
    if e == 0 {
        1
    } else {
        2 * pow2((e - 1) as nat)
    }
}

/// `x` clamped to the range of `i64`.
pub open spec fn saturate_i64(x: int) -> i64 {
    if x > i64::MAX {
        i64::MAX
    } else if x < i64::MIN {
        i64::MIN
    } else {
        x as i64
    }
}

/// The retry delay in seconds after attempt `attempt_no`: the base delay
/// doubled for each attempt after the first, doubling at most 30 times, and
/// saturated to `i64`.
pub open spec fn retry_delay_secs(base: i64, attempt_no: u32) -> i64 {
    let safe = if attempt_no < 1 {
        1
    } else {
        attempt_no as int
    };
    let exp = if safe - 1 < 30 {
        safe - 1
    } else {
        30
    };
    saturate_i64(base * pow2(exp as nat))
}

/// Exponential back-off between attempts.
#[derive(Debug, Clone, Copy)]
pub struct DelayPolicy {
    pub base_delay_seconds: i64,
}

impl DelayPolicy {
    /// The instant of the next attempt after attempt `attempt_no`.
    pub fn next_retry_at(&self, attempt_no: u32, now: UtcTime) -> (r: UtcTime)
        requires
            now.can_add_seconds(retry_delay_secs(self.base_delay_seconds, attempt_no)),
        ensures
            r.secs_spec() == now.secs_spec() + retry_delay_secs(self.base_delay_seconds, attempt_no),
            r.nanos_spec() == now.nanos_spec(),
    {
        let safe_attempt = if attempt_no < 1 {
            1
        } else {
            attempt_no
        };
        let minus_one = safe_attempt - 1;
        let exp = if minus_one < 30 {
            minus_one
        } else {
            30
        };
        let mut factor: i64 = 1;
        let mut k: u32 = 0;
        while k < exp
            invariant
                k <= exp <= 30,
                factor == pow2(k as nat),
                pow2(k as nat) <= 0x4000_0000,
            decreases exp - k,
        {
            proof {
                lemma_pow2_bound((k + 1) as nat);
            }
            factor = factor * 2;
            k = k + 1;
        }
        let product: i128 = self.base_delay_seconds as i128 * factor as i128;
        let delay: i64 = if product > i64::MAX as i128 {
            i64::MAX
        } else if product < i64::MIN as i128 {
            i64::MIN
        } else {
            product as i64
        };
        now.add_seconds(delay)
    }
}

proof fn lemma_pow2_monotone(a: nat, b: nat)
    requires
        a <= b,
    ensures
        1 <= pow2(a) <= pow2(b),
    decreases b,
{
    if b > a {
        lemma_pow2_monotone(a, (b - 1) as nat);
    } else if a > 0 {
        lemma_pow2_monotone((a - 1) as nat, (a - 1) as nat);
    }
}

proof fn lemma_pow2_bound(e: nat)
    requires
        e <= 30,
    ensures
        1 <= pow2(e) <= 0x4000_0000,
        e < 30 ==> pow2(e) <= 0x2000_0000,
{
    assert(pow2(30) == 0x4000_0000) by {
        reveal_with_fuel(pow2, 31);
    }
    lemma_pow2_monotone(e, 30);
    if e < 30 {
        lemma_pow2_monotone(e, 29);
    }
}

/// One day's run of a check-in task.
#[derive(Debug, Clone)]
pub struct SchoolSignRun {
    run_id: u128,
    task_id: u128,
    school_user_id: String,
    date: Date,
    state: RunState,
    attempt_no: u32,
    scheduled_at: UtcTime,
    started_at: Option<UtcTime>,
    finished_at: Option<UtcTime>,
    next_retry_at: Option<UtcTime>,
}

impl View for SchoolSignRun {
    type V = RunView;

    closed spec fn view(&self) -> RunView {
        RunView {
            run_id: self.run_id,
            task_id: self.task_id,
            school_user_id: self.school_user_id@,
            date: self.date,
            state: self.state,
            attempt_no: self.attempt_no,
            scheduled_at: self.scheduled_at,
            started_at: self.started_at,
            finished_at: self.finished_at,
            next_retry_at: self.next_retry_at,
        }
    }
}

/// The consistency of a run: it has an end time exactly when it has ended, a
/// retry time only while it waits, a start time exactly when it has been
/// attempted, and a running run has been attempted.
pub open spec fn run_wf(v: RunView) -> bool {
    &&& (v.finished_at is Some <==> is_terminal(v.state))
    &&& (v.next_retry_at is Some ==> v.state is Waiting)
    &&& (v.started_at is Some <==> v.attempt_no > 0)
    &&& (v.state is Running ==> v.attempt_no > 0)
}

/// The run after a failed attempt at `now`, given the business decision and
/// the retry instant: a retry puts it back to waiting until then; a stop
/// fails it; an already completed check-in finishes it.
pub open spec fn after_failure(v: RunView, decision: BusinessDecision, now: UtcTime, retry_at: UtcTime) -> RunView {
    match decision {
        BusinessDecision::Retry => RunView {
            state: RunState::Waiting,
            next_retry_at: Some(retry_at),
            finished_at: None,
            ..v
        },
        BusinessDecision::Stop => RunView {
            state: RunState::Failed,
            finished_at: Some(now),
            next_retry_at: None,
            ..v
        },
        BusinessDecision::Success => RunView {
            state: RunState::Finished,
            finished_at: Some(now),
            next_retry_at: None,
            ..v
        },
    }
}

impl SchoolSignRun {
    /// A pending run, not yet attempted; the student ID must not be blank.
    pub fn schedule(
        run_id: u128,
        task_id: u128,
        school_user_id: String,
        date: Date,
        scheduled_at: UtcTime,
    ) -> (r: Result<Self, DomainError>)
        ensures
            is_blank(school_user_id@) ==> r == Err::<Self, DomainError>(
                DomainError::BlankSchoolUserId,
            ),
            !is_blank(school_user_id@) ==> (r matches Ok(run) && run@ == (RunView {
                run_id,
                task_id,
                school_user_id: school_user_id@,
                date,
                state: RunState::Pending,
                attempt_no: 0,
                scheduled_at,
                started_at: None,
                finished_at: None,
                next_retry_at: None,
            }) && run_wf(run@)),
    {
        if str_is_blank(school_user_id.as_str()) {
            return Err(DomainError::BlankSchoolUserId);
        }
        Ok(
            SchoolSignRun {
                run_id,
                task_id,
                school_user_id,
                date,
                state: RunState::Pending,
                attempt_no: 0,
                scheduled_at,
                started_at: None,
                finished_at: None,
                next_retry_at: None,
            },
        )
    }

    /// Applies `event` at `now` as `step` says; an event that the state does
    /// not allow is refused and leaves the run unchanged.
    pub fn apply(&mut self, event: RunEvent, now: UtcTime) -> (r: Result<(), DomainError>)
        requires
            event is Start && old(self)@.state is Waiting ==> old(self)@.attempt_no < u32::MAX,
        ensures
            match step(old(self)@, event, now) {
                None => r == Err::<(), DomainError>(DomainError::InvalidStateTransition)
                    && final(self)@ == old(self)@,
                Some(v) => r is Ok && final(self)@ == v,
            },
            run_wf(old(self)@) ==> run_wf(final(self)@),
    {
        match event {
            RunEvent::Enqueue => self.enqueue(now),
            RunEvent::Start => self.mark_running(now),
            RunEvent::Succeed => self.mark_succeeded(now),
            RunEvent::Fail => Err(DomainError::InvalidStateTransition),
            RunEvent::Expire => self.mark_expired(now),
            RunEvent::Cancel => self.cancel(now),
        }
    }

    /// Applies a failed attempt of a running run: the business decider
    /// decides from the error and the retries made so far (attempts minus
    /// one), and the run moves as `after_failure` says, a retry being
    /// scheduled by `delay_policy`. A run that is not running is refused and
    /// left unchanged.
    pub fn apply_failure_after_error(
        &mut self,
        now: UtcTime,
        err: &DomainError,
        decider: &SchoolBusinessDecider,
        delay_policy: &DelayPolicy,
    ) -> (r: Result<(), DomainError>)
        requires
            old(self)@.state is Running && business_decision_for(
                err.kind_spec(),
                (if old(self)@.attempt_no >= 1 {
                    old(self)@.attempt_no - 1
                } else {
                    0
                }) as u32,
                decider.config_spec().max_retry_spec(),
            ) is Retry ==> now.can_add_seconds(
                retry_delay_secs(delay_policy.base_delay_seconds, old(self)@.attempt_no),
            ),
        ensures
            !(old(self)@.state is Running) ==> r == Err::<(), DomainError>(
                DomainError::InvalidStateTransition,
            ) && final(self)@ == old(self)@,
            old(self)@.state is Running ==> r is Ok && ({
                let d = business_decision_for(
                    err.kind_spec(),
                    (if old(self)@.attempt_no >= 1 {
                        old(self)@.attempt_no - 1
                    } else {
                        0
                    }) as u32,
                    decider.config_spec().max_retry_spec(),
                );
                &&& d is Retry ==> (final(self)@.next_retry_at matches Some(t) && t.secs_spec()
                    == now.secs_spec() + retry_delay_secs(
                    delay_policy.base_delay_seconds,
                    old(self)@.attempt_no,
                ) && t.nanos_spec() == now.nanos_spec())
                &&& final(self)@ == after_failure(
                    old(self)@,
                    d,
                    now,
                    if d is Retry {
                        final(self)@.next_retry_at->0
                    } else {
                        now
                    },
                )
            }),
            run_wf(old(self)@) ==> run_wf(final(self)@),
    {
        if !matches!(self.state, RunState::Running) {
            return Err(DomainError::InvalidStateTransition);
        }
        let attempted_retry_times = self.attempt_no.saturating_sub(1);
        match decider.decide_after_error(err, attempted_retry_times) {
            BusinessDecision::Retry => {
                self.state = RunState::Waiting;
                self.next_retry_at = Some(delay_policy.next_retry_at(self.attempt_no, now));
                self.finished_at = None;
                Ok(())
            },
            BusinessDecision::Stop => {
                self.state = RunState::Failed;
                self.finished_at = Some(now);
                self.next_retry_at = None;
                Ok(())
            },
            BusinessDecision::Success => {
                self.state = RunState::Finished;
                self.finished_at = Some(now);
                self.next_retry_at = None;
                Ok(())
            },
        }
    }

    fn enqueue(&mut self, _now: UtcTime) -> (r: Result<(), DomainError>)
        ensures
            match step(old(self)@, RunEvent::Enqueue, _now) {
                None => r == Err::<(), DomainError>(DomainError::InvalidStateTransition)
                    && final(self)@ == old(self)@,
                Some(v) => r is Ok && final(self)@ == v,
            },
    {
        match self.state {
            RunState::Pending => {
                self.state = RunState::Waiting;
                Ok(())
            },
            _ => Err(DomainError::InvalidStateTransition),
        }
    }

    fn mark_running(&mut self, now: UtcTime) -> (r: Result<(), DomainError>)
        requires
            old(self)@.state is Waiting ==> old(self)@.attempt_no < u32::MAX,
        ensures
            match step(old(self)@, RunEvent::Start, now) {
                None => r == Err::<(), DomainError>(DomainError::InvalidStateTransition)
                    && final(self)@ == old(self)@,
                Some(v) => r is Ok && final(self)@ == v,
            },
    {
        if !matches!(self.state, RunState::Waiting) {
            return Err(DomainError::InvalidStateTransition);
        }
        self.state = RunState::Running;
        self.started_at = Some(now);
        self.finished_at = None;
        self.next_retry_at = None;
        self.attempt_no = self.attempt_no + 1;
        Ok(())
    }

    fn mark_succeeded(&mut self, now: UtcTime) -> (r: Result<(), DomainError>)
        ensures
            match step(old(self)@, RunEvent::Succeed, now) {
                None => r == Err::<(), DomainError>(DomainError::InvalidStateTransition)
                    && final(self)@ == old(self)@,
                Some(v) => r is Ok && final(self)@ == v,
            },
    {
        if !matches!(self.state, RunState::Running) {
            return Err(DomainError::InvalidStateTransition);
        }
        self.state = RunState::Finished;
        self.finished_at = Some(now);
        self.next_retry_at = None;
        Ok(())
    }

    fn mark_expired(&mut self, now: UtcTime) -> (r: Result<(), DomainError>)
        ensures
            match step(old(self)@, RunEvent::Expire, now) {
                None => r == Err::<(), DomainError>(DomainError::InvalidStateTransition)
                    && final(self)@ == old(self)@,
                Some(v) => r is Ok && final(self)@ == v,
            },
    {
        match self.state {
            RunState::Pending | RunState::Waiting => {
                self.state = RunState::Expired;
                self.finished_at = Some(now);
                self.next_retry_at = None;
                Ok(())
            },
            _ => Err(DomainError::InvalidStateTransition),
        }
    }

    fn cancel(&mut self, now: UtcTime) -> (r: Result<(), DomainError>)
        ensures
            match step(old(self)@, RunEvent::Cancel, now) {
                None => r == Err::<(), DomainError>(DomainError::InvalidStateTransition)
                    && final(self)@ == old(self)@,
                Some(v) => r is Ok && final(self)@ == v,
            },
    {
        match self.state {
            RunState::Pending | RunState::Waiting | RunState::Running => {
                self.state = RunState::Canceled;
                self.finished_at = Some(now);
                self.next_retry_at = None;
                Ok(())
            },
            _ => Err(DomainError::InvalidStateTransition),
        }
    }

    pub fn state(&self) -> (r: RunState)
        ensures
            r == self@.state,
    {
        self.state
    }

    pub fn attempt_no(&self) -> (r: u32)
        ensures
            r == self@.attempt_no,
    {
        self.attempt_no
    }

    pub fn next_retry_at(&self) -> (r: Option<UtcTime>)
        ensures
            r == self@.next_retry_at,
    {
        self.next_retry_at
    }

    pub fn finished_at(&self) -> (r: Option<UtcTime>)
        ensures
            r == self@.finished_at,
    {
        self.finished_at
    }

    pub fn started_at(&self) -> (r: Option<UtcTime>)
        ensures
            r == self@.started_at,
    {
        self.started_at
    }
}

/// An ended run stays ended: no event applies to it.
pub proof fn lemma_terminal_is_final(v: RunView, event: RunEvent, now: UtcTime)
    requires
        is_terminal(v.state),
    ensures
        step(v, event, now) is None,
{
}

/// Every event that applies keeps a run consistent.
pub proof fn lemma_step_keeps_wf(v: RunView, event: RunEvent, now: UtcTime)
    requires
        run_wf(v),
        v.attempt_no < u32::MAX,
        step(v, event, now) is Some,
    ensures
        run_wf(step(v, event, now)->0),
{
}

/// Attempts are counted only by starting: every other event keeps the count,
/// and starting adds exactly one.
pub proof fn lemma_attempts_counted_on_start(v: RunView, event: RunEvent, now: UtcTime)
    requires
        step(v, event, now) is Some,
        v.attempt_no < u32::MAX,
    ensures
        step(v, event, now)->0.attempt_no == if event is Start {
            v.attempt_no + 1
        } else {
            v.attempt_no as int
        },
{
}

/// A failure never ends a run in any state but failed or finished, and a
/// retry puts it back to waiting.
pub proof fn lemma_failure_outcomes(v: RunView, d: BusinessDecision, now: UtcTime, retry_at: UtcTime)
    requires
        run_wf(v),
        v.state is Running,
    ensures
        run_wf(after_failure(v, d, now, retry_at)),
        after_failure(v, d, now, retry_at).state is Waiting || after_failure(v, d, now, retry_at).state is Failed
            || after_failure(v, d, now, retry_at).state is Finished,
        after_failure(v, d, now, retry_at).attempt_no == v.attempt_no,
{
}

/// A run that has not ended can be canceled at any time, running included:
/// it becomes canceled, ends at that instant with no retry pending, and keeps
/// its identity, date and attempts.
pub proof fn lemma_open_runs_can_be_canceled(v: RunView, now: UtcTime)
    requires
        !is_terminal(v.state),
    ensures
        step(v, RunEvent::Cancel, now) matches Some(w) && w.state is Canceled && w.finished_at
            == Some(now) && w.next_retry_at is None && w.run_id == v.run_id && w.task_id
            == v.task_id && w.school_user_id == v.school_user_id && w.date == v.date
            && w.attempt_no == v.attempt_no && w.scheduled_at == v.scheduled_at && w.started_at
            == v.started_at,
{
}

/// Which events a run accepts in which state: enqueue only while pending,
/// start only while waiting, success only while running, expiry only before
/// the run starts (pending or waiting), cancellation in any state not yet
/// ended; a failure is never accepted as an event.
pub proof fn lemma_events_allowed(v: RunView, event: RunEvent, now: UtcTime)
    ensures
        event is Enqueue ==> (step(v, event, now) is Some <==> v.state is Pending),
        event is Start ==> (step(v, event, now) is Some <==> v.state is Waiting),
        event is Succeed ==> (step(v, event, now) is Some <==> v.state is Running),
        event is Expire ==> (step(v, event, now) is Some <==> (v.state is Pending || v.state is Waiting)),
        event is Cancel ==> (step(v, event, now) is Some <==> !is_terminal(v.state)),
        event is Fail ==> step(v, event, now) is None,
{
}

/// Where an accepted event leads: enqueuing makes the run wait; starting
/// makes it run from that instant; success finishes it, expiry expires it
/// and cancellation cancels it, each ending it at that instant.
pub proof fn lemma_event_targets(v: RunView, event: RunEvent, now: UtcTime)
    requires
        step(v, event, now) is Some,
    ensures
        event is Enqueue ==> step(v, event, now)->0.state is Waiting,
        event is Start ==> step(v, event, now)->0.state is Running && step(v, event, now)->0.started_at
            == Some(now),
        event is Succeed ==> step(v, event, now)->0.state is Finished && step(v, event, now)->0.finished_at
            == Some(now),
        event is Expire ==> step(v, event, now)->0.state is Expired && step(v, event, now)->0.finished_at
            == Some(now),
        event is Cancel ==> step(v, event, now)->0.state is Canceled && step(v, event, now)->0.finished_at
            == Some(now),
{
}

/// The first retry waits the base delay, and so does a retry counted from no
/// attempt.
pub proof fn lemma_first_retry_waits_the_base(base: i64)
    ensures
        retry_delay_secs(base, 0) == base,
        retry_delay_secs(base, 1) == base,
{
}

/// The delay doubles from one attempt to the next, up to the thirty-first
/// attempt (for a base delay small enough not to saturate).
pub proof fn lemma_backoff_doubles(base: i64, attempt_no: u32)
    requires
        1 <= attempt_no <= 30,
        0 <= base <= 0x1_0000_0000,
    ensures
        retry_delay_secs(base, (attempt_no + 1) as u32) == 2 * retry_delay_secs(base, attempt_no),
{
    let e = (attempt_no - 1) as nat;
    lemma_pow2_bound(e);
    lemma_pow2_bound(e + 1);
    assert(pow2(e + 1) == 2 * pow2(e));
    assert(base * pow2(e) <= 0x1_0000_0000 * 0x2000_0000) by (nonlinear_arith)
        requires
            0 <= base <= 0x1_0000_0000,
            0 <= pow2(e) <= 0x2000_0000,
    ;
    assert(base * pow2(e + 1) <= 0x1_0000_0000 * 0x4000_0000) by (nonlinear_arith)
        requires
            0 <= base <= 0x1_0000_0000,
            0 <= pow2(e + 1) <= 0x4000_0000,
    ;
    assert(0 <= base * pow2(e)) by (nonlinear_arith)
        requires
            0 <= base,
            0 <= pow2(e),
    ;
    assert(base * pow2(e + 1) == 2 * (base * pow2(e))) by (nonlinear_arith)
        requires
            pow2(e + 1) == 2 * pow2(e),
    ;
}

/// From the thirty-first attempt on the delay stays the same.
pub proof fn lemma_backoff_capped(base: i64, attempt_no: u32)
    requires
        attempt_no >= 31,
    ensures
        retry_delay_secs(base, attempt_no) == retry_delay_secs(base, 31),
{
}

} // verus!
