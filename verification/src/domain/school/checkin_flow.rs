//! The check-in of one student for one task, as a state machine: from the
//! current stage and what the last outside step reported (an event), it
//! decides the next stage and the next outside step (an action). The caller
//! performs the actions (repository reads and writes, requests to the school)
//! and reports their outcomes back.

use vstd::prelude::*;

use crate::domain::error::DomainError;
use crate::domain::school::policy::{AuthDecision, SchoolAuthDecider, auth_decision_spec};
use crate::domain::school::session::SchoolSession;
use crate::domain::school::task::{SchoolSignTask, runnable_at_reading};
use crate::domain::school::token::SchoolToken;
use crate::text::{hyphenated_id, id_hyphenated, is_blank, str_is_blank};
use crate::time::{TimeZone, UtcTime, local_clock};

verus! {

/// What a check-in is asked to do.
#[derive(Debug)]
pub struct CheckinRequest {
    pub owner_user_id: u128,
    pub student_id: String,
    pub school_task_id: String,
    pub utc_now: UtcTime,
}

/// A completed check-in.
#[derive(Debug)]
pub struct ExecuteCheckinResult {
    pub school_task_id: String,
    pub task_title: String,
    pub occurred_at_utc: UtcTime,
}

/// How the session in use came to be.
#[derive(Debug, Clone, Copy, PartialEq, Eq, Structural)]
pub enum SessionBranch {
    Authenticated,
    Refreshed,
    Current,
}

/// A record that the repositories should have held and did not.
#[derive(Debug, Clone, Copy, PartialEq, Eq, Structural)]
pub enum MissingRecord {
    User,
    SessionAfterAuthentication,
    SessionBeforeRefresh,
    SessionAfterRefresh,
    CurrentSession,
}

/// Why a check-in failed.
#[derive(Debug)]
pub enum CheckinFailure {
    /// An error of a rule or of an outside step, passed on as it is.
    Error(DomainError),
    /// A stored record that should exist is missing.
    Missing(MissingRecord),
}

/// Where a check-in stands.
#[derive(Debug)]
pub enum CheckinStage {
    Start,
    AwaitUser,
    AwaitSession,
    AwaitAuthentication,
    AwaitSaved(SessionBranch),
    AwaitReloaded(SessionBranch),
    AwaitSessionToRefresh,
    AwaitRefresh(SchoolSession),
    AwaitTask(SchoolSession),
    AwaitContext(SchoolSession, SchoolSignTask),
    AwaitSubmit(SchoolSignTask),
    Finished,
}

/// The outside step to take next.
#[derive(Debug)]
pub enum CheckinAction {
    /// Load the school user of the request's owner and student.
    LoadUser,
    /// Load the stored session of the request's owner and student.
    LoadSession,
    /// Authenticate the loaded user with the school.
    Authenticate,
    /// Refresh this session's token with the school.
    Refresh(SchoolSession),
    /// Store this session.
    SaveSession(SchoolSession),
    /// Load the request's task of the student.
    LoadTask,
    /// Open the check-in page of the request's task with this session.
    PrepareContext(SchoolSession),
    /// Submit the check-in of the request's task with this session.
    Submit(SchoolSession),
    /// The check-in is done.
    Succeed(ExecuteCheckinResult),
    /// The check-in failed.
    Fail(CheckinFailure),
}

/// What an outside step reported.
#[derive(Debug)]
pub enum CheckinEvent {
    Started,
    /// Whether the user record was found.
    UserLoaded(Result<bool, DomainError>),
    SessionLoaded(Result<Option<SchoolSession>, DomainError>),
    Authenticated(Result<SchoolToken, DomainError>),
    Refreshed(Result<SchoolToken, DomainError>),
    SessionSaved(Result<(), DomainError>),
    TaskLoaded(Result<Option<SchoolSignTask>, DomainError>),
    ContextPrepared(Result<(), DomainError>),
    /// The outcome of building and submitting the check-in.
    Submitted(Result<(), DomainError>),
}

/// A check-in in progress.
#[derive(Debug)]
pub struct CheckinFlow {
    request: CheckinRequest,
    decider: SchoolAuthDecider,
    stage: CheckinStage,
}

/// The record missing after a reload on a branch.
pub open spec fn missing_after(b: SessionBranch) -> MissingRecord {
    match b {
        SessionBranch::Authenticated => MissingRecord::SessionAfterAuthentication,
        SessionBranch::Refreshed => MissingRecord::SessionAfterRefresh,
        SessionBranch::Current => MissingRecord::CurrentSession,
    }
}

/// A check-in finished with a failure: the last stage and the failing action.
pub open spec fn failed(f: CheckinFailure) -> (CheckinStage, CheckinAction) {
    (CheckinStage::Finished, CheckinAction::Fail(f))
}

/// Whether a task may run at an instant.
pub open spec fn task_runnable(task: SchoolSignTask, t: UtcTime) -> bool {
    runnable_at_reading(task@, local_clock(task@.time_zone, t.secs_spec(), t.nanos_spec()))
}

impl CheckinFlow {
    pub closed spec fn request_spec(self) -> CheckinRequest {
        self.request
    }

    pub closed spec fn decider_spec(self) -> SchoolAuthDecider {
        self.decider
    }

    pub closed spec fn stage_spec(self) -> CheckinStage {
        self.stage
    }

    #[verifier::type_invariant]
    pub open spec fn readable(self) -> bool {
        TimeZone::can_read(self.request_spec().utc_now)
    }

    /// A check-in about to start. The instant must be readable in a time zone
    /// (away from the ends of the representable range by a day).
    pub fn new(request: CheckinRequest, decider: SchoolAuthDecider) -> (r: CheckinFlow)
        requires
            TimeZone::can_read(request.utc_now),
        ensures
            r.request_spec() == request,
            r.decider_spec() == decider,
            r.stage_spec() is Start,
    {
        CheckinFlow { request, decider, stage: CheckinStage::Start }
    }

    /// The request of the check-in.
    pub fn request(&self) -> (r: &CheckinRequest)
        ensures
            *r == self.request_spec(),
    {
        &self.request
    }

    /// Whether the check-in is over.
    pub fn is_finished(&self) -> (r: bool)
        ensures
            r == self.stage_spec() is Finished,
    {
        match self.stage {
            CheckinStage::Finished => true,
            _ => false,
        }
    }
}

/// The next stage and action of a check-in on an event. Inputs are checked
/// before any outside step: a blank student ID, then a blank task ID, fail.
/// Then the user must exist; the stored session decides between a new
/// authentication, a refresh (of the session loaded anew) and the current
/// token; a new or refreshed session is stored and loaded back; the task must
/// exist and be runnable at the request's instant; the check-in page is
/// opened, then the check-in submitted. An error that a step reports ends the
/// check-in with that error; an event the stage does not await ends it as an
/// invalid transition.
pub open spec fn flow_step(flow: CheckinFlow, event: CheckinEvent) -> (CheckinStage, CheckinAction) {
    let req = flow.request_spec();
    match flow.stage_spec() {
        CheckinStage::Start => match event {
            CheckinEvent::Started => if is_blank(req.student_id@) {
                failed(CheckinFailure::Error(DomainError::BlankSchoolUserId))
            } else if is_blank(req.school_task_id@) {
                failed(CheckinFailure::Error(DomainError::BlankSchoolTaskId))
            } else {
                (CheckinStage::AwaitUser, CheckinAction::LoadUser)
            },
            _ => failed(CheckinFailure::Error(DomainError::InvalidStateTransition)),
        },
        CheckinStage::AwaitUser => match event {
            CheckinEvent::UserLoaded(Err(e)) => failed(CheckinFailure::Error(e)),
            CheckinEvent::UserLoaded(Ok(found)) => if found {
                (CheckinStage::AwaitSession, CheckinAction::LoadSession)
            } else {
                failed(CheckinFailure::Missing(MissingRecord::User))
            },
            _ => failed(CheckinFailure::Error(DomainError::InvalidStateTransition)),
        },
        CheckinStage::AwaitSession => match event {
            CheckinEvent::SessionLoaded(Err(e)) => failed(CheckinFailure::Error(e)),
            CheckinEvent::SessionLoaded(Ok(s)) => match auth_decision_spec(
                flow.decider_spec().config_spec(),
                s,
                req.utc_now,
            ) {
                AuthDecision::ReAuthenticate => (
                    CheckinStage::AwaitAuthentication,
                    CheckinAction::Authenticate,
                ),
                AuthDecision::RefreshToken => (
                    CheckinStage::AwaitSessionToRefresh,
                    CheckinAction::LoadSession,
                ),
                AuthDecision::UseCurrentToken => (
                    CheckinStage::AwaitReloaded(SessionBranch::Current),
                    CheckinAction::LoadSession,
                ),
            },
            _ => failed(CheckinFailure::Error(DomainError::InvalidStateTransition)),
        },
        CheckinStage::AwaitAuthentication => match event {
            CheckinEvent::Authenticated(Err(e)) => failed(CheckinFailure::Error(e)),
            CheckinEvent::Authenticated(Ok(token)) => if is_blank(req.student_id@) {
                failed(CheckinFailure::Error(DomainError::BlankSchoolUserId))
            } else {
                (
                    CheckinStage::AwaitSaved(SessionBranch::Authenticated),
                    CheckinAction::SaveSession(
                        SchoolSession::spec_created(req.owner_user_id, req.student_id, token),
                    ),
                )
            },
            _ => failed(CheckinFailure::Error(DomainError::InvalidStateTransition)),
        },
        CheckinStage::AwaitSaved(b) => match event {
            CheckinEvent::SessionSaved(Err(e)) => failed(CheckinFailure::Error(e)),
            CheckinEvent::SessionSaved(Ok(())) => (
                CheckinStage::AwaitReloaded(b),
                CheckinAction::LoadSession,
            ),
            _ => failed(CheckinFailure::Error(DomainError::InvalidStateTransition)),
        },
        CheckinStage::AwaitReloaded(b) => match event {
            CheckinEvent::SessionLoaded(Err(e)) => failed(CheckinFailure::Error(e)),
            CheckinEvent::SessionLoaded(Ok(None)) => failed(
                CheckinFailure::Missing(missing_after(b)),
            ),
            CheckinEvent::SessionLoaded(Ok(Some(s))) => (
                CheckinStage::AwaitTask(s),
                CheckinAction::LoadTask,
            ),
            _ => failed(CheckinFailure::Error(DomainError::InvalidStateTransition)),
        },
        CheckinStage::AwaitSessionToRefresh => match event {
            CheckinEvent::SessionLoaded(Err(e)) => failed(CheckinFailure::Error(e)),
            CheckinEvent::SessionLoaded(Ok(None)) => failed(
                CheckinFailure::Missing(MissingRecord::SessionBeforeRefresh),
            ),
            CheckinEvent::SessionLoaded(Ok(Some(s))) => (
                CheckinStage::AwaitRefresh(s),
                CheckinAction::Refresh(s),
            ),
            _ => failed(CheckinFailure::Error(DomainError::InvalidStateTransition)),
        },
        CheckinStage::AwaitRefresh(current) => match event {
            CheckinEvent::Refreshed(Err(e)) => failed(CheckinFailure::Error(e)),
            CheckinEvent::Refreshed(Ok(token)) => (
                CheckinStage::AwaitSaved(SessionBranch::Refreshed),
                CheckinAction::SaveSession(current.with_token(token)),
            ),
            _ => failed(CheckinFailure::Error(DomainError::InvalidStateTransition)),
        },
        CheckinStage::AwaitTask(s) => match event {
            CheckinEvent::TaskLoaded(Err(e)) => failed(CheckinFailure::Error(e)),
            CheckinEvent::TaskLoaded(Ok(None)) => failed(
                CheckinFailure::Error(DomainError::TaskNotFound { task_id: req.school_task_id }),
            ),
            CheckinEvent::TaskLoaded(Ok(Some(task))) => if task_runnable(task, req.utc_now) {
                (CheckinStage::AwaitContext(s, task), CheckinAction::PrepareContext(s))
            } else {
                failed(CheckinFailure::Error(DomainError::NotRunnableNow))
            },
            _ => failed(CheckinFailure::Error(DomainError::InvalidStateTransition)),
        },
        CheckinStage::AwaitContext(s, task) => match event {
            CheckinEvent::ContextPrepared(Err(e)) => failed(CheckinFailure::Error(e)),
            CheckinEvent::ContextPrepared(Ok(())) => (
                CheckinStage::AwaitSubmit(task),
                CheckinAction::Submit(s),
            ),
            _ => failed(CheckinFailure::Error(DomainError::InvalidStateTransition)),
        },
        CheckinStage::AwaitSubmit(task) => match event {
            CheckinEvent::Submitted(Err(e)) => failed(CheckinFailure::Error(e)),
            CheckinEvent::Submitted(Ok(())) => (
                CheckinStage::Finished,
                CheckinAction::Succeed(
                    ExecuteCheckinResult {
                        school_task_id: req.school_task_id,
                        task_title: task.title_string(),
                        occurred_at_utc: req.utc_now,
                    },
                ),
            ),
            _ => failed(CheckinFailure::Error(DomainError::InvalidStateTransition)),
        },
        CheckinStage::Finished => failed(
            CheckinFailure::Error(DomainError::InvalidStateTransition),
        ),
    }
}

impl CheckinFlow {
    /// The check-in moved on by one event: the flow at its next stage, with
    /// the same request and decider, and the action to take, as `flow_step`
    /// says.
    pub fn step(self, event: CheckinEvent) -> (r: (CheckinFlow, CheckinAction))
        ensures
            r.0.request_spec() == self.request_spec(),
            r.0.decider_spec() == self.decider_spec(),
            (r.0.stage_spec(), r.1) == flow_step(self, event),
    {
        proof {
            use_type_invariant(&self);
        }
        let CheckinFlow { request, decider, stage } = self;
        match stage {
            CheckinStage::Start => match event {
                CheckinEvent::Started => {
                    if str_is_blank(request.student_id.as_str()) {
                        finish(request, decider, CheckinFailure::Error(DomainError::BlankSchoolUserId))
                    } else if str_is_blank(request.school_task_id.as_str()) {
                        finish(request, decider, CheckinFailure::Error(DomainError::BlankSchoolTaskId))
                    } else {
                        (
                            CheckinFlow { request, decider, stage: CheckinStage::AwaitUser },
                            CheckinAction::LoadUser,
                        )
                    }
                },
                _ => invalid(request, decider),
            },
            CheckinStage::AwaitUser => match event {
                CheckinEvent::UserLoaded(Err(e)) => finish(request, decider, CheckinFailure::Error(e)),
                CheckinEvent::UserLoaded(Ok(found)) => {
                    if found {
                        (
                            CheckinFlow { request, decider, stage: CheckinStage::AwaitSession },
                            CheckinAction::LoadSession,
                        )
                    } else {
                        finish(request, decider, CheckinFailure::Missing(MissingRecord::User))
                    }
                },
                _ => invalid(request, decider),
            },
            CheckinStage::AwaitSession => match event {
                CheckinEvent::SessionLoaded(Err(e)) => finish(request, decider, CheckinFailure::Error(e)),
                CheckinEvent::SessionLoaded(Ok(s)) => {
                    match decider.decide_by_session(s, request.utc_now) {
                        AuthDecision::ReAuthenticate => (
                            CheckinFlow { request, decider, stage: CheckinStage::AwaitAuthentication },
                            CheckinAction::Authenticate,
                        ),
                        AuthDecision::RefreshToken => (
                            CheckinFlow { request, decider, stage: CheckinStage::AwaitSessionToRefresh },
                            CheckinAction::LoadSession,
                        ),
                        AuthDecision::UseCurrentToken => (
                            CheckinFlow {
                                request,
                                decider,
                                stage: CheckinStage::AwaitReloaded(SessionBranch::Current),
                            },
                            CheckinAction::LoadSession,
                        ),
                    }
                },
                _ => invalid(request, decider),
            },
            CheckinStage::AwaitAuthentication => match event {
                CheckinEvent::Authenticated(Err(e)) => finish(request, decider, CheckinFailure::Error(e)),
                CheckinEvent::Authenticated(Ok(token)) => {
                    match SchoolSession::new(request.owner_user_id, request.student_id.clone(), token) {
                        Ok(session) => (
                            CheckinFlow {
                                request,
                                decider,
                                stage: CheckinStage::AwaitSaved(SessionBranch::Authenticated),
                            },
                            CheckinAction::SaveSession(session),
                        ),
                        Err(e) => finish(request, decider, CheckinFailure::Error(e)),
                    }
                },
                _ => invalid(request, decider),
            },
            CheckinStage::AwaitSaved(b) => match event {
                CheckinEvent::SessionSaved(Err(e)) => finish(request, decider, CheckinFailure::Error(e)),
                CheckinEvent::SessionSaved(Ok(())) => (
                    CheckinFlow { request, decider, stage: CheckinStage::AwaitReloaded(b) },
                    CheckinAction::LoadSession,
                ),
                _ => invalid(request, decider),
            },
            CheckinStage::AwaitReloaded(b) => match event {
                CheckinEvent::SessionLoaded(Err(e)) => finish(request, decider, CheckinFailure::Error(e)),
                CheckinEvent::SessionLoaded(Ok(None)) => {
                    let m = match b {
                        SessionBranch::Authenticated => MissingRecord::SessionAfterAuthentication,
                        SessionBranch::Refreshed => MissingRecord::SessionAfterRefresh,
                        SessionBranch::Current => MissingRecord::CurrentSession,
                    };
                    finish(request, decider, CheckinFailure::Missing(m))
                },
                CheckinEvent::SessionLoaded(Ok(Some(s))) => (
                    CheckinFlow { request, decider, stage: CheckinStage::AwaitTask(s) },
                    CheckinAction::LoadTask,
                ),
                _ => invalid(request, decider),
            },
            CheckinStage::AwaitSessionToRefresh => match event {
                CheckinEvent::SessionLoaded(Err(e)) => finish(request, decider, CheckinFailure::Error(e)),
                CheckinEvent::SessionLoaded(Ok(None)) => finish(
                    request,
                    decider,
                    CheckinFailure::Missing(MissingRecord::SessionBeforeRefresh),
                ),
                CheckinEvent::SessionLoaded(Ok(Some(s))) => {
                    let kept = s.clone();
                    (
                        CheckinFlow { request, decider, stage: CheckinStage::AwaitRefresh(kept) },
                        CheckinAction::Refresh(s),
                    )
                },
                _ => invalid(request, decider),
            },
            CheckinStage::AwaitRefresh(current) => match event {
                CheckinEvent::Refreshed(Err(e)) => finish(request, decider, CheckinFailure::Error(e)),
                CheckinEvent::Refreshed(Ok(token)) => {
                    let mut refreshed = current;
                    refreshed.replace_token(token);
                    (
                        CheckinFlow {
                            request,
                            decider,
                            stage: CheckinStage::AwaitSaved(SessionBranch::Refreshed),
                        },
                        CheckinAction::SaveSession(refreshed),
                    )
                },
                _ => invalid(request, decider),
            },
            CheckinStage::AwaitTask(s) => match event {
                CheckinEvent::TaskLoaded(Err(e)) => finish(request, decider, CheckinFailure::Error(e)),
                CheckinEvent::TaskLoaded(Ok(None)) => {
                    let task_id = request.school_task_id.clone();
                    finish(
                        request,
                        decider,
                        CheckinFailure::Error(DomainError::TaskNotFound { task_id }),
                    )
                },
                CheckinEvent::TaskLoaded(Ok(Some(task))) => {
                    if task.is_runnable_at(&request.utc_now) {
                        let kept = s.clone();
                        (
                            CheckinFlow { request, decider, stage: CheckinStage::AwaitContext(kept, task) },
                            CheckinAction::PrepareContext(s),
                        )
                    } else {
                        finish(request, decider, CheckinFailure::Error(DomainError::NotRunnableNow))
                    }
                },
                _ => invalid(request, decider),
            },
            CheckinStage::AwaitContext(s, task) => match event {
                CheckinEvent::ContextPrepared(Err(e)) => finish(request, decider, CheckinFailure::Error(e)),
                CheckinEvent::ContextPrepared(Ok(())) => (
                    CheckinFlow { request, decider, stage: CheckinStage::AwaitSubmit(task) },
                    CheckinAction::Submit(s),
                ),
                _ => invalid(request, decider),
            },
            CheckinStage::AwaitSubmit(task) => match event {
                CheckinEvent::Submitted(Err(e)) => finish(request, decider, CheckinFailure::Error(e)),
                CheckinEvent::Submitted(Ok(())) => {
                    let result = ExecuteCheckinResult {
                        school_task_id: request.school_task_id.clone(),
                        task_title: task.title_owned(),
                        occurred_at_utc: request.utc_now,
                    };
                    (
                        CheckinFlow { request, decider, stage: CheckinStage::Finished },
                        CheckinAction::Succeed(result),
                    )
                },
                _ => invalid(request, decider),
            },
            CheckinStage::Finished => invalid(request, decider),
        }
    }
}

/// The flow finished with a failure.
fn finish(request: CheckinRequest, decider: SchoolAuthDecider, f: CheckinFailure) -> (r: (
    CheckinFlow,
    CheckinAction,
))
    requires
        TimeZone::can_read(request.utc_now),
    ensures
        r.0.request_spec() == request,
        r.0.decider_spec() == decider,
        r.0.stage_spec() is Finished,
        r.1 == CheckinAction::Fail(f),
{
    (CheckinFlow { request, decider, stage: CheckinStage::Finished }, CheckinAction::Fail(f))
}

/// The flow finished on an event its stage does not await.
fn invalid(request: CheckinRequest, decider: SchoolAuthDecider) -> (r: (CheckinFlow, CheckinAction))
    requires
        TimeZone::can_read(request.utc_now),
    ensures
        r.0.request_spec() == request,
        r.0.decider_spec() == decider,
        r.0.stage_spec() is Finished,
        r.1 == CheckinAction::Fail(CheckinFailure::Error(DomainError::InvalidStateTransition)),
{
    finish(request, decider, CheckinFailure::Error(DomainError::InvalidStateTransition))
}

/// The error an event reports, if any.
pub open spec fn event_error(ev: CheckinEvent) -> Option<DomainError> {
    match ev {
        CheckinEvent::Started => None,
        CheckinEvent::UserLoaded(r) => match r {
            Err(e) => Some(e),
            Ok(_) => None,
        },
        CheckinEvent::SessionLoaded(r) => match r {
            Err(e) => Some(e),
            Ok(_) => None,
        },
        CheckinEvent::Authenticated(r) => match r {
            Err(e) => Some(e),
            Ok(_) => None,
        },
        CheckinEvent::Refreshed(r) => match r {
            Err(e) => Some(e),
            Ok(_) => None,
        },
        CheckinEvent::SessionSaved(r) => match r {
            Err(e) => Some(e),
            Ok(_) => None,
        },
        CheckinEvent::TaskLoaded(r) => match r {
            Err(e) => Some(e),
            Ok(_) => None,
        },
        CheckinEvent::ContextPrepared(r) => match r {
            Err(e) => Some(e),
            Ok(_) => None,
        },
        CheckinEvent::Submitted(r) => match r {
            Err(e) => Some(e),
            Ok(_) => None,
        },
    }
}

/// Whether a stage awaits this kind of event.
pub open spec fn awaits(stage: CheckinStage, ev: CheckinEvent) -> bool {
    match stage {
        CheckinStage::Start => ev is Started,
        CheckinStage::AwaitUser => ev is UserLoaded,
        CheckinStage::AwaitSession => ev is SessionLoaded,
        CheckinStage::AwaitAuthentication => ev is Authenticated,
        CheckinStage::AwaitSaved(_) => ev is SessionSaved,
        CheckinStage::AwaitReloaded(_) => ev is SessionLoaded,
        CheckinStage::AwaitSessionToRefresh => ev is SessionLoaded,
        CheckinStage::AwaitRefresh(_) => ev is Refreshed,
        CheckinStage::AwaitTask(_) => ev is TaskLoaded,
        CheckinStage::AwaitContext(_, _) => ev is ContextPrepared,
        CheckinStage::AwaitSubmit(_) => ev is Submitted,
        CheckinStage::Finished => false,
    }
}

/// How many steps a stage is at most away from the end.
pub open spec fn stage_rank(stage: CheckinStage) -> nat {
    match stage {
        CheckinStage::Start => 11,
        CheckinStage::AwaitUser => 10,
        CheckinStage::AwaitSession => 9,
        CheckinStage::AwaitAuthentication => 8,
        CheckinStage::AwaitSessionToRefresh => 8,
        CheckinStage::AwaitRefresh(_) => 7,
        CheckinStage::AwaitSaved(_) => 6,
        CheckinStage::AwaitReloaded(_) => 5,
        CheckinStage::AwaitTask(_) => 4,
        CheckinStage::AwaitContext(_, _) => 3,
        CheckinStage::AwaitSubmit(_) => 2,
        CheckinStage::Finished => 0,
    }
}

/// The task a stage holds is runnable at `now`.
pub open spec fn holds_runnable_task(stage: CheckinStage, now: UtcTime) -> bool {
    match stage {
        CheckinStage::AwaitContext(_, t) => task_runnable(t, now),
        CheckinStage::AwaitSubmit(t) => task_runnable(t, now),
        _ => true,
    }
}

/// An error that an awaited step reports ends the check-in with exactly that
/// error.
pub proof fn lemma_errors_end_the_checkin(f: CheckinFlow, ev: CheckinEvent, e: DomainError)
    requires
        awaits(f.stage_spec(), ev),
        event_error(ev) == Some(e),
    ensures
        flow_step(f, ev) == failed(CheckinFailure::Error(e)),
{
}

/// An event that the stage does not await ends the check-in as an invalid
/// transition.
pub proof fn lemma_unawaited_event_is_invalid(f: CheckinFlow, ev: CheckinEvent)
    requires
        !awaits(f.stage_spec(), ev),
    ensures
        flow_step(f, ev) == failed(CheckinFailure::Error(DomainError::InvalidStateTransition)),
{
}

/// Every step of an unfinished check-in moves it closer to the end, so a
/// check-in asks for at most eleven outside steps; a finished one stays
/// finished.
pub proof fn lemma_step_progresses(f: CheckinFlow, ev: CheckinEvent)
    ensures
        f.stage_spec() !is Finished ==> stage_rank(flow_step(f, ev).0) < stage_rank(f.stage_spec()),
        f.stage_spec() is Finished ==> flow_step(f, ev).0 is Finished,
{
}

/// A held task stays runnable, and a check-in is submitted only for a task
/// that is runnable at the request's instant, which it keeps until the end.
pub proof fn lemma_submits_only_runnable_tasks(f: CheckinFlow, ev: CheckinEvent)
    requires
        holds_runnable_task(f.stage_spec(), f.request_spec().utc_now),
    ensures
        holds_runnable_task(flow_step(f, ev).0, f.request_spec().utc_now),
        flow_step(f, ev).1 is Submit ==> (flow_step(f, ev).0 matches CheckinStage::AwaitSubmit(t)
            && task_runnable(t, f.request_spec().utc_now)),
{
}

/// A check-in succeeds only on a submitted check-in, for the request's task
/// and at the request's instant.
pub proof fn lemma_success_reports_the_request(f: CheckinFlow, ev: CheckinEvent)
    ensures
        flow_step(f, ev).1 matches CheckinAction::Succeed(res) ==> {
            &&& f.stage_spec() is AwaitSubmit
            &&& ev == CheckinEvent::Submitted(Ok(()))
            &&& res.school_task_id == f.request_spec().school_task_id
            &&& res.occurred_at_utc == f.request_spec().utc_now
        },
{
    match f.stage_spec() {
        CheckinStage::AwaitSubmit(t) => match ev {
            CheckinEvent::Submitted(r) => match r {
                Ok(u) => {
                    assert(u == ());
                },
                Err(_) => {},
            },
            _ => {},
        },
        _ => {},
    }
}

/// After a successful authentication the check-in asks to store a session
/// for the request's owner and student, holding the issued token, and then
/// waits for the store.
pub proof fn lemma_authentication_stores_the_owners_session(f: CheckinFlow, token: SchoolToken)
    requires
        f.stage_spec() is AwaitAuthentication,
        !is_blank(f.request_spec().student_id@),
    ensures
        flow_step(f, CheckinEvent::Authenticated(Ok(token))).1 matches CheckinAction::SaveSession(s)
            && s.owner_spec() == f.request_spec().owner_user_id && s.student_spec()
            == f.request_spec().student_id@ && s.token_spec() == token,
        flow_step(f, CheckinEvent::Authenticated(Ok(token))).0 == CheckinStage::AwaitSaved(
            SessionBranch::Authenticated,
        ),
{
    SchoolSession::lemma_created_fields(f.request_spec().owner_user_id, f.request_spec().student_id, token);
}

/// After a successful refresh the check-in asks to store the session it
/// refreshed, with the same owner and student and the new token.
pub proof fn lemma_refresh_stores_the_same_session(f: CheckinFlow, current: SchoolSession, token: SchoolToken)
    requires
        f.stage_spec() == CheckinStage::AwaitRefresh(current),
    ensures
        flow_step(f, CheckinEvent::Refreshed(Ok(token))).1 matches CheckinAction::SaveSession(s)
            && s.owner_spec() == current.owner_spec() && s.student_spec() == current.student_spec()
            && s.token_spec() == token,
        flow_step(f, CheckinEvent::Refreshed(Ok(token))).0 == CheckinStage::AwaitSaved(
            SessionBranch::Refreshed,
        ),
{
    current.lemma_with_token_fields(token);
}

/// The stored session decides how the check-in authenticates: with none it
/// authenticates anew; with one whose token expires within the decider's
/// skew of the request's instant it loads the session to refresh it;
/// otherwise it goes on with the current session, loading it back.
pub proof fn lemma_stored_session_decides(f: CheckinFlow, stored: Option<SchoolSession>)
    requires
        f.stage_spec() is AwaitSession,
    ensures
        stored is None ==> flow_step(f, CheckinEvent::SessionLoaded(Ok(stored))) == (
            CheckinStage::AwaitAuthentication,
            CheckinAction::Authenticate,
        ),
        stored matches Some(s) && f.request_spec().utc_now.ns()
            + f.decider_spec().config_spec().skew_spec().ns() >= s.token_spec().expired_at_spec().ns()
            ==> flow_step(f, CheckinEvent::SessionLoaded(Ok(stored))) == (
            CheckinStage::AwaitSessionToRefresh,
            CheckinAction::LoadSession,
        ),
        stored matches Some(s) && f.request_spec().utc_now.ns()
            + f.decider_spec().config_spec().skew_spec().ns() < s.token_spec().expired_at_spec().ns()
            ==> flow_step(f, CheckinEvent::SessionLoaded(Ok(stored))) == (
            CheckinStage::AwaitReloaded(SessionBranch::Current),
            CheckinAction::LoadSession,
        ),
{
}

/// With a session in hand the task decides: a missing task fails as not
/// found, naming the request's task; a task not runnable at the request's
/// instant fails as not runnable now, before any request to the school; a
/// runnable one has the check-in page opened with that session first.
pub proof fn lemma_loaded_task_decides(f: CheckinFlow, s: SchoolSession, task: SchoolSignTask)
    requires
        f.stage_spec() == CheckinStage::AwaitTask(s),
    ensures
        flow_step(f, CheckinEvent::TaskLoaded(Ok(None))) == failed(
            CheckinFailure::Error(DomainError::TaskNotFound { task_id: f.request_spec().school_task_id }),
        ),
        !task_runnable(task, f.request_spec().utc_now) ==> flow_step(
            f,
            CheckinEvent::TaskLoaded(Ok(Some(task))),
        ) == failed(CheckinFailure::Error(DomainError::NotRunnableNow)),
        task_runnable(task, f.request_spec().utc_now) ==> flow_step(
            f,
            CheckinEvent::TaskLoaded(Ok(Some(task))),
        ) == (CheckinStage::AwaitContext(s, task), CheckinAction::PrepareContext(s)),
{
}

/// Once the page is opened the check-in is submitted with the same session;
/// once submitted it succeeds with the request's task ID, the task's title
/// and the request's instant.
pub proof fn lemma_context_then_submit_then_success(
    f: CheckinFlow,
    s: SchoolSession,
    task: SchoolSignTask,
)
    ensures
        f.stage_spec() == CheckinStage::AwaitContext(s, task) ==> flow_step(
            f,
            CheckinEvent::ContextPrepared(Ok(())),
        ) == (CheckinStage::AwaitSubmit(task), CheckinAction::Submit(s)),
        f.stage_spec() == CheckinStage::AwaitSubmit(task) ==> (flow_step(
            f,
            CheckinEvent::Submitted(Ok(())),
        ).1 matches CheckinAction::Succeed(res) && res.school_task_id == f.request_spec().school_task_id
            && res.task_title@ == task@.title && res.occurred_at_utc == f.request_spec().utc_now
            && flow_step(f, CheckinEvent::Submitted(Ok(()))).0 is Finished),
{
    task.lemma_title_string();
}

/// A blank student or task ID fails the check-in before any outside step.
pub proof fn lemma_blank_ids_fail_first(f: CheckinFlow)
    requires
        f.stage_spec() is Start,
        is_blank(f.request_spec().student_id@) || is_blank(f.request_spec().school_task_id@),
    ensures
        flow_step(f, CheckinEvent::Started).1 matches CheckinAction::Fail(CheckinFailure::Error(e))
            && (e == DomainError::BlankSchoolUserId || e == DomainError::BlankSchoolTaskId),
        flow_step(f, CheckinEvent::Started).0 is Finished,
{
}

/// The message of a missing record.
pub open spec fn missing_message(m: MissingRecord, req: CheckinRequest) -> Seq<char> {
    match m {
        MissingRecord::User => "缺少校园用户记录：owner_user_id="@ + hyphenated_id(req.owner_user_id)
            + ", student_id="@ + req.student_id@,
        MissingRecord::SessionAfterAuthentication => "会话已持久化但未找到"@,
        MissingRecord::SessionBeforeRefresh => "刷新前应存在会话"@,
        MissingRecord::SessionAfterRefresh => "刷新后的会话已持久化但未找到"@,
        MissingRecord::CurrentSession => "当前令牌分支应存在会话"@,
    }
}

impl CheckinRequest {
    /// The domain error of a failure: the error itself, or a missing record
    /// as corrupted persistence with a message naming it.
    pub fn failure_error(&self, failure: CheckinFailure) -> (r: DomainError)
        ensures
            match failure {
                CheckinFailure::Error(e) => r == e,
                CheckinFailure::Missing(m) => r matches DomainError::PersistenceCorrupted { message }
                    && message@ == missing_message(m, *self),
            },
    {
        match failure {
            CheckinFailure::Error(e) => e,
            CheckinFailure::Missing(m) => {
                let message = match m {
                    MissingRecord::User => {
                        let mut t = "缺少校园用户记录：owner_user_id=".to_string();
                        let id = id_hyphenated(self.owner_user_id);
                        t.append(id.as_str());
                        t.append(", student_id=");
                        t.append(self.student_id.as_str());
                        t
                    },
                    MissingRecord::SessionAfterAuthentication => "会话已持久化但未找到".to_string(),
                    MissingRecord::SessionBeforeRefresh => "刷新前应存在会话".to_string(),
                    MissingRecord::SessionAfterRefresh => "刷新后的会话已持久化但未找到".to_string(),
                    MissingRecord::CurrentSession => "当前令牌分支应存在会话".to_string(),
                };
                DomainError::PersistenceCorrupted { message }
            },
        }
    }
}

} // verus!
