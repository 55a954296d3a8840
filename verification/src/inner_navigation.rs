//! The inner navigation workflow of one agent: a new target cancels the goal
//! the agent's inner Nav2 action client is pursuing, a new goal is requested,
//! recorded on the client, monitored until it ends, retried when it was
//! aborted, and finally cleared from the client.
//!
//! Requesting, cancelling and monitoring goals are asynchronous calls into the
//! ROS 2 action client; they happen outside. Every decision between them is a
//! function here that takes what the call produced. The goal handle of the
//! action client is the type parameter `H`; the target pose is `P`.
use crate::ids::SafeZoneId;
use vstd::prelude::*;

verus! {

/// Identifies an agent (the bits of its entity).
pub type AgentKey = u64;

/// The goal an inner navigation client is currently pursuing.
#[derive(Clone, Debug)]
pub struct ActiveInnerGoal<H> {
    pub goal_client: H,
    pub safe_zone_id: SafeZoneId,
}

impl<H> ActiveInnerGoal<H> {
    pub fn new(goal_client: H, safe_zone_id: SafeZoneId) -> (goal: Self)
        ensures
            goal.goal_client == goal_client,
            goal.safe_zone_id == safe_zone_id,
    {
        ActiveInnerGoal { goal_client, safe_zone_id }
    }

    pub fn client(&self) -> (client: &H)
        ensures
            *client == self.goal_client,
    {
        &self.goal_client
    }

    pub fn client_mut(&mut self) -> (client: &mut H)
        ensures
            *client == old(self).goal_client,
            *final(self) == (ActiveInnerGoal { goal_client: *final(client), ..*old(self) }),
    {
        &mut self.goal_client
    }

    pub fn id(&self) -> (id: &SafeZoneId)
        ensures
            *id == self.safe_zone_id,
    {
        &self.safe_zone_id
    }
}

/// The inner Nav2 action client of one agent (of type `A`) and the goal it is
/// pursuing, if any.
#[derive(Clone, Debug)]
pub struct InnerNavigationClient<A, H> {
    pub action_client: A,
    pub active_goal: Option<ActiveInnerGoal<H>>,
}

impl<A, H> InnerNavigationClient<A, H> {
    /// A client pursuing no goal yet.
    pub fn new(action_client: A) -> (client: Self)
        ensures
            client.action_client == action_client,
            client.active_goal is None,
    {
        InnerNavigationClient { action_client, active_goal: None }
    }

    pub fn goal(&self) -> (goal: &Option<ActiveInnerGoal<H>>)
        ensures
            *goal == self.active_goal,
    {
        &self.active_goal
    }

    pub fn goal_mut(&mut self) -> (goal: &mut Option<ActiveInnerGoal<H>>)
        ensures
            *goal == old(self).active_goal,
            *final(self) == (InnerNavigationClient { active_goal: *final(goal), ..*old(self) }),
    {
        &mut self.active_goal
    }

    /// Forgets the goal being pursued.
    pub fn reset_goal(&mut self)
        ensures
            final(self).active_goal is None,
            final(self).action_client == old(self).action_client,
    {
        self.active_goal = None;
    }
}

/// A single-goal inner action client (of type `A`) and the handle of the
/// goal it is pursuing, if any.
#[derive(Clone, Debug)]
pub struct InnerNavigateToPoseClient<A, H> {
    pub action_client: A,
    pub goal_client: Option<H>,
}

impl<A, H> InnerNavigateToPoseClient<A, H> {
    pub fn goal_client(&self) -> (goal: &Option<H>)
        ensures
            *goal == self.goal_client,
    {
        &self.goal_client
    }

    pub fn goal_client_mut(&mut self) -> (goal: &mut Option<H>)
        ensures
            *goal == old(self).goal_client,
            *final(self) == (InnerNavigateToPoseClient { goal_client: *final(goal), ..*old(self) }),
    {
        &mut self.goal_client
    }

    /// Forgets the goal being pursued.
    pub fn reset_goal_client(&mut self)
        ensures
            final(self).goal_client is None,
            final(self).action_client == old(self).action_client,
    {
        self.goal_client = None;
    }
}

/// A request to drive `agent` towards `target_pose`, within safe zone `safe_zone_id`.
#[derive(Clone, Debug)]
pub struct InnerNavigationRequest<P> {
    pub agent: AgentKey,
    pub safe_zone_id: SafeZoneId,
    pub target_pose: P,
}

/// A request whose goal was accepted, with the handle of that goal.
#[derive(Clone, Debug)]
pub struct CurrentInnerNavigationGoal<P, H> {
    pub request: InnerNavigationRequest<P>,
    pub goal_client: H,
}

/// A request that must first cancel the goal `cancel_client`.
#[derive(Clone, Debug)]
pub struct CancelInnerNavigation<P, H> {
    pub request: InnerNavigationRequest<P>,
    pub cancel_client: H,
}

/// A goal that reached its target.
#[derive(Clone, Debug)]
pub struct InnerNavigationSuccess<P, H> {
    pub handle: CurrentInnerNavigationGoal<P, H>,
}

/// Why an inner navigation did not reach its target.
#[derive(Clone, Copy, Debug, PartialEq, Eq, Structural)]
pub enum InnerNavigationErrorKind {
    CancelGoalError,
    RequestGoalError,
    GoalAbortedError,
    UnknownError,
}

impl InnerNavigationErrorKind {
    /// The human-readable description of the error.
    pub fn message(&self) -> (text: &'static str)
        ensures
            text@ == match *self {
                InnerNavigationErrorKind::CancelGoalError => "Failed to cancel current goal!"@,
                InnerNavigationErrorKind::RequestGoalError => "Failed to request new goal!"@,
                InnerNavigationErrorKind::GoalAbortedError => "Goal was aborted!"@,
                InnerNavigationErrorKind::UnknownError => "Unknown error!"@,
            },
    {
        match self {
            InnerNavigationErrorKind::CancelGoalError => "Failed to cancel current goal!",
            InnerNavigationErrorKind::RequestGoalError => "Failed to request new goal!",
            InnerNavigationErrorKind::GoalAbortedError => "Goal was aborted!",
            InnerNavigationErrorKind::UnknownError => "Unknown error!",
        }
    }
}

/// A failed inner navigation, with the goal it concerned when there was one.
#[derive(Clone, Debug)]
pub struct InnerNavigationError<P, H> {
    pub handle: Option<CurrentInnerNavigationGoal<P, H>>,
    pub kind: InnerNavigationErrorKind,
}

/// How a monitored inner navigation ended.
pub type InnerNavigationResult<P, H> = Result<InnerNavigationSuccess<P, H>, InnerNavigationError<P, H>>;

/// Routes a new request: when the agent's client is pursuing a goal, that
/// goal must be cancelled first (`Ok`, carrying a clone of its handle);
/// otherwise a new goal can be requested right away (`Err`, the request back).
pub fn check_existing_goal<P, A, H: Clone>(
    request: InnerNavigationRequest<P>,
    client: Option<&InnerNavigationClient<A, H>>,
) -> (routed: Result<CancelInnerNavigation<P, H>, InnerNavigationRequest<P>>)
    ensures
        match client {
            Some(c) if c.active_goal is Some => {
                &&& routed is Ok
                &&& routed->Ok_0.request == request
                &&& cloned(c.active_goal->0.goal_client, routed->Ok_0.cancel_client)
            },
            _ => routed == Err::<CancelInnerNavigation<P, H>, _>(request),
        },
{
    if let Some(c) = client {
        if let Some(goal) = c.goal() {
            let cancel_client = goal.client().clone();
            return Ok(CancelInnerNavigation { request, cancel_client });
        }
    }
    Err(request)
}

/// What became of a cancellation: `Some(accepted)` is the server's answer,
/// `None` that the call itself failed. Only an accepted cancellation lets the
/// request go on to a new goal.
pub fn cancel_goal_outcome<P, H>(cancel: CancelInnerNavigation<P, H>, answer: Option<bool>) -> (outcome: Result<InnerNavigationRequest<P>, InnerNavigationError<P, H>>)
    ensures
        answer == Some(true) ==> outcome == Ok::<_, InnerNavigationError<P, H>>(cancel.request),
        answer != Some(true) ==> outcome == Err::<InnerNavigationRequest<P>, _>(
            InnerNavigationError::<P, H> { handle: None, kind: InnerNavigationErrorKind::CancelGoalError },
        ),
{
    match answer {
        Some(true) => Ok(cancel.request),
        _ => Err(InnerNavigationError::<P, H> { handle: None, kind: InnerNavigationErrorKind::CancelGoalError }),
    }
}

/// What became of a request for a new goal.
pub enum GoalRequestReply<H> {
    /// The agent has no inner navigation client: nothing was sent.
    NoClient,
    /// The action server did not accept the goal.
    NotAccepted,
    /// The call itself failed.
    CallFailed,
    /// The goal was accepted with this handle.
    Accepted(H),
}

/// Only an accepted goal becomes the current goal; every other reply is a
/// `RequestGoalError` without a handle.
pub fn goal_request_outcome<P, H>(request: InnerNavigationRequest<P>, reply: GoalRequestReply<H>) -> (outcome: Result<CurrentInnerNavigationGoal<P, H>, InnerNavigationError<P, H>>)
    ensures
        match reply {
            GoalRequestReply::Accepted(h) => outcome == Ok::<_, InnerNavigationError<P, H>>(
                CurrentInnerNavigationGoal { request, goal_client: h },
            ),
            _ => outcome == Err::<CurrentInnerNavigationGoal<P, H>, _>(
                InnerNavigationError::<P, H> { handle: None, kind: InnerNavigationErrorKind::RequestGoalError },
            ),
        },
{
    match reply {
        GoalRequestReply::Accepted(h) => Ok(CurrentInnerNavigationGoal { request, goal_client: h }),
        _ => Err(InnerNavigationError::<P, H> { handle: None, kind: InnerNavigationErrorKind::RequestGoalError }),
    }
}

/// Records the accepted goal on the agent's client, with the request's safe zone.
pub fn update_goal_client<P, A, H: Clone>(
    client: &mut InnerNavigationClient<A, H>,
    handle: &CurrentInnerNavigationGoal<P, H>,
)
    ensures
        final(client).action_client == old(client).action_client,
        final(client).active_goal is Some,
        final(client).active_goal->0.safe_zone_id == handle.request.safe_zone_id,
        cloned(handle.goal_client, final(client).active_goal->0.goal_client),
{
    let goal_client = handle.goal_client.clone();
    *client.goal_mut() = Some(ActiveInnerGoal::new(goal_client, handle.request.safe_zone_id));
}

/// Status codes of an action goal.
#[derive(Clone, Copy, Debug, PartialEq, Eq, Structural)]
pub enum GoalStatus {
    Unknown,
    Accepted,
    Executing,
    Cancelling,
    Succeeded,
    Cancelled,
    Aborted,
}

/// What arrived on the stream of a monitored goal.
#[derive(Clone, Copy, Debug, PartialEq, Eq, Structural)]
pub enum GoalEventKind {
    Feedback,
    Status,
    Result(GoalStatus),
    /// The stream ended without a terminal result.
    StreamEnded,
    /// The monitoring call itself failed.
    CallFailed,
}

/// How monitoring a goal ends.
#[derive(Clone, Copy, Debug, PartialEq, Eq, Structural)]
pub enum MonitorEnd {
    Succeeded,
    Aborted,
    Unknown,
}

/// What to do with one event of a monitored goal.
#[derive(Clone, Copy, Debug, PartialEq, Eq, Structural)]
pub enum MonitorDecision {
    /// Publish the feedback for the agent and keep monitoring.
    PublishFeedback,
    /// Log the status and keep monitoring.
    LogStatus,
    /// A result with a non-terminal status: keep monitoring.
    KeepMonitoring,
    /// Stop monitoring.
    Finish(MonitorEnd),
}

/// A succeeded result finishes the goal successfully, an aborted or
/// cancelled one as aborted; other results are waited past; a stream that
/// ends, or a call that fails, finishes it as unknown.
pub open spec fn spec_monitor_decision(event: GoalEventKind) -> MonitorDecision {
    match event {
        GoalEventKind::Feedback => MonitorDecision::PublishFeedback,
        GoalEventKind::Status => MonitorDecision::LogStatus,
        GoalEventKind::Result(GoalStatus::Succeeded) => MonitorDecision::Finish(MonitorEnd::Succeeded),
        GoalEventKind::Result(GoalStatus::Aborted) => MonitorDecision::Finish(MonitorEnd::Aborted),
        GoalEventKind::Result(GoalStatus::Cancelled) => MonitorDecision::Finish(MonitorEnd::Aborted),
        GoalEventKind::Result(_) => MonitorDecision::KeepMonitoring,
        GoalEventKind::StreamEnded => MonitorDecision::Finish(MonitorEnd::Unknown),
        GoalEventKind::CallFailed => MonitorDecision::Finish(MonitorEnd::Unknown),
    }
}

pub fn monitor_decision(event: GoalEventKind) -> (decision: MonitorDecision)
    ensures
        decision == spec_monitor_decision(event),
{
    match event {
        GoalEventKind::Feedback => MonitorDecision::PublishFeedback,
        GoalEventKind::Status => MonitorDecision::LogStatus,
        GoalEventKind::Result(status) => match status {
            GoalStatus::Succeeded => MonitorDecision::Finish(MonitorEnd::Succeeded),
            GoalStatus::Aborted | GoalStatus::Cancelled => MonitorDecision::Finish(MonitorEnd::Aborted),
            _ => MonitorDecision::KeepMonitoring,
        },
        GoalEventKind::StreamEnded | GoalEventKind::CallFailed => MonitorDecision::Finish(
            MonitorEnd::Unknown,
        ),
    }
}

pub open spec fn spec_finish_monitoring<P, H>(
    handle: CurrentInnerNavigationGoal<P, H>,
    end: MonitorEnd,
) -> InnerNavigationResult<P, H> {
    match end {
        MonitorEnd::Succeeded => Ok(InnerNavigationSuccess { handle }),
        MonitorEnd::Aborted => Err(
            InnerNavigationError { handle: Some(handle), kind: InnerNavigationErrorKind::GoalAbortedError },
        ),
        MonitorEnd::Unknown => Err(
            InnerNavigationError { handle: Some(handle), kind: InnerNavigationErrorKind::UnknownError },
        ),
    }
}

/// The result of a monitored goal; every failure keeps the goal's handle.
pub fn finish_monitoring<P, H>(handle: CurrentInnerNavigationGoal<P, H>, end: MonitorEnd) -> (result: InnerNavigationResult<P, H>)
    ensures
        result == spec_finish_monitoring(handle, end),
{
    match end {
        MonitorEnd::Succeeded => Ok(InnerNavigationSuccess { handle }),
        MonitorEnd::Aborted => Err(
            InnerNavigationError { handle: Some(handle), kind: InnerNavigationErrorKind::GoalAbortedError },
        ),
        MonitorEnd::Unknown => Err(
            InnerNavigationError { handle: Some(handle), kind: InnerNavigationErrorKind::UnknownError },
        ),
    }
}

pub open spec fn spec_retry_navigation<P, H>(result: InnerNavigationResult<P, H>) -> Result<
    InnerNavigationRequest<P>,
    InnerNavigationResult<P, H>,
> {
    match result {
        Err(e) if e.kind == InnerNavigationErrorKind::GoalAbortedError && e.handle is Some => Ok(
            e.handle->0.request,
        ),
        _ => Err(result),
    }
}

/// Decides whether to retry a finished navigation: an aborted goal is
/// requested again (`Ok`, with the request it was made for); any other result goes
/// on to clean-up (`Err`, the result unchanged).
pub fn retry_navigation<P, H>(result: InnerNavigationResult<P, H>) -> (decision: Result<
    InnerNavigationRequest<P>,
    InnerNavigationResult<P, H>,
>)
    ensures
        decision == spec_retry_navigation(result),
{
    match result {
        Err(
            InnerNavigationError { handle: Some(h), kind: InnerNavigationErrorKind::GoalAbortedError },
        ) => Ok(h.request),
        other => Err(other),
    }
}

pub open spec fn spec_cleanup_target<P, H>(result: InnerNavigationResult<P, H>) -> Option<AgentKey> {
    match result {
        Ok(s) => Some(s.handle.request.agent),
        Err(e) => match e.handle {
            Some(h) => Some(h.request.agent),
            None => None,
        },
    }
}

/// The agent whose client must forget its goal once a navigation has
/// finished: the agent of the finished goal, when the result names one.
pub fn cleanup_target<P, H>(result: &InnerNavigationResult<P, H>) -> (agent: Option<AgentKey>)
    ensures
        agent == spec_cleanup_target(*result),
{
    match result {
        Ok(s) => Some(s.handle.request.agent),
        Err(e) => match &e.handle {
            Some(h) => Some(h.request.agent),
            None => None,
        },
    }
}

/// However monitoring ends, the finished goal is either retried with its own
/// request or its agent's client is cleaned up.
pub proof fn lemma_finished_goal_is_retried_or_cleaned<P, H>(
    handle: CurrentInnerNavigationGoal<P, H>,
    end: MonitorEnd,
)
    ensures
        ({
            let result = spec_finish_monitoring(handle, end);
            match spec_retry_navigation(result) {
                Ok(request) => end == MonitorEnd::Aborted && request == handle.request,
                Err(r) => end != MonitorEnd::Aborted && spec_cleanup_target(r) == Some(
                    handle.request.agent,
                ),
            }
        }),
{
}

} // verus!
