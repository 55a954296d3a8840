//! The outer `navigate_to_pose` action server: how one requested goal is
//! accepted, fed with feedback, cancelled and finished.
//!
//! The server itself (publishing the destination goal, awaiting the goal
//! handle, awaiting feedback) is asynchronous outside work; this module holds
//! the decisions between those awaits as a state machine. Each awaited
//! outcome is handed to [`NavigateToPoseAction::step`], which returns what to
//! do next.
use vstd::prelude::*;

verus! {

/// Settings of the action server's goal handling.
///
/// `period_micros` is the polling period in microseconds; it is kept for the
/// caller and does not take part in any decision here.
#[derive(Clone, Copy, Debug, PartialEq, Eq, Structural)]
pub struct NavigateToPoseActionSettings {
    pub period_micros: u64,
    pub cancel_refusal_limit: usize,
    pub continue_after_cancelling: bool,
}

impl Default for NavigateToPoseActionSettings {
    /// 10 microseconds period, three cancel requests refused, no execution after cancelling.
    fn default() -> (settings: Self)
        ensures
            settings.period_micros == 10,
            settings.cancel_refusal_limit == 3,
            !settings.continue_after_cancelling,
    {
        NavigateToPoseActionSettings {
            period_micros: 10,
            cancel_refusal_limit: 3,
            continue_after_cancelling: false,
        }
    }
}

impl NavigateToPoseActionSettings {
    /// The default settings with a one second period.
    pub fn slow() -> (settings: Self)
        ensures
            settings.period_micros == 1_000_000,
            settings.cancel_refusal_limit == 3,
            !settings.continue_after_cancelling,
    {
        NavigateToPoseActionSettings {
            period_micros: 1_000_000,
            ..NavigateToPoseActionSettings::default()
        }
    }

    /// The same settings, refusing `limit` cancel requests before cancelling.
    pub fn cancel_refusal(self, limit: usize) -> (settings: Self)
        ensures
            settings == (NavigateToPoseActionSettings { cancel_refusal_limit: limit, ..self }),
    {
        let mut settings = self;
        settings.cancel_refusal_limit = limit;
        settings
    }

    /// The same settings, asking to keep going once cancelling has begun.
    pub fn continue_after_cancelling(self) -> (settings: Self)
        ensures
            settings == (NavigateToPoseActionSettings { continue_after_cancelling: true, ..self }),
    {
        let mut settings = self;
        settings.continue_after_cancelling = true;
        settings
    }
}

/// Where a goal of the action server stands.
#[derive(Clone, Copy, Debug, PartialEq, Eq, Structural)]
pub enum ActionPhase {
    /// The goal was requested; its destination goal is being published.
    PublishingDestination,
    /// The goal was accepted; the server waits to learn whether it executes.
    Beginning,
    /// The goal executes: feedback is forwarded and cancel requests counted.
    Executing,
    /// The goal has reached a terminal state.
    Finished,
}

/// An outcome of the outside work, handed to [`NavigateToPoseAction::step`].
pub enum ActionEvent<F> {
    /// The destination goal derived from the requested pose was published.
    DestinationPublished,
    /// Publishing the destination goal failed.
    DestinationPublishFailed,
    /// The accepted goal began executing.
    BeganExecuting,
    /// The accepted goal began in the cancelling state.
    BeganCancelling,
    /// A feedback message for the goal arrived.
    Feedback(F),
    /// The feedback channel closed: the navigation for this plan is complete.
    FeedbackClosed,
    /// A client asked to cancel the goal.
    CancelRequested,
}

/// What the server does next, as decided by [`NavigateToPoseAction::step`].
#[derive(Debug)]
pub enum ActionCommand<F> {
    /// Reject the goal (terminal).
    Reject,
    /// Accept the goal and begin it.
    AcceptAndBegin,
    /// Finish the goal as cancelled (terminal).
    Cancelled,
    /// Publish this feedback for the goal and keep waiting.
    PublishFeedback(F),
    /// Finish the goal as succeeded (terminal).
    Succeeded,
    /// Leave the cancel request unanswered and keep executing.
    KeepExecuting,
    /// Begin cancelling, then finish the goal as cancelled (terminal).
    BeginCancellingThenCancelled,
    /// Begin cancelling, then finish the goal as succeeded (terminal).
    BeginCancellingThenSucceeded,
}

/// One goal handled by the action server.
#[derive(Clone, Copy, Debug)]
pub struct NavigateToPoseAction {
    pub settings: NavigateToPoseActionSettings,
    pub phase: ActionPhase,
    /// Cancel requests received while executing.
    pub cancel_requests: usize,
}

/// Whether `event` is one that can arrive in `phase`.
pub open spec fn event_expected<F>(phase: ActionPhase, event: ActionEvent<F>) -> bool {
    match phase {
        ActionPhase::PublishingDestination => event is DestinationPublished
            || event is DestinationPublishFailed,
        ActionPhase::Beginning => event is BeganExecuting || event is BeganCancelling,
        ActionPhase::Executing => event is Feedback || event is FeedbackClosed
            || event is CancelRequested,
        ActionPhase::Finished => false,
    }
}

/// The state after `event` and the command it calls for.
pub open spec fn action_next<F>(s: NavigateToPoseAction, event: ActionEvent<F>) -> (
    NavigateToPoseAction,
    ActionCommand<F>,
) {
    let finished = NavigateToPoseAction { phase: ActionPhase::Finished, ..s };
    match event {
        ActionEvent::DestinationPublished => (
            NavigateToPoseAction { phase: ActionPhase::Beginning, ..s },
            ActionCommand::AcceptAndBegin,
        ),
        ActionEvent::DestinationPublishFailed => (finished, ActionCommand::Reject),
        ActionEvent::BeganExecuting => (
            NavigateToPoseAction { phase: ActionPhase::Executing, cancel_requests: 0, ..s },
            ActionCommand::KeepExecuting,
        ),
        ActionEvent::BeganCancelling => (finished, ActionCommand::Cancelled),
        ActionEvent::Feedback(f) => (s, ActionCommand::PublishFeedback(f)),
        ActionEvent::FeedbackClosed => (finished, ActionCommand::Succeeded),
        ActionEvent::CancelRequested => {
            let count = (s.cancel_requests + 1) as usize;
            if count > s.settings.cancel_refusal_limit {
                (
                    NavigateToPoseAction { phase: ActionPhase::Finished, cancel_requests: count, ..s },
                    if s.settings.continue_after_cancelling {
                        ActionCommand::BeginCancellingThenSucceeded
                    } else {
                        ActionCommand::BeginCancellingThenCancelled
                    },
                )
            } else {
                (NavigateToPoseAction { cancel_requests: count, ..s }, ActionCommand::KeepExecuting)
            }
        },
    }
}

/// Whether `command` ends the goal.
pub open spec fn is_terminal<F>(command: ActionCommand<F>) -> bool {
    ||| command is Reject
    ||| command is Cancelled
    ||| command is Succeeded
    ||| command is BeginCancellingThenCancelled
    ||| command is BeginCancellingThenSucceeded
}

impl NavigateToPoseAction {
    /// A goal that was just requested.
    pub fn new(settings: NavigateToPoseActionSettings) -> (action: Self)
        ensures
            action.settings == settings,
            action.phase == ActionPhase::PublishingDestination,
            action.cancel_requests == 0,
    {
        NavigateToPoseAction { settings, phase: ActionPhase::PublishingDestination, cancel_requests: 0 }
    }

    /// Whether the goal has reached a terminal state.
    pub fn is_finished(&self) -> (finished: bool)
        ensures
            finished == (self.phase == ActionPhase::Finished),
    {
        match self.phase {
            ActionPhase::Finished => true,
            _ => false,
        }
    }

    /// Takes in the outcome of the last outside step and returns the next command.
    ///
    /// A failed destination publish rejects the goal; a goal that begins
    /// cancelled is cancelled; feedback is forwarded unchanged; a closed
    /// feedback channel ends the goal in success. Each cancel request is
    /// counted: up to `cancel_refusal_limit` of them are left unanswered, the
    /// next one begins cancelling and ends the goal, as cancelled unless
    /// `continue_after_cancelling` is set, in which case it ends as succeeded.
    pub fn step<F>(&mut self, event: ActionEvent<F>) -> (command: ActionCommand<F>)
        requires
            event_expected(old(self).phase, event),
            event is CancelRequested ==> old(self).cancel_requests < usize::MAX,
        ensures
            (*final(self), command) == action_next(*old(self), event),
            is_terminal(command) <==> final(self).phase == ActionPhase::Finished,
            final(self).settings == old(self).settings,
            event matches ActionEvent::Feedback(f) ==> command == ActionCommand::PublishFeedback(f)
                && *final(self) == *old(self),
            event is FeedbackClosed ==> command is Succeeded && final(self).phase
                == ActionPhase::Finished,
            event is CancelRequested ==> final(self).cancel_requests == old(self).cancel_requests + 1
                && (command is KeepExecuting <==> old(self).cancel_requests + 1
                <= old(self).settings.cancel_refusal_limit),
            event is CancelRequested && old(self).cancel_requests + 1
                > old(self).settings.cancel_refusal_limit ==> if old(
                self,
            ).settings.continue_after_cancelling {
                command is BeginCancellingThenSucceeded
            } else {
                command is BeginCancellingThenCancelled
            },
            event is DestinationPublished ==> command is AcceptAndBegin && final(self).phase
                == ActionPhase::Beginning,
            event is DestinationPublishFailed ==> command is Reject,
            event is BeganExecuting ==> final(self).phase == ActionPhase::Executing
                && final(self).cancel_requests == 0,
            event is BeganCancelling ==> command is Cancelled,
    {
        match event {
            ActionEvent::DestinationPublished => {
                self.phase = ActionPhase::Beginning;
                ActionCommand::AcceptAndBegin
            },
            ActionEvent::DestinationPublishFailed => {
                self.phase = ActionPhase::Finished;
                ActionCommand::Reject
            },
            ActionEvent::BeganExecuting => {
                self.phase = ActionPhase::Executing;
                self.cancel_requests = 0;
                ActionCommand::KeepExecuting
            },
            ActionEvent::BeganCancelling => {
                self.phase = ActionPhase::Finished;
                ActionCommand::Cancelled
            },
            ActionEvent::Feedback(f) => ActionCommand::PublishFeedback(f),
            ActionEvent::FeedbackClosed => {
                self.phase = ActionPhase::Finished;
                ActionCommand::Succeeded
            },
            ActionEvent::CancelRequested => {
                self.cancel_requests = self.cancel_requests + 1;
                if self.cancel_requests > self.settings.cancel_refusal_limit {
                    self.phase = ActionPhase::Finished;
                    if self.settings.continue_after_cancelling {
                        ActionCommand::BeginCancellingThenSucceeded
                    } else {
                        ActionCommand::BeginCancellingThenCancelled
                    }
                } else {
                    ActionCommand::KeepExecuting
                }
            },
        }
    }
}

/// The goal after the events of `events`, in order, starting from `s`.
pub open spec fn after_events<F>(s: NavigateToPoseAction, events: Seq<ActionEvent<F>>) -> NavigateToPoseAction
    decreases events.len(),
{
    if events.len() == 0 {
        s
    } else {
        after_events(action_next(s, events[0]).0, events.drop_first())
    }
}

/// How many of `events` are cancel requests.
pub open spec fn count_cancel_requests<F>(events: Seq<ActionEvent<F>>) -> nat
    decreases events.len(),
{
    if events.len() == 0 {
        0
    } else {
        (if events[0] is CancelRequested { 1nat } else { 0nat }) + count_cancel_requests(
            events.drop_first(),
        )
    }
}

/// On an executing goal, feedback is published as it came and changes
/// nothing; a closed feedback channel ends the goal in success, however many
/// cancel requests were counted before.
pub proof fn lemma_feedback_and_close<F>(s: NavigateToPoseAction, f: F)
    requires
        s.phase == ActionPhase::Executing,
    ensures
        action_next(s, ActionEvent::Feedback(f)) == (s, ActionCommand::PublishFeedback(f)),
        action_next(s, ActionEvent::<F>::FeedbackClosed).1 is Succeeded,
        action_next(s, ActionEvent::<F>::FeedbackClosed).0.phase == ActionPhase::Finished,
        action_next(s, ActionEvent::<F>::FeedbackClosed).0.cancel_requests == s.cancel_requests,
{
}

/// An executing goal counts every cancel request since it began, whatever
/// feedback arrives in between: after a run of feedback and `n` cancel
/// requests that stays within the limit, it still executes with `n` more
/// counted, and the next cancel request ends it exactly when the count then
/// passes the limit. (A limit of `usize::MAX` would overflow the count.)
pub proof fn lemma_cancel_count_ignores_feedback<F>(s: NavigateToPoseAction, events: Seq<ActionEvent<F>>)
    requires
        s.phase == ActionPhase::Executing,
        forall|i: int| 0 <= i < events.len() ==> (#[trigger] events[i] is Feedback
            || events[i] is CancelRequested),
        s.cancel_requests + count_cancel_requests(events) <= s.settings.cancel_refusal_limit,
        s.settings.cancel_refusal_limit < usize::MAX,
    ensures
        after_events(s, events) == (NavigateToPoseAction {
            cancel_requests: (s.cancel_requests + count_cancel_requests(events)) as usize,
            ..s
        }),
        ({
            let t = after_events(s, events);
            let (u, c) = action_next(t, ActionEvent::<F>::CancelRequested);
            &&& u.cancel_requests == t.cancel_requests + 1
            &&& (c is KeepExecuting <==> t.cancel_requests + 1 <= s.settings.cancel_refusal_limit)
            &&& (u.phase == ActionPhase::Finished <==> t.cancel_requests + 1
                > s.settings.cancel_refusal_limit)
        }),
    decreases events.len(),
{
    if events.len() > 0 {
        let e = events[0];
        let rest = events.drop_first();
        assert forall|i: int| 0 <= i < rest.len() implies (#[trigger] rest[i] is Feedback
            || rest[i] is CancelRequested) by {
            assert(rest[i] == events[i + 1]);
        }
        assert(e is Feedback || e is CancelRequested) by {
            assert(events[0] is Feedback || events[0] is CancelRequested);
        }
        let t = action_next(s, e).0;
        lemma_cancel_count_ignores_feedback(t, rest);
    }
}

/// The goal after `n` cancel requests, starting from `s`, as long as it keeps executing.
pub open spec fn after_cancel_requests(s: NavigateToPoseAction, n: nat) -> NavigateToPoseAction
    decreases n,
{
    if n == 0 || s.phase != ActionPhase::Executing {
        s
    } else {
        after_cancel_requests(action_next::<()>(s, ActionEvent::CancelRequested).0, (n - 1) as nat)
    }
}

/// An executing goal leaves the first `cancel_refusal_limit` cancel requests
/// unanswered and keeps executing; the request after those ends it. (With a
/// limit of `usize::MAX` the count itself would overflow.)
pub proof fn lemma_cancel_refusal(settings: NavigateToPoseActionSettings, n: nat)
    requires
        n <= settings.cancel_refusal_limit < usize::MAX,
    ensures
        ({
            let start = NavigateToPoseAction {
                settings,
                phase: ActionPhase::Executing,
                cancel_requests: 0,
            };
            let s = after_cancel_requests(start, n);
            &&& s.phase == ActionPhase::Executing
            &&& s.cancel_requests == n
            &&& action_next::<()>(s, ActionEvent::CancelRequested).1 is KeepExecuting
                <==> n < settings.cancel_refusal_limit
            &&& n == settings.cancel_refusal_limit ==> {
                let (t, c) = action_next::<()>(s, ActionEvent::CancelRequested);
                &&& t.phase == ActionPhase::Finished
                &&& if settings.continue_after_cancelling {
                    c is BeginCancellingThenSucceeded
                } else {
                    c is BeginCancellingThenCancelled
                }
            }
        }),
{
    let start = NavigateToPoseAction { settings, phase: ActionPhase::Executing, cancel_requests: 0 };
    lemma_cancels_from(start, n);
}

/// From an executing goal with `k` counted requests, `n` more requests that
/// stay within the limit keep it executing with `k + n` counted.
proof fn lemma_cancels_from(s: NavigateToPoseAction, n: nat)
    requires
        s.phase == ActionPhase::Executing,
        s.cancel_requests + n <= s.settings.cancel_refusal_limit,
    ensures
        after_cancel_requests(s, n) == (NavigateToPoseAction {
            cancel_requests: (s.cancel_requests + n) as usize,
            ..s
        }),
    decreases n,
{
    if n > 0 {
        let t = action_next::<()>(s, ActionEvent::CancelRequested).0;
        lemma_cancels_from(t, (n - 1) as nat);
    }
}

} // verus!
