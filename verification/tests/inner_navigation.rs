use nav2_traffic::ids::{PlanId, SafeZoneId};
use nav2_traffic::inner_navigation::{
    cancel_goal_outcome, check_existing_goal, cleanup_target, finish_monitoring,
    goal_request_outcome, monitor_decision, retry_navigation, update_goal_client, ActiveInnerGoal,
    CurrentInnerNavigationGoal, GoalEventKind, GoalRequestReply, GoalStatus,
    InnerNavigateToPoseClient, InnerNavigationClient, InnerNavigationErrorKind,
    InnerNavigationRequest, MonitorDecision, MonitorEnd,
};

fn zone(version: u64) -> SafeZoneId {
    SafeZoneId {
        plan_id: PlanId {
            destination_session: 0xABCD,
            plan_version: 2,
        },
        safe_zone_version: version,
    }
}

fn request(agent: u64) -> InnerNavigationRequest<&'static str> {
    InnerNavigationRequest {
        agent,
        safe_zone_id: zone(5),
        target_pose: "pose",
    }
}

#[test]
fn new_client_has_no_goal() {
    let client: InnerNavigationClient<&str, u32> = InnerNavigationClient::new("client");
    assert!(client.goal().is_none());
    assert_eq!(client.action_client, "client");
}

#[test]
fn request_without_goal_goes_to_new_goal() {
    let client: InnerNavigationClient<&str, u32> = InnerNavigationClient::new("client");
    let routed = check_existing_goal(request(3), Some(&client));
    let back = routed.err().unwrap();
    assert_eq!(back.agent, 3);
    assert_eq!(back.target_pose, "pose");
}

#[test]
fn request_without_client_goes_to_new_goal() {
    let routed = check_existing_goal::<_, &str, u32>(request(4), None);
    assert!(routed.is_err());
}

#[test]
fn request_with_goal_cancels_it_first() {
    let mut client: InnerNavigationClient<&str, u32> = InnerNavigationClient::new("client");
    *client.goal_mut() = Some(ActiveInnerGoal::new(77, zone(1)));
    let cancel = check_existing_goal(request(3), Some(&client)).ok().unwrap();
    assert_eq!(cancel.cancel_client, 77);
    assert_eq!(cancel.request.agent, 3);
}

#[test]
fn accepted_cancel_continues_with_request() {
    let mut client: InnerNavigationClient<&str, u32> = InnerNavigationClient::new("client");
    *client.goal_mut() = Some(ActiveInnerGoal::new(77, zone(1)));
    let cancel = check_existing_goal(request(3), Some(&client)).ok().unwrap();
    let next = cancel_goal_outcome(cancel, Some(true)).ok().unwrap();
    assert_eq!(next.agent, 3);
}

#[test]
fn refused_or_failed_cancel_is_cancel_error() {
    for answer in [Some(false), None] {
        let cancel = check_existing_goal(request(3), Some(&{
            let mut c: InnerNavigationClient<&str, u32> = InnerNavigationClient::new("c");
            *c.goal_mut() = Some(ActiveInnerGoal::new(1, zone(1)));
            c
        }))
        .ok()
        .unwrap();
        let err = cancel_goal_outcome(cancel, answer).err().unwrap();
        assert_eq!(err.kind, InnerNavigationErrorKind::CancelGoalError);
        assert!(err.handle.is_none());
    }
}

#[test]
fn accepted_goal_becomes_current() {
    let current = goal_request_outcome(request(9), GoalRequestReply::Accepted(55u32))
        .ok()
        .unwrap();
    assert_eq!(current.goal_client, 55);
    assert_eq!(current.request.agent, 9);
}

#[test]
fn unaccepted_goal_is_request_error() {
    for reply in [
        GoalRequestReply::NoClient,
        GoalRequestReply::NotAccepted,
        GoalRequestReply::CallFailed,
    ] {
        let err = goal_request_outcome::<_, u32>(request(9), reply).err().unwrap();
        assert_eq!(err.kind, InnerNavigationErrorKind::RequestGoalError);
        assert!(err.handle.is_none());
    }
}

#[test]
fn update_then_reset_goal_client() {
    let mut client: InnerNavigationClient<&str, u32> = InnerNavigationClient::new("client");
    let current = CurrentInnerNavigationGoal {
        request: request(1),
        goal_client: 12u32,
    };
    update_goal_client(&mut client, &current);
    let goal = client.goal().as_ref().unwrap();
    assert_eq!(*goal.client(), 12);
    assert_eq!(*goal.id(), zone(5));
    client.reset_goal();
    assert!(client.goal().is_none());
}

#[test]
fn active_goal_client_mut_writes_through() {
    let mut goal = ActiveInnerGoal::new(1u32, zone(2));
    *goal.client_mut() = 9;
    assert_eq!(goal.goal_client, 9);
    assert_eq!(goal.safe_zone_id, zone(2));
}

#[test]
fn monitor_decisions_for_each_event() {
    assert_eq!(monitor_decision(GoalEventKind::Feedback), MonitorDecision::PublishFeedback);
    assert_eq!(monitor_decision(GoalEventKind::Status), MonitorDecision::LogStatus);
    assert_eq!(
        monitor_decision(GoalEventKind::Result(GoalStatus::Succeeded)),
        MonitorDecision::Finish(MonitorEnd::Succeeded)
    );
    assert_eq!(
        monitor_decision(GoalEventKind::Result(GoalStatus::Aborted)),
        MonitorDecision::Finish(MonitorEnd::Aborted)
    );
    assert_eq!(
        monitor_decision(GoalEventKind::Result(GoalStatus::Cancelled)),
        MonitorDecision::Finish(MonitorEnd::Aborted)
    );
    for status in [
        GoalStatus::Unknown,
        GoalStatus::Accepted,
        GoalStatus::Executing,
        GoalStatus::Cancelling,
    ] {
        assert_eq!(
            monitor_decision(GoalEventKind::Result(status)),
            MonitorDecision::KeepMonitoring
        );
    }
    assert_eq!(
        monitor_decision(GoalEventKind::StreamEnded),
        MonitorDecision::Finish(MonitorEnd::Unknown)
    );
    assert_eq!(
        monitor_decision(GoalEventKind::CallFailed),
        MonitorDecision::Finish(MonitorEnd::Unknown)
    );
}

fn current(agent: u64) -> CurrentInnerNavigationGoal<&'static str, u32> {
    CurrentInnerNavigationGoal {
        request: request(agent),
        goal_client: 3,
    }
}

#[test]
fn succeeded_goal_is_cleaned_not_retried() {
    let result = finish_monitoring(current(6), MonitorEnd::Succeeded);
    assert!(result.is_ok());
    let back = retry_navigation(result).err().unwrap();
    assert_eq!(cleanup_target(&back), Some(6));
}

#[test]
fn aborted_goal_is_retried_with_its_request() {
    let result = finish_monitoring(current(6), MonitorEnd::Aborted);
    assert_eq!(
        result.as_ref().err().unwrap().kind,
        InnerNavigationErrorKind::GoalAbortedError
    );
    let retry = retry_navigation(result).ok().unwrap();
    assert_eq!(retry.agent, 6);
    assert_eq!(retry.safe_zone_id, zone(5));
}

#[test]
fn unknown_end_is_cleaned() {
    let result = finish_monitoring(current(8), MonitorEnd::Unknown);
    assert_eq!(
        result.as_ref().err().unwrap().kind,
        InnerNavigationErrorKind::UnknownError
    );
    let back = retry_navigation(result).err().unwrap();
    assert_eq!(cleanup_target(&back), Some(8));
}

#[test]
fn error_without_handle_cleans_nothing() {
    let err = goal_request_outcome::<_, u32>(request(9), GoalRequestReply::NotAccepted)
        .err()
        .unwrap();
    let result: Result<nav2_traffic::inner_navigation::InnerNavigationSuccess<&str, u32>, _> =
        Err(err);
    let back = retry_navigation(result).err().unwrap();
    assert_eq!(cleanup_target(&back), None);
}

#[test]
fn inner_navigation_error_messages() {
    assert_eq!(
        InnerNavigationErrorKind::CancelGoalError.message(),
        "Failed to cancel current goal!"
    );
    assert_eq!(
        InnerNavigationErrorKind::RequestGoalError.message(),
        "Failed to request new goal!"
    );
    assert_eq!(InnerNavigationErrorKind::GoalAbortedError.message(), "Goal was aborted!");
    assert_eq!(InnerNavigationErrorKind::UnknownError.message(), "Unknown error!");
}

#[test]
fn single_goal_client_reset() {
    let mut client = InnerNavigateToPoseClient {
        action_client: "c",
        goal_client: None::<u32>,
    };
    *client.goal_client_mut() = Some(4);
    assert_eq!(*client.goal_client(), Some(4));
    client.reset_goal_client();
    assert_eq!(*client.goal_client(), None);
}
