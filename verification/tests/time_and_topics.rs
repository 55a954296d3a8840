use nav2_traffic::inner_navigation::InnerNavigationClient;
use nav2_traffic::navigation_server::{feedback_recipients, is_navigation_complete};
use nav2_traffic::time::{stamp_from_nanos, NANOS_PER_SEC};
use nav2_traffic::topics::{
    agent_topic, default_agent_names, discovery_topic, node_name, AgentTopic,
};

#[test]
fn stamp_of_positive_reading() {
    assert_eq!(NANOS_PER_SEC, 1_000_000_000);
    assert_eq!(stamp_from_nanos(1_500_000_000), (1, 500_000_000));
    assert_eq!(stamp_from_nanos(0), (0, 0));
    assert_eq!(stamp_from_nanos(999_999_999), (0, 999_999_999));
}

#[test]
fn stamp_of_negative_reading_matches_integer_casts() {
    for nsec in [-1_500_000_000i64, -1, i64::MIN, i64::MAX, 3_000_000_000_000_000_000] {
        let expected = ((nsec / 1_000_000_000) as i32, (nsec % 1_000_000_000) as u32);
        assert_eq!(stamp_from_nanos(nsec), expected);
    }
    assert_eq!(stamp_from_nanos(-1_500_000_000), (-1, 3_794_967_296));
}

#[test]
fn agent_topic_names() {
    assert_eq!(agent_topic("robot0", AgentTopic::DestinationGoal), "robot0/destination/goal");
    assert_eq!(agent_topic("robot0", AgentTopic::AmclPose), "robot0/inner/amcl_pose");
    assert_eq!(agent_topic("robot0", AgentTopic::Odometry), "robot0/odom");
    assert_eq!(agent_topic("robot1", AgentTopic::SafeZone), "robot1/plan/safe_zone");
    assert_eq!(
        agent_topic("robot1", AgentTopic::PlanCostmap),
        "robot1/inner/global_costmap/plan/costmap"
    );
    assert_eq!(agent_topic("robot1", AgentTopic::Progress), "robot1/plan/progress");
    assert_eq!(
        agent_topic("r", AgentTopic::InnerNavigateToPose),
        "r/inner/navigate_to_pose"
    );
    assert_eq!(agent_topic("r", AgentTopic::NavigateToPose), "r/navigate_to_pose");
    assert_eq!(
        agent_topic("r", AgentTopic::RawCostmap),
        "r/inner/global_costmap/costmap_raw"
    );
}

#[test]
fn fixed_names() {
    assert_eq!(discovery_topic(), "/destination/discovery");
    assert_eq!(node_name(), "nav_traffic_node");
    assert_eq!(default_agent_names(), vec!["robot0".to_string(), "robot1".to_string()]);
}

#[test]
fn feedback_goes_to_requests_of_its_agent() {
    assert_eq!(feedback_recipients(2, &vec![1, 2, 3, 2]), vec![false, true, false, true]);
    assert_eq!(feedback_recipients(9, &vec![]), Vec::<bool>::new());
}

#[test]
fn navigation_completes_without_goal_at_destination() {
    let mut client: InnerNavigationClient<(), u8> = InnerNavigationClient::new(());
    assert!(is_navigation_complete(&client, true));
    assert!(!is_navigation_complete(&client, false));
    *client.goal_mut() = Some(nav2_traffic::inner_navigation::ActiveInnerGoal::new(
        1,
        nav2_traffic::ids::SafeZoneId {
            plan_id: nav2_traffic::ids::PlanId { destination_session: 0, plan_version: 0 },
            safe_zone_version: 0,
        },
    ));
    assert!(!is_navigation_complete(&client, true));
}
