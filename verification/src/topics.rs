//! Names of the ROS 2 node, topics and actions the bridge uses.
use vstd::prelude::*;

verus! {

/// A topic or action in an agent's namespace.
#[derive(Clone, Copy, Debug, PartialEq, Eq, Structural)]
pub enum AgentTopic {
    /// Destination goals published for the agent.
    DestinationGoal,
    /// The agent's localized pose.
    AmclPose,
    /// The agent's odometry.
    Odometry,
    /// Safe zones planned for the agent.
    SafeZone,
    /// The costmap of the agent's current safe zone.
    PlanCostmap,
    /// The agent's progress along its plan.
    Progress,
    /// The inner Nav2 `navigate_to_pose` action.
    InnerNavigateToPose,
    /// The outer `navigate_to_pose` action served by the bridge.
    NavigateToPose,
    /// The raw global costmap of the inner Nav2 stack.
    RawCostmap,
}

pub open spec fn spec_topic_suffix(topic: AgentTopic) -> Seq<char> {
    match topic {
        AgentTopic::DestinationGoal => "/destination/goal"@,
        AgentTopic::AmclPose => "/inner/amcl_pose"@,
        AgentTopic::Odometry => "/odom"@,
        AgentTopic::SafeZone => "/plan/safe_zone"@,
        AgentTopic::PlanCostmap => "/inner/global_costmap/plan/costmap"@,
        AgentTopic::Progress => "/plan/progress"@,
        AgentTopic::InnerNavigateToPose => "/inner/navigate_to_pose"@,
        AgentTopic::NavigateToPose => "/navigate_to_pose"@,
        AgentTopic::RawCostmap => "/inner/global_costmap/costmap_raw"@,
    }
}

impl AgentTopic {
    /// What follows the agent's name in the topic's name.
    pub fn suffix(&self) -> (suffix: &'static str)
        ensures
            suffix@ == spec_topic_suffix(*self),
    {
        match self {
            AgentTopic::DestinationGoal => "/destination/goal",
            AgentTopic::AmclPose => "/inner/amcl_pose",
            AgentTopic::Odometry => "/odom",
            AgentTopic::SafeZone => "/plan/safe_zone",
            AgentTopic::PlanCostmap => "/inner/global_costmap/plan/costmap",
            AgentTopic::Progress => "/plan/progress",
            AgentTopic::InnerNavigateToPose => "/inner/navigate_to_pose",
            AgentTopic::NavigateToPose => "/navigate_to_pose",
            AgentTopic::RawCostmap => "/inner/global_costmap/costmap_raw",
        }
    }
}

/// The full name of `topic` for the agent called `agent_name`.
pub fn agent_topic(agent_name: &str, topic: AgentTopic) -> (name: String)
    ensures
        name@ == agent_name@ + spec_topic_suffix(topic),
{
    let mut name = agent_name.to_owned();
    name.append(topic.suffix());
    name
}

/// The topic on which the bridge announces its agents.
pub fn discovery_topic() -> (name: &'static str)
    ensures
        name@ == "/destination/discovery"@,
{
    "/destination/discovery"
}

/// The name of the bridge's ROS 2 node.
pub fn node_name() -> (name: &'static str)
    ensures
        name@ == "nav_traffic_node"@,
{
    "nav_traffic_node"
}

/// The agents the bridge starts with.
pub fn default_agent_names() -> (names: Vec<String>)
    ensures
        names@.len() == 2,
        names@[0]@ == "robot0"@,
        names@[1]@ == "robot1"@,
{
    let mut names: Vec<String> = Vec::new();
    names.push("robot0".to_owned());
    names.push("robot1".to_owned());
    names
}

} // verus!
