//! Decision logic of the Nav2 traffic bridge: identifiers, agents, topic
//! names, safe-zone targets, costmap allocation, the inner navigation goal
//! workflow and the outer `navigate_to_pose` action server.
pub mod action_server;
pub mod agent;
pub mod costmap;
pub mod ids;
pub mod inner_navigation;
pub mod navigation_server;
pub mod safe_zone;
pub mod time;
pub mod topics;
