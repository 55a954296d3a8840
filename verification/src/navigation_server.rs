//! Decisions of the outer navigation server: which pending navigation
//! requests a feedback message is for, and when a request is complete.
use crate::inner_navigation::{AgentKey, InnerNavigationClient};
use vstd::prelude::*;

verus! {

/// For each pending request (given by the agent it is for), whether a
/// feedback message about `feedback_agent` goes to it.
pub fn feedback_recipients(feedback_agent: AgentKey, order_agents: &Vec<AgentKey>) -> (to: Vec<bool>)
    ensures
        to.len() == order_agents.len(),
        forall|k: int| 0 <= k < to.len() ==> #[trigger] to[k] == (order_agents[k] == feedback_agent),
{
    let mut to: Vec<bool> = Vec::with_capacity(order_agents.len());
    let mut k: usize = 0;
    while k < order_agents.len()
        invariant
            k <= order_agents.len(),
            to.len() == k,
            forall|j: int| 0 <= j < k ==> #[trigger] to[j] == (order_agents[j] == feedback_agent),
        decreases order_agents.len() - k,
    {
        to.push(order_agents[k] == feedback_agent);
        k += 1;
    }
    to
}

/// A navigation request is complete once the agent's inner client pursues
/// no goal and the agent has reached the destination (`destination_reached`,
/// measured by the caller).
pub fn is_navigation_complete<A, H>(client: &InnerNavigationClient<A, H>, destination_reached: bool) -> (
    complete: bool)
    ensures
        complete == (client.active_goal is None && destination_reached),
{
    client.goal().is_none() && destination_reached
}

} // verus!
