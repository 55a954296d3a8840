# nav2_traffic

A bridge between per-agent Nav2 navigation stacks and a traffic planner,
built on ROS 2, Bevy and Crossflow.

- `src/` is the verified library: plan and safe-zone identifiers, agents,
  topic names, time stamps, safe-zone validation and target choice, costmap
  allocation, the inner navigation goal workflow (request, cancel, monitor,
  retry, clean up) and the outer `navigate_to_pose` action server as a state
  machine.
- `app/` is the program: ECS systems, ROS 2 publishers, subscriptions and
  actions, Crossflow workflows and the HTTP client of the allocation server.
  It converts ROS messages to the library's types and acts on its decisions.
- `tests/` exercises the library on concrete values.

## Inner navigation workflow

```
await requests -> check goal -(goal)-> cancel goal -(accepted)-> trim -> request goal
                            \-(none)-------------------------------------/
request goal -(accepted)-> update goal client -> monitor -> retry -(aborted)-> request goal
                                                                 \-(other)-> clean up goal client
```

## Navigation server workflow

Each outer navigation request is relayed to the feedback of its agent's inner
navigation (the last 10 feedback messages are buffered) and answered once the
agent pursues no inner goal and has reached the destination.
