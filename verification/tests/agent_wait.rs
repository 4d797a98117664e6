use herdr::agents::{
    agent_status_name, parse_agent_state, parse_agent_status, AgentStatus, AgentWait, PaneAgent,
    WaitStep, WAIT_TIMEOUT_MESSAGE,
};

/// Report `state` for agent `pi` from `custom:test` in a pane whose workspace has focus
/// when `in_sight`.
fn report(previous: Option<&PaneAgent>, state: &str, in_sight: bool) -> PaneAgent {
    let state = parse_agent_state(&state.to_string()).expect("a known agent state");
    PaneAgent::from_report(previous, "pi".into(), "custom:test".into(), state, in_sight)
}

#[test]
fn agent_wait_exits_immediately_when_status_already_matches() {
    // The workspace was created with focus, so its root pane is in sight.
    let agent = report(None, "idle", true);

    let wait = AgentWait::new(parse_agent_status(&"idle".to_string()).unwrap(), 1000);
    assert_eq!(wait.poll(0, Some(agent.status)), WaitStep::Matched);
    assert_eq!(agent_status_name(agent.status), "idle");
    assert_eq!(agent.agent, "pi");
}

#[test]
fn agent_wait_times_out_when_status_does_not_match() {
    let agent = report(None, "working", true);

    let wait = AgentWait::new(parse_agent_status(&"blocked".to_string()).unwrap(), 100);
    assert_eq!(wait.poll(0, Some(agent.status)), WaitStep::Pending);
    assert_eq!(wait.poll(99, Some(agent.status)), WaitStep::Pending);
    let step = wait.poll(100, Some(agent.status));
    assert_ne!(step, WaitStep::Matched);
    assert_eq!(step, WaitStep::TimedOut);
    assert!(WAIT_TIMEOUT_MESSAGE.contains("timed out waiting for agent status"));
}

#[test]
fn agent_wait_exits_when_done_status_matches() {
    // A second workspace took focus, so the first workspace's pane is out of sight.
    let mut agent: Option<PaneAgent> = None;
    for state in ["working", "idle"] {
        agent = Some(report(agent.as_ref(), state, false));
    }
    let agent = agent.unwrap();

    let wait = AgentWait::new(parse_agent_status(&"done".to_string()).unwrap(), 10000);
    assert_eq!(wait.poll(0, Some(agent.status)), WaitStep::Matched);
    assert_eq!(agent_status_name(agent.status), "done");
    assert_eq!(agent.agent, "pi");
}

#[test]
fn agent_status_names_parse_back() {
    for status in [AgentStatus::Idle, AgentStatus::Working, AgentStatus::Blocked, AgentStatus::Done] {
        assert_eq!(parse_agent_status(&agent_status_name(status)), Some(status));
    }
    assert_eq!(parse_agent_status(&"busy".to_string()), None);
    assert_eq!(parse_agent_state(&"done".to_string()), None);
}

#[test]
fn idle_in_sight_after_work_is_idle_not_done() {
    let working = report(None, "working", true);
    let idle = report(Some(&working), "idle", true);
    assert_eq!(idle.status, AgentStatus::Idle);
    let blocked = report(Some(&idle), "blocked", false);
    assert_eq!(blocked.status, AgentStatus::Blocked);
}

#[test]
fn wait_without_agent_times_out() {
    let wait = AgentWait::new(AgentStatus::Idle, 5);
    assert_eq!(wait.poll(4, None), WaitStep::Pending);
    assert_eq!(wait.poll(5, None), WaitStep::TimedOut);
}
