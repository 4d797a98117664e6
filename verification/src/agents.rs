//! Agent status of panes, and the decisions of `herdr agent wait`.
//!
//! An agent reports a state (`idle`, `working`, `blocked`); the pane's agent status
//! follows it, except that an agent that goes idle after working while its pane is out
//! of sight is `done`. `agent wait` polls a pane's status until it equals the awaited one
//! or the timeout passes; the caller does the polling and the sleeping, and this module
//! decides at each poll.
use vstd::prelude::*;

verus! {

/// A state an agent reports for itself.
#[derive(PartialEq, Eq, Structural, Clone, Copy, Debug)]
pub enum AgentState {
    Idle,
    Working,
    Blocked,
}

/// The status of a pane's agent, as the API reports it.
#[derive(PartialEq, Eq, Structural, Clone, Copy, Debug)]
pub enum AgentStatus {
    Idle,
    Working,
    Blocked,
    /// Went idle after working while nobody was looking.
    Done,
}

/// The state that a report's `state` field names, if it names one.
pub open spec fn agent_state_of(s: Seq<char>) -> Option<AgentState> {
    if s == "idle"@ {
        Some(AgentState::Idle)
    } else if s == "working"@ {
        Some(AgentState::Working)
    } else if s == "blocked"@ {
        Some(AgentState::Blocked)
    } else {
        None
    }
}

/// The status that a name denotes, if it denotes one.
pub open spec fn agent_status_of(s: Seq<char>) -> Option<AgentStatus> {
    if s == "done"@ {
        Some(AgentStatus::Done)
    } else {
        match agent_state_of(s) {
            Some(state) => Some(status_of_state(state)),
            None => None,
        }
    }
}

/// The status that mirrors a reported state.
pub open spec fn status_of_state(state: AgentState) -> AgentStatus {
    match state {
        AgentState::Idle => AgentStatus::Idle,
        AgentState::Working => AgentStatus::Working,
        AgentState::Blocked => AgentStatus::Blocked,
    }
}

/// The name of a status.
pub open spec fn status_name(status: AgentStatus) -> Seq<char> {
    match status {
        AgentStatus::Idle => "idle"@,
        AgentStatus::Working => "working"@,
        AgentStatus::Blocked => "blocked"@,
        AgentStatus::Done => "done"@,
    }
}

/// The status after `reported` arrives, given the status before and whether the pane is
/// in sight (its workspace has focus).
pub open spec fn status_after_report(
    previous: Option<AgentStatus>,
    reported: AgentState,
    in_sight: bool,
) -> AgentStatus {
    if reported == AgentState::Idle && !in_sight && (previous == Some(AgentStatus::Working)
        || previous == Some(AgentStatus::Done)) {
        AgentStatus::Done
    } else {
        status_of_state(reported)
    }
}

/// Whether `a` and `b` hold the same text.
fn same_text(a: &String, b: &str) -> (r: bool)
    ensures
        r == (a@ == b@),
{
    *a == String::from_str(b)
}

/// The state a report's `state` field names, or `None` for any other value.
pub fn parse_agent_state(s: &String) -> (r: Option<AgentState>)
    ensures
        r == agent_state_of(s@),
{
    if same_text(s, "idle") {
        Some(AgentState::Idle)
    } else if same_text(s, "working") {
        Some(AgentState::Working)
    } else if same_text(s, "blocked") {
        Some(AgentState::Blocked)
    } else {
        None
    }
}

/// The status a name denotes, or `None` for any other value.
pub fn parse_agent_status(s: &String) -> (r: Option<AgentStatus>)
    ensures
        r == agent_status_of(s@),
{
    if same_text(s, "done") {
        return Some(AgentStatus::Done);
    }
    match parse_agent_state(s) {
        Some(AgentState::Idle) => Some(AgentStatus::Idle),
        Some(AgentState::Working) => Some(AgentStatus::Working),
        Some(AgentState::Blocked) => Some(AgentStatus::Blocked),
        None => None,
    }
}

/// The name of a status, as the API writes it.
pub fn agent_status_name(status: AgentStatus) -> (r: String)
    ensures
        r@ == status_name(status),
{
    match status {
        AgentStatus::Idle => String::from_str("idle"),
        AgentStatus::Working => String::from_str("working"),
        AgentStatus::Blocked => String::from_str("blocked"),
        AgentStatus::Done => String::from_str("done"),
    }
}

/// The status of a pane's agent after it reports `reported`.
pub fn next_agent_status(previous: Option<AgentStatus>, reported: AgentState, in_sight: bool) -> (r:
    AgentStatus)
    ensures
        r == status_after_report(previous, reported, in_sight),
{
    let was_busy = match previous {
        Some(AgentStatus::Working) => true,
        Some(AgentStatus::Done) => true,
        _ => false,
    };
    match reported {
        AgentState::Idle => if !in_sight && was_busy {
            AgentStatus::Done
        } else {
            AgentStatus::Idle
        },
        AgentState::Working => AgentStatus::Working,
        AgentState::Blocked => AgentStatus::Blocked,
    }
}

/// The agent reported in a pane.
pub struct PaneAgent {
    /// The agent's name, such as `pi`.
    pub agent: String,
    /// Who reported it, such as `custom:test`.
    pub source: String,
    pub status: AgentStatus,
}

impl PaneAgent {
    /// The pane's agent after a report of `agent`, from `source`, in `state`; `previous` is
    /// the pane's agent before, `in_sight` whether the pane's workspace has focus.
    pub fn from_report(
        previous: Option<&PaneAgent>,
        agent: String,
        source: String,
        state: AgentState,
        in_sight: bool,
    ) -> (r: PaneAgent)
        ensures
            r.agent == agent,
            r.source == source,
            r.status == status_after_report(
                match previous {
                    Some(p) => Some(p.status),
                    None => None,
                },
                state,
                in_sight,
            ),
    {
        let previous_status = match previous {
            Some(p) => Some(p.status),
            None => None,
        };
        PaneAgent { agent, source, status: next_agent_status(previous_status, state, in_sight) }
    }
}

/// What a poll of `agent wait` concludes.
#[derive(PartialEq, Eq, Structural, Clone, Copy, Debug)]
pub enum WaitStep {
    /// The status matches: print the agent and exit successfully.
    Matched,
    /// Not yet: sleep and poll again.
    Pending,
    /// The timeout passed without a match: fail.
    TimedOut,
}

/// The message `agent wait` fails with when the timeout passes.
pub const WAIT_TIMEOUT_MESSAGE: &'static str = "timed out waiting for agent status";

/// One `herdr agent wait` invocation: the awaited status and the timeout in milliseconds.
pub struct AgentWait {
    pub until: AgentStatus,
    pub timeout_ms: u64,
}

impl AgentWait {
    /// The conclusion of a poll `elapsed_ms` after the wait began, when the pane's agent
    /// has `status` (`None`: no agent has reported).
    pub open spec fn step(self, elapsed_ms: u64, status: Option<AgentStatus>) -> WaitStep {
        if status == Some(self.until) {
            WaitStep::Matched
        } else if elapsed_ms >= self.timeout_ms {
            WaitStep::TimedOut
        } else {
            WaitStep::Pending
        }
    }

    /// Wait for `until`, giving up after `timeout_ms` milliseconds.
    pub fn new(until: AgentStatus, timeout_ms: u64) -> (w: Self)
        ensures
            w.until == until,
            w.timeout_ms == timeout_ms,
    {
        AgentWait { until, timeout_ms }
    }

    /// Decide a poll made `elapsed_ms` after the wait began, seeing `status`.
    pub fn poll(&self, elapsed_ms: u64, status: Option<AgentStatus>) -> (r: WaitStep)
        ensures
            r == self.step(elapsed_ms, status),
    {
        let matched = match status {
            Some(s) => s == self.until,
            None => false,
        };
        if matched {
            WaitStep::Matched
        } else if elapsed_ms >= self.timeout_ms {
            WaitStep::TimedOut
        } else {
            WaitStep::Pending
        }
    }
}

/// A wait ends at once when the status already matches, whatever the timeout.
pub proof fn lemma_wait_matches_immediately(w: AgentWait, elapsed_ms: u64, status: AgentStatus)
    requires
        status == w.until,
    ensures
        w.step(elapsed_ms, Some(status)) == WaitStep::Matched,
{
}

/// A wait whose status never matches goes on until the timeout and fails from then on.
pub proof fn lemma_wait_times_out_without_match(
    w: AgentWait,
    status: Option<AgentStatus>,
    early: u64,
    late: u64,
)
    requires
        status != Some(w.until),
        early < w.timeout_ms <= late,
    ensures
        w.step(early, status) == WaitStep::Pending,
        w.step(late, status) == WaitStep::TimedOut,
{
}

/// An agent out of sight that works and then goes idle is done; in sight it is idle.
pub proof fn lemma_unseen_finished_work_is_done(previous: Option<AgentStatus>)
    ensures
        status_after_report(
            Some(status_after_report(previous, AgentState::Working, false)),
            AgentState::Idle,
            false,
        ) == AgentStatus::Done,
        status_after_report(Some(AgentStatus::Working), AgentState::Idle, true)
            == AgentStatus::Idle,
{
}

/// Every status name is read back as that status.
pub proof fn lemma_status_names_round_trip(status: AgentStatus)
    ensures
        agent_status_of(status_name(status)) == Some(status),
{
    reveal_strlit("idle");
    reveal_strlit("working");
    reveal_strlit("blocked");
    reveal_strlit("done");
    // The names differ in their first letter.
    assert("idle"@[0] != "done"@[0]);
    assert("working"@[0] != "done"@[0]);
    assert("blocked"@[0] != "done"@[0]);
    assert("working"@[0] != "idle"@[0]);
    assert("blocked"@[0] != "idle"@[0]);
    assert("blocked"@[0] != "working"@[0]);
}

} // verus!
