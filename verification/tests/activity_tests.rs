use project_workspaces::activity::{
    last_agent_activity, tab_is_active, tab_node_activity, workspace_activity_slot,
    workspace_parent_activity_slot, CLIAgent, ProjectTreeTabId, ProjectTreeTabNode,
    TabNodeActivity, WorkspaceActivitySlot, WorkspaceAgentActivity, WorkspaceAgentIdentity,
    WorkspaceAgentPhase,
};
use project_workspaces::domain::RepositoryWorkspaceId;

fn grok_running() -> WorkspaceAgentActivity {
    WorkspaceAgentActivity {
        identity: WorkspaceAgentIdentity::Cli(CLIAgent::Grok),
        phase: WorkspaceAgentPhase::InProgress,
    }
}

fn oz_blocked() -> WorkspaceAgentActivity {
    WorkspaceAgentActivity {
        identity: WorkspaceAgentIdentity::Oz { ambient: false },
        phase: WorkspaceAgentPhase::Blocked,
    }
}

fn claude_blocked() -> WorkspaceAgentActivity {
    WorkspaceAgentActivity {
        identity: WorkspaceAgentIdentity::Cli(CLIAgent::Claude),
        phase: WorkspaceAgentPhase::Blocked,
    }
}

#[test]
fn tab_node_activity_prefers_agent_over_running_dot() {
    assert_eq!(
        tab_node_activity(Some(grok_running()), true),
        TabNodeActivity::Agent(grok_running())
    );
}

#[test]
fn tab_node_activity_falls_back_to_running_dot() {
    assert_eq!(tab_node_activity(None, true), TabNodeActivity::RunningDot);
}

#[test]
fn tab_node_activity_is_idle_when_empty() {
    assert_eq!(tab_node_activity(None, false), TabNodeActivity::Idle);
}

#[test]
fn expanded_parent_never_shows_activity_slot() {
    assert_eq!(workspace_parent_activity_slot(true, true), WorkspaceActivitySlot::Empty);
    assert_eq!(workspace_parent_activity_slot(true, false), WorkspaceActivitySlot::Empty);
}

#[test]
fn collapsed_parent_shows_running_dot_when_any_child_is_busy() {
    assert_eq!(workspace_parent_activity_slot(false, true), WorkspaceActivitySlot::RunningDot);
}

#[test]
fn collapsed_idle_parent_is_empty() {
    assert_eq!(workspace_parent_activity_slot(false, false), WorkspaceActivitySlot::Empty);
}

#[test]
fn tab_is_active_only_for_current_workspace_active_index() {
    let workspace_a = RepositoryWorkspaceId(uuid::Uuid::from_u128(1).as_u128());
    let workspace_b = RepositoryWorkspaceId(uuid::Uuid::from_u128(2).as_u128());
    assert!(tab_is_active(workspace_a, 1, Some(workspace_a), 1));
    assert!(!tab_is_active(workspace_a, 0, Some(workspace_a), 1));
    assert!(!tab_is_active(workspace_b, 1, Some(workspace_a), 1));
    assert!(!tab_is_active(workspace_a, 1, None, 1));
}

#[test]
fn in_progress_tab_activity_should_breathe() {
    assert!(TabNodeActivity::Agent(grok_running()).should_breathe());
    assert!(!TabNodeActivity::Agent(oz_blocked()).should_breathe());
    assert!(!TabNodeActivity::RunningDot.should_breathe());
    assert!(!TabNodeActivity::Idle.should_breathe());
}

#[test]
fn tab_node_busy_covers_agent_and_running_dot() {
    assert!(TabNodeActivity::Agent(grok_running()).is_busy());
    assert!(TabNodeActivity::RunningDot.is_busy());
    assert!(!TabNodeActivity::Idle.is_busy());
}

#[test]
fn project_tree_tab_id_is_stable_entity_id() {
    let id = ProjectTreeTabId(42);
    let node = ProjectTreeTabNode {
        id,
        title: "agent".to_string(),
        activity: TabNodeActivity::Idle,
        is_active: true,
    };
    assert_eq!(node.id, ProjectTreeTabId(42));
}

#[test]
fn last_agent_activity_returns_later_candidate() {
    assert_eq!(
        last_agent_activity(vec![grok_running(), claude_blocked()]),
        Some(claude_blocked())
    );
}

#[test]
fn last_agent_activity_returns_none_when_empty() {
    assert_eq!(last_agent_activity(vec![]), None);
}

#[test]
fn activity_slot_prefers_agent_over_running_dot() {
    assert_eq!(
        workspace_activity_slot(Some(grok_running()), true),
        WorkspaceActivitySlot::Agent(grok_running())
    );
}

#[test]
fn activity_slot_falls_back_to_running_dot() {
    assert_eq!(workspace_activity_slot(None, true), WorkspaceActivitySlot::RunningDot);
}

#[test]
fn activity_slot_is_empty_when_idle() {
    assert_eq!(workspace_activity_slot(None, false), WorkspaceActivitySlot::Empty);
}

#[test]
fn in_progress_activity_should_breathe() {
    assert!(grok_running().should_breathe());
}

#[test]
fn blocked_activity_should_not_breathe() {
    assert!(!claude_blocked().should_breathe());
}

#[test]
fn agent_of_a_tab_is_only_its_agent_activity() {
    assert_eq!(TabNodeActivity::Agent(oz_blocked()).agent(), Some(oz_blocked()));
    assert_eq!(TabNodeActivity::RunningDot.agent(), None);
    assert_eq!(TabNodeActivity::Idle.agent(), None);
}
