use project_workspaces::activity::{
    CLIAgent, WorkspaceActivitySlot, WorkspaceAgentActivity, WorkspaceAgentIdentity,
    WorkspaceAgentPhase,
};
use project_workspaces::domain::{RepositoryId, RepositoryWorkspaceId};
use project_workspaces::rows::{
    agent_activity_icon_variant, agent_activity_ring_color, AgentIcon, AgentRingColor,
    repository_add_workspace_position_id, tab_count_badge_label, workspace_count_pill_label,
    workspace_row_is_selected, workspace_shows_branch_subtitle, WorkspaceVisualState,
};

#[test]
fn add_workspace_position_id_names_the_repository_uuid() {
    let id = RepositoryId(uuid::Uuid::from_u128(1).as_u128());
    assert_eq!(
        repository_add_workspace_position_id(id),
        "project_tree:repository:00000000-0000-0000-0000-000000000001:add_workspace"
    );
}

#[test]
fn count_labels() {
    assert_eq!(workspace_count_pill_label(0), "0");
    assert_eq!(workspace_count_pill_label(12), "12");
    assert_eq!(tab_count_badge_label(99), "99");
    assert_eq!(tab_count_badge_label(100), "99+");
}

#[test]
fn branch_subtitle_only_when_it_differs_from_the_name() {
    assert!(!workspace_shows_branch_subtitle("feature/a", "feature/a"));
    assert!(workspace_shows_branch_subtitle("Feature A", "feature/a"));
}

#[test]
fn row_selection_follows_the_selected_workspace() {
    let a = RepositoryWorkspaceId(1);
    let b = RepositoryWorkspaceId(2);
    assert!(workspace_row_is_selected(Some(a), a));
    assert!(!workspace_row_is_selected(Some(b), a));
    assert!(!workspace_row_is_selected(None, a));
}

#[test]
fn visual_state_decorations() {
    let agent = WorkspaceAgentActivity {
        identity: WorkspaceAgentIdentity::Cli(CLIAgent::Claude),
        phase: WorkspaceAgentPhase::InProgress,
    };
    let busy = WorkspaceVisualState::new(true, true, Some(agent));
    assert!(!busy.should_render_selection_frame());
    assert!(busy.should_render_selection_accent());
    assert_eq!(busy.activity_slot(), WorkspaceActivitySlot::Agent(agent));
    assert!(!busy.should_render_running_indicator());
    assert!(busy.should_breathe_agent_ring());

    let running = WorkspaceVisualState::new(false, true, None);
    assert!(running.should_render_running_indicator());
    assert!(!running.should_breathe_agent_ring());
    assert!(!running.should_render_selection_accent());
}

#[test]
fn add_workspace_position_id_writes_the_value_most_significant_digit_first() {
    let id = RepositoryId(0xa1a2a3a4b1b2c1c2d1d2d3d4d5d6d7d8);
    assert_eq!(
        repository_add_workspace_position_id(id),
        "project_tree:repository:a1a2a3a4-b1b2-c1c2-d1d2-d3d4d5d6d7d8:add_workspace"
    );
}

#[test]
fn ring_color_asks_for_attention_while_blocked_and_brands_working_agents() {
    let activity = |identity, phase| WorkspaceAgentActivity { identity, phase };
    let claude = WorkspaceAgentIdentity::Cli(CLIAgent::Claude);
    let oz = WorkspaceAgentIdentity::Oz { ambient: false };
    assert_eq!(agent_activity_ring_color(activity(claude, WorkspaceAgentPhase::Blocked), true), AgentRingColor::Attention);
    assert_eq!(agent_activity_ring_color(activity(oz, WorkspaceAgentPhase::Blocked), false), AgentRingColor::Attention);
    assert_eq!(
        agent_activity_ring_color(activity(claude, WorkspaceAgentPhase::InProgress), true),
        AgentRingColor::Brand(CLIAgent::Claude)
    );
    assert_eq!(agent_activity_ring_color(activity(claude, WorkspaceAgentPhase::InProgress), false), AgentRingColor::Accent);
    assert_eq!(agent_activity_ring_color(activity(oz, WorkspaceAgentPhase::InProgress), true), AgentRingColor::Accent);
}

#[test]
fn avatar_icon_falls_back_to_a_terminal_without_a_brand() {
    assert_eq!(
        agent_activity_icon_variant(WorkspaceAgentIdentity::Oz { ambient: true }, false),
        AgentIcon::Oz { ambient: true }
    );
    assert_eq!(
        agent_activity_icon_variant(WorkspaceAgentIdentity::Cli(CLIAgent::Grok), true),
        AgentIcon::Cli(CLIAgent::Grok)
    );
    assert_eq!(agent_activity_icon_variant(WorkspaceAgentIdentity::Cli(CLIAgent::Grok), false), AgentIcon::Terminal);
}
