use project_workspaces::activity::{CLIAgent, WorkspaceAgentActivity, WorkspaceAgentIdentity, WorkspaceAgentPhase};
use project_workspaces::domain::{
    Repository, RepositoryId, RepositorySource, RepositoryWorkspace, RepositoryWorkspaceId,
    TabCounts, Timestamp,
};
use project_workspaces::rows::should_show_workspace_delete_button;
use project_workspaces::tree::{
    ProjectTreeAction, ProjectTreeEvent, ProjectTreeRow, ProjectTreeState, RepositoryTreeNode,
    WorkspaceTreeNode,
};

fn repo_id(n: u128) -> RepositoryId {
    RepositoryId(uuid::Uuid::from_u128(n).as_u128())
}

fn ws_id(n: u128) -> RepositoryWorkspaceId {
    RepositoryWorkspaceId(uuid::Uuid::from_u128(n).as_u128())
}

fn epoch() -> Timestamp {
    let moment = chrono::DateTime::from_timestamp(0, 0).unwrap().naive_utc().and_utc();
    Timestamp { seconds: moment.timestamp(), nanos: moment.timestamp_subsec_nanos() }
}

fn single_tree(tab_count: usize) -> (ProjectTreeState, RepositoryId, RepositoryWorkspaceId) {
    let repository_id = repo_id(1);
    let workspace_id = ws_id(2);
    let state = ProjectTreeState::new(vec![RepositoryTreeNode {
        repository_id,
        display_name: "zap".to_string(),
        expanded: true,
        workspaces: vec![WorkspaceTreeNode {
            workspace_id,
            display_name: "Feature A".to_string(),
            branch: "feature/a".to_string(),
            tab_count,
        }],
    }]);
    (state, repository_id, workspace_id)
}

#[test]
fn tree_renders_two_levels_and_selects_workspace() {
    let (mut state, _, workspace_id) = single_tree(2);

    assert_eq!(state.visible_rows().len(), 2);
    state.select_workspace(workspace_id);
    assert_eq!(state.selected_workspace_id(), Some(workspace_id));
}

#[test]
fn tree_groups_and_sorts_workspaces_by_repository() {
    let repository_a = repo_id(1);
    let repository_b = repo_id(2);
    let workspace_a = ws_id(3);
    let workspace_b = ws_id(4);
    let timestamp = epoch();

    let state = ProjectTreeState::from_records(
        vec![
            Repository {
                id: repository_b,
                display_name: "zebra".to_string(),
                path: b"/tmp/zebra".to_vec(),
                remote_url: None,
                source: RepositorySource::Local,
                created_at: timestamp,
                last_opened_at: timestamp,
            },
            Repository {
                id: repository_a,
                display_name: "alpha".to_string(),
                path: b"/tmp/alpha".to_vec(),
                remote_url: None,
                source: RepositorySource::Local,
                created_at: timestamp,
                last_opened_at: timestamp,
            },
        ],
        vec![
            RepositoryWorkspace {
                id: workspace_a,
                repository_id: repository_a,
                display_name: "zeta".to_string(),
                branch: "feature/zeta".to_string(),
                worktree_path: b"/tmp/alpha-zeta".to_vec(),
                created_at: timestamp,
                last_opened_at: timestamp,
            },
            RepositoryWorkspace {
                id: workspace_b,
                repository_id: repository_a,
                display_name: "beta".to_string(),
                branch: "feature/beta".to_string(),
                worktree_path: b"/tmp/alpha-beta".to_vec(),
                created_at: timestamp,
                last_opened_at: timestamp,
            },
        ],
        &TabCounts::from_pairs(vec![(workspace_a, 2), (workspace_b, 1)]),
    );

    assert_eq!(state.repositories()[0].display_name, "alpha");
    assert_eq!(state.repositories()[1].display_name, "zebra");
    assert_eq!(state.repositories()[0].workspaces[0].display_name, "beta");
    assert_eq!(state.repositories()[0].workspaces[0].tab_count, 1);
    assert_eq!(state.repositories()[0].workspaces[1].display_name, "zeta");
    assert_eq!(state.repositories()[0].workspaces[1].tab_count, 2);
}

#[test]
fn tree_can_clear_and_restore_the_active_workspace_selection() {
    let (mut state, _, workspace_id) = single_tree(0);

    state.set_active_workspace(Some(workspace_id));
    assert_eq!(state.selected_workspace_id(), Some(workspace_id));

    state.set_active_workspace(None);
    assert_eq!(state.selected_workspace_id(), None);
}

#[test]
fn workspace_delete_button_only_shows_when_workspace_row_is_hovered() {
    assert!(!should_show_workspace_delete_button(false));
    assert!(should_show_workspace_delete_button(true));
}

#[test]
fn create_workspace_button_does_not_toggle_its_repository() {
    let (mut state, repository_id, _) = single_tree(0);

    let event = state.handle_action(ProjectTreeAction::CreateWorkspace { repository_id });

    assert_eq!(event, Some(ProjectTreeEvent::CreateWorkspaceRequested { repository_id }));
    assert!(state.repositories()[0].expanded);
}

#[test]
fn toggling_a_repository_twice_restores_its_rows() {
    let (mut state, repository_id, workspace_id) = single_tree(0);
    let before = state.clone();

    assert_eq!(state.handle_action(ProjectTreeAction::ToggleRepository { repository_id }), None);
    assert_eq!(state.visible_rows(), vec![ProjectTreeRow::Repository(repository_id)]);
    state.handle_action(ProjectTreeAction::ToggleRepository { repository_id });
    assert_eq!(
        state.visible_rows(),
        vec![ProjectTreeRow::Repository(repository_id), ProjectTreeRow::Workspace(workspace_id)]
    );
    assert_eq!(state, before);
}

#[test]
fn toggling_an_unknown_repository_changes_nothing() {
    let (mut state, _, _) = single_tree(0);
    let before = state.clone();
    assert!(!state.toggle_repository(repo_id(99)));
    assert_eq!(state, before);
}

#[test]
fn selecting_an_unknown_workspace_keeps_the_selection() {
    let (mut state, _, workspace_id) = single_tree(0);
    state.select_workspace(workspace_id);
    let event = state.handle_action(ProjectTreeAction::SelectWorkspace { workspace_id: Some(ws_id(77)) });
    assert_eq!(event, Some(ProjectTreeEvent::WorkspaceSelected { workspace_id: Some(ws_id(77)) }));
    assert_eq!(state.selected_workspace_id(), Some(workspace_id));
    state.set_active_workspace(Some(ws_id(77)));
    assert_eq!(state.selected_workspace_id(), None);
}

#[test]
fn refreshed_tree_keeps_collapsed_repositories_collapsed() {
    let (mut state, repository_id, workspace_id) = single_tree(0);
    state.select_workspace(workspace_id);
    state.toggle_repository(repository_id);
    let timestamp = epoch();
    let refreshed = state.refreshed(
        vec![
            Repository {
                id: repository_id,
                display_name: "zap".to_string(),
                path: b"/tmp/zap".to_vec(),
                remote_url: None,
                source: RepositorySource::Cloned,
                created_at: timestamp,
                last_opened_at: timestamp,
            },
            Repository {
                id: repo_id(5),
                display_name: "new".to_string(),
                path: b"/tmp/new".to_vec(),
                remote_url: None,
                source: RepositorySource::Local,
                created_at: Timestamp { seconds: 10, nanos: 0 },
                last_opened_at: timestamp,
            },
        ],
        vec![],
        &TabCounts::new(),
    );
    assert!(!refreshed.repositories()[0].expanded);
    assert!(refreshed.repositories()[1].expanded);
    assert_eq!(refreshed.selected_workspace_id(), None);
}

#[test]
fn workspaces_of_unknown_repositories_are_left_out() {
    let timestamp = epoch();
    let state = ProjectTreeState::from_records(
        vec![],
        vec![RepositoryWorkspace {
            id: ws_id(3),
            repository_id: repo_id(1),
            display_name: "orphan".to_string(),
            branch: "orphan".to_string(),
            worktree_path: b"/tmp/orphan".to_vec(),
            created_at: timestamp,
            last_opened_at: timestamp,
        }],
        &TabCounts::new(),
    );
    assert!(state.repositories().is_empty());
    assert!(state.visible_rows().is_empty());
}

#[test]
fn refreshed_tree_keeps_only_marks_of_workspaces_it_holds() {
    let (state, _, workspace_id) = single_tree(1);
    let gone = ws_id(9);

    assert_eq!(state.retain_held_workspaces(&vec![gone, workspace_id, gone]), vec![workspace_id]);

    let activity = WorkspaceAgentActivity { identity: WorkspaceAgentIdentity::Cli(CLIAgent::Claude), phase: WorkspaceAgentPhase::Blocked };
    assert_eq!(
        state.retain_held_activities(&vec![(gone, activity), (workspace_id, activity)]),
        vec![(workspace_id, activity)]
    );
}
