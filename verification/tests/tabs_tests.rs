use project_workspaces::domain::RepositoryWorkspaceId;
use project_workspaces::tabs::{RepositoryWorkspaceTabSets, RepositoryWorkspaceTabState};

fn workspace(n: u128) -> RepositoryWorkspaceId {
    RepositoryWorkspaceId(uuid::Uuid::from_u128(n).as_u128())
}

#[test]
fn switching_workspaces_swaps_tabs_without_dropping_inactive_state() {
    let workspace_a = workspace(1);
    let workspace_b = workspace(2);
    let mut active_tabs = vec![10_u64];
    let mut active_tab_index = 0;
    let mut sets = RepositoryWorkspaceTabSets::new(Some(workspace_a));
    sets.insert_inactive(Some(workspace_b), RepositoryWorkspaceTabState::new(vec![20_u64], 0));

    sets.switch_to(Some(workspace_b), &mut active_tabs, &mut active_tab_index);
    assert_eq!(active_tabs, vec![20]);

    sets.switch_to(Some(workspace_a), &mut active_tabs, &mut active_tab_index);
    assert_eq!(active_tabs, vec![10]);
}

#[test]
fn switching_workspaces_restores_each_workspace_active_tab_index() {
    let workspace_a = workspace(1);
    let workspace_b = workspace(2);
    let mut active_tabs = vec![10_u64, 11, 12];
    let mut active_tab_index = 2;
    let mut sets = RepositoryWorkspaceTabSets::new(Some(workspace_a));
    sets.insert_inactive(Some(workspace_b), RepositoryWorkspaceTabState::new(vec![20_u64], 0));

    sets.switch_to(Some(workspace_b), &mut active_tabs, &mut active_tab_index);
    sets.switch_to(Some(workspace_a), &mut active_tabs, &mut active_tab_index);

    assert_eq!(active_tab_index, 2);
}

#[test]
fn tab_counts_include_active_and_inactive_workspaces() {
    let workspace_a = workspace(1);
    let workspace_b = workspace(2);
    let mut active_tabs = vec![10_u64, 11];
    let sets = {
        let mut sets = RepositoryWorkspaceTabSets::new(Some(workspace_a));
        sets.insert_inactive(Some(workspace_b), RepositoryWorkspaceTabState::new(vec![20_u64, 21, 22], 1));
        sets.insert_inactive(None, RepositoryWorkspaceTabState::new(vec![30_u64], 0));
        sets
    };

    assert_eq!(sets.tab_counts(&active_tabs).get(&workspace_a), Some(2));
    assert_eq!(sets.tab_counts(&active_tabs).get(&workspace_b), Some(3));

    active_tabs.clear();
    assert_eq!(sets.tab_counts(&active_tabs).get(&workspace_a), None);
}

#[test]
fn taking_an_inactive_workspace_removes_only_its_tab_state() {
    let workspace_a = workspace(1);
    let workspace_b = workspace(2);
    let mut sets = RepositoryWorkspaceTabSets::new(Some(workspace_a));
    sets.insert_inactive(Some(workspace_b), RepositoryWorkspaceTabState::new(vec![20_u64], 0));

    let removed = sets.take_inactive(Some(workspace_b)).expect("workspace state should be removed");

    assert_eq!(removed.tabs, vec![20]);
    assert!(sets.inactive_states().iter().next().is_none());
    assert_eq!(sets.active_workspace_id(), Some(workspace_a));
}

#[test]
fn switching_to_a_workspace_without_state_shows_no_tabs() {
    let mut active_tabs = vec![1_u64, 2];
    let mut active_tab_index = 7;
    let mut sets = RepositoryWorkspaceTabSets::new(Some(workspace(1)));

    sets.switch_to(Some(workspace(3)), &mut active_tabs, &mut active_tab_index);
    assert!(active_tabs.is_empty());
    assert_eq!(active_tab_index, 0);
    assert_eq!(sets.active_workspace_id(), Some(workspace(3)));

    sets.switch_to(Some(workspace(1)), &mut active_tabs, &mut active_tab_index);
    assert_eq!(active_tabs, vec![1, 2]);
    assert_eq!(active_tab_index, 1);
}

#[test]
fn switching_to_the_active_workspace_only_clamps_the_index() {
    let mut active_tabs = vec![1_u64, 2, 3];
    let mut active_tab_index = 9;
    let mut sets = RepositoryWorkspaceTabSets::new(None);
    sets.switch_to(None, &mut active_tabs, &mut active_tab_index);
    assert_eq!(active_tabs, vec![1, 2, 3]);
    assert_eq!(active_tab_index, 2);
    assert!(sets.inactive_states().is_empty());
}

#[test]
fn tab_state_clamps_its_index() {
    let state = RepositoryWorkspaceTabState::new(vec![5_u64, 6], 10);
    assert_eq!(state.active_tab_index, 1);
    let empty = RepositoryWorkspaceTabState::<u64>::new(vec![], 3);
    assert_eq!(empty.active_tab_index, 0);
}

#[test]
fn workspaces_are_found_by_their_tabs() {
    let mut sets = RepositoryWorkspaceTabSets::new(Some(workspace(1)));
    sets.insert_inactive(Some(workspace(2)), RepositoryWorkspaceTabState::new(vec![20_u64, 21], 0));
    sets.insert_inactive(None, RepositoryWorkspaceTabState::new(vec![30_u64], 0));
    assert_eq!(sets.find_inactive_workspace(|t| *t == 21), Some(Some(workspace(2))));
    assert_eq!(sets.find_inactive_workspace(|t| *t == 30), Some(None));
    assert_eq!(sets.find_inactive_workspace(|t| *t == 99), None);
    let ids = sets.workspace_ids_matching(&[10_u64], |t| *t == 10 || *t == 20);
    assert!(ids.contains(&workspace(1)));
    assert!(ids.contains(&workspace(2)));
    assert_eq!(ids.len(), 2);
}
