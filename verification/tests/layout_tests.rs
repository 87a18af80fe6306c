use project_workspaces::layout::{
    header_items_excluding_lifted_tools_panel, resolved_project_organization_tab_layout,
    startup_directory_with_repository_workspace_fallback, use_full_height_left_panel_chrome,
    tab_bar_leading_padding_kind, titlebar_reserves_traffic_lights, HeaderToolbarItemKind,
    TabBarLeadingPadding, TabLayout, WorkingDirectoryMode,
};

fn path(s: &str) -> Vec<u8> {
    s.as_bytes().to_vec()
}

#[test]
fn use_full_height_left_panel_chrome_truth_table() {
    assert!(use_full_height_left_panel_chrome(true, true, false, false, false));
    assert!(!use_full_height_left_panel_chrome(false, true, false, false, false));
    assert!(!use_full_height_left_panel_chrome(true, false, false, false, false));
    assert!(!use_full_height_left_panel_chrome(true, true, true, false, false));
    assert!(!use_full_height_left_panel_chrome(true, true, false, true, false));
    assert!(!use_full_height_left_panel_chrome(true, true, false, false, true));
}

#[test]
fn header_items_excluding_lifted_tools_panel_drops_tools_panel_only_when_chrome_is_on() {
    let items = vec![
        HeaderToolbarItemKind::TabsPanel,
        HeaderToolbarItemKind::ToolsPanel,
        HeaderToolbarItemKind::CodeReview,
    ];

    assert_eq!(
        header_items_excluding_lifted_tools_panel(items.clone(), true),
        vec![HeaderToolbarItemKind::TabsPanel, HeaderToolbarItemKind::CodeReview]
    );
    assert_eq!(
        header_items_excluding_lifted_tools_panel(items, false),
        vec![
            HeaderToolbarItemKind::TabsPanel,
            HeaderToolbarItemKind::ToolsPanel,
            HeaderToolbarItemKind::CodeReview,
        ]
    );
}

#[test]
fn repository_workspace_mode_keeps_setting_but_uses_horizontal_tabbar() {
    assert_eq!(resolved_project_organization_tab_layout(true, true), TabLayout::Horizontal);
    assert_eq!(resolved_project_organization_tab_layout(false, true), TabLayout::Vertical);
}

#[test]
fn horizontal_tab_bar_without_vertical_tabs() {
    assert_eq!(resolved_project_organization_tab_layout(false, false), TabLayout::Horizontal);
    assert_eq!(resolved_project_organization_tab_layout(true, false), TabLayout::Horizontal);
}

#[test]
fn previous_dir_uses_worktree_when_no_prior_session() {
    assert_eq!(
        startup_directory_with_repository_workspace_fallback(
            None,
            WorkingDirectoryMode::PreviousDir,
            Some(path("/tmp/feature-worktree")),
        ),
        Some(path("/tmp/feature-worktree"))
    );
}

#[test]
fn previous_dir_keeps_inherited_session_directory() {
    assert_eq!(
        startup_directory_with_repository_workspace_fallback(
            Some(path("/tmp/current-session")),
            WorkingDirectoryMode::PreviousDir,
            Some(path("/tmp/feature-worktree")),
        ),
        Some(path("/tmp/current-session"))
    );
}

#[test]
fn home_dir_does_not_override_with_worktree() {
    assert_eq!(
        startup_directory_with_repository_workspace_fallback(
            None,
            WorkingDirectoryMode::HomeDir,
            Some(path("/tmp/feature-worktree")),
        ),
        None
    );
}

#[test]
fn custom_dir_does_not_override_with_worktree_when_settings_yield_none() {
    assert_eq!(
        startup_directory_with_repository_workspace_fallback(
            None,
            WorkingDirectoryMode::CustomDir,
            Some(path("/tmp/feature-worktree")),
        ),
        None
    );
}

#[test]
fn previous_dir_without_worktree_stays_none() {
    assert_eq!(
        startup_directory_with_repository_workspace_fallback(None, WorkingDirectoryMode::PreviousDir, None),
        None
    );
}

#[test]
fn inherited_directory_wins_in_every_mode() {
    assert_eq!(
        startup_directory_with_repository_workspace_fallback(
            Some(path("/tmp/current-session")),
            WorkingDirectoryMode::HomeDir,
            Some(path("/tmp/feature-worktree")),
        ),
        Some(path("/tmp/current-session"))
    );
}

#[test]
fn tab_bar_leading_padding_omits_traffic_lights_when_chrome_is_on() {
    assert_eq!(tab_bar_leading_padding_kind(true, false, false), TabBarLeadingPadding::Standard);
    assert_eq!(tab_bar_leading_padding_kind(false, false, false), TabBarLeadingPadding::TrafficLights);
    assert_eq!(tab_bar_leading_padding_kind(false, true, false), TabBarLeadingPadding::Flush);
    assert_eq!(tab_bar_leading_padding_kind(false, false, true), TabBarLeadingPadding::Standard);
}

#[test]
fn left_panel_titlebar_leading_inset_takes_macos_traffic_lights_when_chrome_is_on() {
    assert!(titlebar_reserves_traffic_lights(true, false));
    assert!(!titlebar_reserves_traffic_lights(true, true));
    assert!(!titlebar_reserves_traffic_lights(false, false));
}
