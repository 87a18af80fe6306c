//! Window chrome decisions in project-organization mode and the start
//! directory of a new session in a repository workspace.
use vstd::prelude::*;

verus! {

/// Tab bar orientation.
#[derive(Clone, Copy, Debug, PartialEq, Eq, Structural)]
pub enum TabLayout {
    Horizontal,
    Vertical,
}

/// Items that the window header toolbar can hold.
#[derive(Clone, Copy, Debug, PartialEq, Eq, Structural)]
pub enum HeaderToolbarItemKind {
    TabsPanel,
    ToolsPanel,
    CodeReview,
}

/// How a new session picks its working directory.
#[derive(Clone, Copy, Debug, PartialEq, Eq, Structural)]
pub enum WorkingDirectoryMode {
    PreviousDir,
    HomeDir,
    CustomDir,
}

/// The tab layout in project-organization mode: repository workspaces force
/// the horizontal tab bar without touching the vertical-tabs setting.
pub fn resolved_project_organization_tab_layout(
    repository_workspaces_enabled: bool,
    vertical_tabs_enabled: bool,
) -> (r: TabLayout)
    ensures
        r == (if !repository_workspaces_enabled && vertical_tabs_enabled {
            TabLayout::Vertical
        } else {
            TabLayout::Horizontal
        }),
{
    if repository_workspaces_enabled || !vertical_tabs_enabled {
        TabLayout::Horizontal
    } else {
        TabLayout::Vertical
    }
}

/// In project-organization mode the side panel runs to the top of the window
/// and the tab bar stays in the content column.
pub fn use_full_height_left_panel_chrome(
    repository_workspaces_enabled: bool,
    left_panel_open: bool,
    simplified_wasm_tab_bar: bool,
    vertical_tabs_active: bool,
    mobile_overlay: bool,
) -> (r: bool)
    ensures
        r == (repository_workspaces_enabled && left_panel_open && !simplified_wasm_tab_bar
            && !vertical_tabs_active && !mobile_overlay),
{
    repository_workspaces_enabled && left_panel_open && !simplified_wasm_tab_bar
        && !vertical_tabs_active && !mobile_overlay
}

/// An item that stays in the header toolbar: the tools panel leaves it when
/// the full-height chrome has lifted that panel to the window's left edge.
pub open spec fn header_item_kept(item: HeaderToolbarItemKind, full_height_chrome: bool) -> bool {
    !(full_height_chrome && item == HeaderToolbarItemKind::ToolsPanel)
}

/// The header toolbar items, without the tools panel when the full-height
/// chrome already draws it.
pub fn header_items_excluding_lifted_tools_panel(
    items: Vec<HeaderToolbarItemKind>,
    full_height_chrome: bool,
) -> (r: Vec<HeaderToolbarItemKind>)
    ensures
        r@ == items@.filter(|item: HeaderToolbarItemKind| header_item_kept(item, full_height_chrome)),
{
    let ghost keep = |item: HeaderToolbarItemKind| header_item_kept(item, full_height_chrome);
    let mut r: Vec<HeaderToolbarItemKind> = Vec::new();
    let mut i: usize = 0;
    while i < items.len()
        invariant
            0 <= i <= items.len(),
            keep == (|item: HeaderToolbarItemKind| header_item_kept(item, full_height_chrome)),
            r@ == items@.take(i as int).filter(keep),
        decreases items.len() - i,
    {
        let item = items[i];
        proof {
            assert(items@.take(i + 1) =~= items@.take(i as int).push(item));
            items@.take(i as int).lemma_filter_push(item, keep);
        }
        let is_tools = match item {
            HeaderToolbarItemKind::ToolsPanel => true,
            _ => false,
        };
        if !(full_height_chrome && is_tools) {
            r.push(item);
        }
        i = i + 1;
    }
    assert(items@.take(items.len() as int) =~= items@);
    r
}

/// The start directory of a new session: the inherited session directory
/// when there is one; otherwise, in previous-directory mode, the workspace's
/// worktree; otherwise none.
pub open spec fn startup_directory(
    inherited: Option<Seq<u8>>,
    mode: WorkingDirectoryMode,
    worktree: Option<Seq<u8>>,
) -> Option<Seq<u8>> {
    match inherited {
        Some(dir) => Some(dir),
        None => if mode == WorkingDirectoryMode::PreviousDir {
            worktree
        } else {
            None
        },
    }
}

/// The view of an optional path.
pub open spec fn opt_bytes(p: Option<Vec<u8>>) -> Option<Seq<u8>> {
    match p {
        Some(v) => Some(v@),
        None => None,
    }
}

/// Falls back to the repository workspace's worktree when a session in
/// previous-directory mode has no directory to inherit.
pub fn startup_directory_with_repository_workspace_fallback(
    inherited: Option<Vec<u8>>,
    mode: WorkingDirectoryMode,
    worktree: Option<Vec<u8>>,
) -> (r: Option<Vec<u8>>)
    ensures
        opt_bytes(r) == startup_directory(opt_bytes(inherited), mode, opt_bytes(worktree)),
{
    match inherited {
        Some(dir) => Some(dir),
        None => match mode {
            WorkingDirectoryMode::PreviousDir => worktree,
            _ => None,
        },
    }
}

/// Where the tab bar starts: flush, after the standard padding, or after
/// room for the macOS window buttons.
#[derive(Clone, Copy, Debug, PartialEq, Eq, Structural)]
pub enum TabBarLeadingPadding {
    Flush,
    Standard,
    TrafficLights,
}

/// The tab bar's leading padding: none while the theme chooser is open;
/// the standard padding when the side panel owns the top-left corner or the
/// window is fullscreen on macOS; room for the window buttons otherwise.
pub fn tab_bar_leading_padding_kind(
    full_height_chrome: bool,
    theme_chooser_open: bool,
    is_macos_fullscreen: bool,
) -> (r: TabBarLeadingPadding)
    ensures
        r == (if theme_chooser_open {
            TabBarLeadingPadding::Flush
        } else if full_height_chrome || is_macos_fullscreen {
            TabBarLeadingPadding::Standard
        } else {
            TabBarLeadingPadding::TrafficLights
        }),
{
    if theme_chooser_open {
        TabBarLeadingPadding::Flush
    } else if full_height_chrome || is_macos_fullscreen {
        TabBarLeadingPadding::Standard
    } else {
        TabBarLeadingPadding::TrafficLights
    }
}

/// The side panel's title bar leaves room for the macOS window buttons when
/// it runs to the top of a window that is not fullscreen.
pub fn titlebar_reserves_traffic_lights(full_height_chrome: bool, is_macos_fullscreen: bool) -> (r: bool)
    ensures
        r == (full_height_chrome && !is_macos_fullscreen),
{
    full_height_chrome && !is_macos_fullscreen
}

} // verus!
