//! How a single tree row presents itself: labels, badges and which
//! decorations it draws.
use vstd::prelude::*;

use crate::activity::{
    activity_slot_of, workspace_activity_slot, CLIAgent, WorkspaceActivitySlot, WorkspaceAgentActivity,
    WorkspaceAgentIdentity, WorkspaceAgentPhase,
};
use crate::domain::{RepositoryId, RepositoryWorkspaceId};
use crate::text::{append_str, decimal, decimal_string, str_chars, text_eq};

verus! {

/// The lowercase hexadecimal digit of `n`, for `n < 16`.
pub open spec fn hex_digit(n: nat) -> char {
    if n < 10 {
        (n + 48) as char
    } else {
        (n + 87) as char
    }
}

/// The last `count` hexadecimal digits of `v`, most significant first,
/// padded with zeros.
pub open spec fn hex_digits(v: nat, count: nat) -> Seq<char>
    decreases count,
{
    if count == 0 {
        Seq::empty()
    } else {
        hex_digits(v / 16, (count - 1) as nat).push(hex_digit(v % 16))
    }
}

/// The hyphenated form of a 128-bit value: its 32 lowercase hexadecimal
/// digits in groups of 8, 4, 4, 4 and 12, joined by `-`.
pub open spec fn uuid_text(value: u128) -> Seq<char> {
    let d = hex_digits(value as nat, 32);
    d.subrange(0, 8) + "-"@ + d.subrange(8, 12) + "-"@ + d.subrange(12, 16) + "-"@ + d.subrange(16, 20) + "-"@
        + d.subrange(20, 32)
}

/// `Uuid::from_u128(value).to_string()`: `from_u128` reads the value
/// most significant byte first, and `Display` writes the hyphenated
/// lowercase form.
#[verifier::external_body]
fn uuid_string(value: u128) -> (text: String)
    ensures
        text@ == uuid_text(value),
{
    uuid::Uuid::from_u128(value).to_string()
}

/// The saved-position id of a repository's create-workspace button.
pub fn repository_add_workspace_position_id(repository_id: RepositoryId) -> (id: String)
    ensures
        id@ == "project_tree:repository:"@ + uuid_text(repository_id.0) + ":add_workspace"@,
{
    let mut id = String::new();
    append_str(&mut id, "project_tree:repository:");
    let uuid = uuid_string(repository_id.0);
    append_str(&mut id, uuid.as_str());
    append_str(&mut id, ":add_workspace");
    assert(id@ =~= "project_tree:repository:"@ + uuid_text(repository_id.0) + ":add_workspace"@);
    id
}

/// The delete button shows only while its workspace row is hovered.
pub fn should_show_workspace_delete_button(workspace_row_hovered: bool) -> (show: bool)
    ensures
        show == workspace_row_hovered,
{
    workspace_row_hovered
}

/// A workspace row is selected when it is the selected workspace.
pub fn workspace_row_is_selected(
    selected_workspace_id: Option<RepositoryWorkspaceId>,
    workspace_id: RepositoryWorkspaceId,
) -> (r: bool)
    ensures
        r == (selected_workspace_id == Some(workspace_id)),
{
    match selected_workspace_id {
        Some(id) => id.0 == workspace_id.0,
        None => false,
    }
}

/// The second line with the branch shows only when the display name is not the branch itself.
pub fn workspace_shows_branch_subtitle(display_name: &str, branch: &str) -> (r: bool)
    ensures
        r == (display_name@ != branch@),
{
    !text_eq(display_name, branch)
}

/// The label of a repository's workspace-count pill.
pub fn workspace_count_pill_label(workspace_count: usize) -> (label: String)
    ensures
        label@ == decimal(workspace_count as nat),
{
    decimal_string(workspace_count)
}

/// The label of a workspace's tab-count badge: the count, capped as `99+`.
pub fn tab_count_badge_label(tab_count: usize) -> (label: String)
    ensures
        label@ == (if tab_count > 99 {
            "99+"@
        } else {
            decimal(tab_count as nat)
        }),
{
    if tab_count > 99 {
        let mut label = String::new();
        append_str(&mut label, "99+");
        assert(label@ =~= "99+"@);
        label
    } else {
        decimal_string(tab_count)
    }
}

/// What a workspace row draws, from its selection and activity.
#[derive(Clone, Copy, Debug, PartialEq, Eq, Structural)]
pub struct WorkspaceVisualState {
    pub is_selected: bool,
    pub has_running_terminal: bool,
    pub agent_activity: Option<WorkspaceAgentActivity>,
}

impl WorkspaceVisualState {
    /// The visual state of a row.
    pub fn new(
        is_selected: bool,
        has_running_terminal: bool,
        agent_activity: Option<WorkspaceAgentActivity>,
    ) -> (r: Self)
        ensures
            r == (WorkspaceVisualState { is_selected, has_running_terminal, agent_activity }),
    {
        WorkspaceVisualState { is_selected, has_running_terminal, agent_activity }
    }

    /// Selected rows carry no frame.
    pub fn should_render_selection_frame(&self) -> (r: bool)
        ensures
            !r,
    {
        false
    }

    /// Selected rows carry the accent.
    pub fn should_render_selection_accent(&self) -> (r: bool)
        ensures
            r == self.is_selected,
    {
        self.is_selected
    }

    /// The leading slot: an agent avatar replaces the running dot.
    pub fn activity_slot(&self) -> (r: WorkspaceActivitySlot)
        ensures
            r == activity_slot_of(self.agent_activity, self.has_running_terminal),
    {
        workspace_activity_slot(self.agent_activity, self.has_running_terminal)
    }

    /// The running dot shows when the slot holds it.
    pub fn should_render_running_indicator(&self) -> (r: bool)
        ensures
            r == (self.agent_activity is None && self.has_running_terminal),
    {
        match self.activity_slot() {
            WorkspaceActivitySlot::RunningDot => true,
            _ => false,
        }
    }

    /// The agent ring breathes while the agent works.
    pub fn should_breathe_agent_ring(&self) -> (r: bool)
        ensures
            r == (self.agent_activity matches Some(a) && a.breathes()),
    {
        match self.agent_activity {
            Some(activity) => activity.should_breathe(),
            None => false,
        }
    }

    /// Idle rows are not filled.
    pub fn should_fill_idle_row(&self) -> (r: bool)
        ensures
            !r,
    {
        false
    }
}

/// Which color an agent's ring takes from the theme.
#[derive(Clone, Copy, Debug, PartialEq, Eq, Structural)]
pub enum AgentRingColor {
    /// The theme's warning yellow.
    Attention,
    /// The agent's own brand color.
    Brand(CLIAgent),
    /// The theme's accent.
    Accent,
}

/// The ring color of an activity: a blocked agent asks for attention; a
/// working agent shows its brand color, or the accent when it has none
/// (`has_brand_color`) or is Oz.
pub open spec fn ring_color_of(activity: WorkspaceAgentActivity, has_brand_color: bool) -> AgentRingColor {
    match activity.phase {
        WorkspaceAgentPhase::Blocked => AgentRingColor::Attention,
        WorkspaceAgentPhase::InProgress => match activity.identity {
            WorkspaceAgentIdentity::Cli(agent) => if has_brand_color {
                AgentRingColor::Brand(agent)
            } else {
                AgentRingColor::Accent
            },
            WorkspaceAgentIdentity::Oz { .. } => AgentRingColor::Accent,
        },
    }
}

/// The ring color of an activity; `has_brand_color` says whether its
/// command-line agent has a brand color.
pub fn agent_activity_ring_color(activity: WorkspaceAgentActivity, has_brand_color: bool) -> (c: AgentRingColor)
    ensures
        c == ring_color_of(activity, has_brand_color),
{
    match activity.phase {
        WorkspaceAgentPhase::Blocked => AgentRingColor::Attention,
        WorkspaceAgentPhase::InProgress => match activity.identity {
            WorkspaceAgentIdentity::Cli(agent) => if has_brand_color {
                AgentRingColor::Brand(agent)
            } else {
                AgentRingColor::Accent
            },
            WorkspaceAgentIdentity::Oz { .. } => AgentRingColor::Accent,
        },
    }
}

/// The icon of an agent avatar.
#[derive(Clone, Copy, Debug, PartialEq, Eq, Structural)]
pub enum AgentIcon {
    /// The Oz icon, ambient or not.
    Oz { ambient: bool },
    /// The command-line agent's own icon.
    Cli(CLIAgent),
    /// A neutral terminal icon in the sub-text color.
    Terminal,
}

/// The avatar icon of an agent: Oz's own; a command-line agent's own when
/// it has a brand color, a neutral terminal icon otherwise.
pub open spec fn icon_of(identity: WorkspaceAgentIdentity, has_brand_color: bool) -> AgentIcon {
    match identity {
        WorkspaceAgentIdentity::Oz { ambient } => AgentIcon::Oz { ambient },
        WorkspaceAgentIdentity::Cli(agent) => if has_brand_color {
            AgentIcon::Cli(agent)
        } else {
            AgentIcon::Terminal
        },
    }
}

/// The avatar icon of an agent; `has_brand_color` says whether its
/// command-line agent has a brand color.
pub fn agent_activity_icon_variant(identity: WorkspaceAgentIdentity, has_brand_color: bool) -> (i: AgentIcon)
    ensures
        i == icon_of(identity, has_brand_color),
{
    match identity {
        WorkspaceAgentIdentity::Oz { ambient } => AgentIcon::Oz { ambient },
        WorkspaceAgentIdentity::Cli(agent) => if has_brand_color {
            AgentIcon::Cli(agent)
        } else {
            AgentIcon::Terminal
        },
    }
}

} // verus!
