//! Which activity a workspace row or a tab row shows in its leading slot.
use vstd::prelude::*;

use crate::domain::RepositoryWorkspaceId;

verus! {

/// Command-line agents that can run in a terminal tab.
#[derive(Clone, Copy, Debug, PartialEq, Eq, Structural)]
pub enum CLIAgent {
    Claude,
    Grok,
}

/// The agent identity a workspace row shows.
#[derive(Clone, Copy, Debug, PartialEq, Eq, Structural)]
pub enum WorkspaceAgentIdentity {
    Cli(CLIAgent),
    Oz { ambient: bool },
}

/// Session phases that occupy the activity slot; finished or failed sessions have none.
#[derive(Clone, Copy, Debug, PartialEq, Eq, Structural)]
pub enum WorkspaceAgentPhase {
    InProgress,
    Blocked,
}

/// The agent activity a workspace currently shows.
#[derive(Clone, Copy, Debug, PartialEq, Eq, Structural)]
pub struct WorkspaceAgentActivity {
    pub identity: WorkspaceAgentIdentity,
    pub phase: WorkspaceAgentPhase,
}

/// Leading slot of a workspace row: avatar, running dot and empty slot exclude each other.
#[derive(Clone, Copy, Debug, PartialEq, Eq, Structural)]
pub enum WorkspaceActivitySlot {
    Empty,
    RunningDot,
    Agent(WorkspaceAgentActivity),
}

/// Leading slot of a tab row.
#[derive(Clone, Copy, Debug, PartialEq, Eq, Structural)]
pub enum TabNodeActivity {
    Agent(WorkspaceAgentActivity),
    RunningDot,
    Idle,
}

/// Stable identity of a tab row: the id of the pane group the tab belongs to.
#[derive(Clone, Copy, Debug, PartialEq, Eq, Hash, Structural)]
pub struct ProjectTreeTabId(pub usize);

/// What a tab row under a workspace shows.
#[derive(Clone, Debug, PartialEq, Eq)]
pub struct ProjectTreeTabNode {
    pub id: ProjectTreeTabId,
    pub title: String,
    pub activity: TabNodeActivity,
    pub is_active: bool,
}

impl WorkspaceAgentActivity {
    /// An agent that is working breathes; a blocked one shows a steady ring.
    pub open spec fn breathes(self) -> bool {
        self.phase == WorkspaceAgentPhase::InProgress
    }

    /// Whether this activity's ring breathes.
    pub fn should_breathe(self) -> (r: bool)
        ensures
            r == self.breathes(),
    {
        match self.phase {
            WorkspaceAgentPhase::InProgress => true,
            WorkspaceAgentPhase::Blocked => false,
        }
    }
}

/// The slot a row shows: the agent when there is one, else the running dot
/// when a terminal is busy, else nothing.
pub open spec fn activity_slot_of(
    agent: Option<WorkspaceAgentActivity>,
    has_running_terminal: bool,
) -> WorkspaceActivitySlot {
    match agent {
        Some(activity) => WorkspaceActivitySlot::Agent(activity),
        None => if has_running_terminal {
            WorkspaceActivitySlot::RunningDot
        } else {
            WorkspaceActivitySlot::Empty
        },
    }
}

/// Of several matching activities in one workspace, the last one scanned wins.
pub fn last_agent_activity(activities: Vec<WorkspaceAgentActivity>) -> (r: Option<
    WorkspaceAgentActivity,
>)
    ensures
        r == (if activities@.len() == 0 {
            None
        } else {
            Some(activities@.last())
        }),
{
    let n = activities.len();
    if n == 0 {
        None
    } else {
        Some(activities[n - 1])
    }
}

/// The leading slot of a workspace row.
pub fn workspace_activity_slot(
    agent: Option<WorkspaceAgentActivity>,
    has_running_terminal: bool,
) -> (r: WorkspaceActivitySlot)
    ensures
        r == activity_slot_of(agent, has_running_terminal),
{
    match agent {
        Some(activity) => WorkspaceActivitySlot::Agent(activity),
        None => if has_running_terminal {
            WorkspaceActivitySlot::RunningDot
        } else {
            WorkspaceActivitySlot::Empty
        },
    }
}

/// The tab-row slot that corresponds to a workspace-row slot.
pub open spec fn tab_activity_of(slot: WorkspaceActivitySlot) -> TabNodeActivity {
    match slot {
        WorkspaceActivitySlot::Agent(activity) => TabNodeActivity::Agent(activity),
        WorkspaceActivitySlot::RunningDot => TabNodeActivity::RunningDot,
        WorkspaceActivitySlot::Empty => TabNodeActivity::Idle,
    }
}

/// The leading slot of a single tab row.
pub fn tab_node_activity(agent: Option<WorkspaceAgentActivity>, has_running_terminal: bool) -> (r:
    TabNodeActivity)
    ensures
        r == tab_activity_of(activity_slot_of(agent, has_running_terminal)),
{
    match workspace_activity_slot(agent, has_running_terminal) {
        WorkspaceActivitySlot::Agent(activity) => TabNodeActivity::Agent(activity),
        WorkspaceActivitySlot::RunningDot => TabNodeActivity::RunningDot,
        WorkspaceActivitySlot::Empty => TabNodeActivity::Idle,
    }
}

/// A collapsed parent shows the generic running dot when a child is busy;
/// an expanded parent leaves activity to its children and never shows an avatar.
pub fn workspace_parent_activity_slot(expanded: bool, any_child_busy: bool) -> (r:
    WorkspaceActivitySlot)
    ensures
        r == (if !expanded && any_child_busy {
            WorkspaceActivitySlot::RunningDot
        } else {
            WorkspaceActivitySlot::Empty
        }),
{
    if expanded || !any_child_busy {
        WorkspaceActivitySlot::Empty
    } else {
        WorkspaceActivitySlot::RunningDot
    }
}

/// Only the active workspace's active tab is highlighted; a background
/// workspace's last active tab is not.
pub fn tab_is_active(
    tab_workspace_id: RepositoryWorkspaceId,
    tab_index: usize,
    active_workspace_id: Option<RepositoryWorkspaceId>,
    active_tab_index: usize,
) -> (r: bool)
    ensures
        r == (active_workspace_id == Some(tab_workspace_id) && tab_index == active_tab_index),
{
    match active_workspace_id {
        Some(id) => id.0 == tab_workspace_id.0 && tab_index == active_tab_index,
        None => false,
    }
}

impl TabNodeActivity {
    /// The agent this tab shows, if any.
    pub open spec fn agent_of(self) -> Option<WorkspaceAgentActivity> {
        match self {
            TabNodeActivity::Agent(activity) => Some(activity),
            _ => None,
        }
    }

    /// A tab is busy when it shows an agent or the running dot.
    pub fn is_busy(self) -> (r: bool)
        ensures
            r == (self !is Idle),
    {
        match self {
            TabNodeActivity::Agent(_) | TabNodeActivity::RunningDot => true,
            TabNodeActivity::Idle => false,
        }
    }

    /// The agent this tab shows, if any.
    pub fn agent(self) -> (r: Option<WorkspaceAgentActivity>)
        ensures
            r == self.agent_of(),
    {
        match self {
            TabNodeActivity::Agent(activity) => Some(activity),
            TabNodeActivity::RunningDot | TabNodeActivity::Idle => None,
        }
    }

    /// A tab breathes exactly when it shows an agent that is working.
    pub fn should_breathe(self) -> (r: bool)
        ensures
            r == (self.agent_of() matches Some(a) && a.breathes()),
    {
        match self.agent() {
            Some(activity) => activity.should_breathe(),
            None => false,
        }
    }
}

} // verus!
