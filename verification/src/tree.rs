//! The repository/workspace tree of the side panel: grouping and ordering of
//! the records, the visible rows, expansion and workspace selection.
use vstd::prelude::*;

use crate::domain::{
    Repository, RepositoryId, RepositoryWorkspace, RepositoryWorkspaceId, TabCounts, Timestamp,
};
use crate::activity::WorkspaceAgentActivity;
use crate::order::{keys_of, sort_entries, sorted_positions, SortKey};
use crate::text::{concat_text, str_chars};

verus! {

/// A workspace row of the tree.
#[derive(Clone, Debug, PartialEq, Eq)]
pub struct WorkspaceTreeNode {
    pub workspace_id: RepositoryWorkspaceId,
    pub display_name: String,
    pub branch: String,
    pub tab_count: usize,
}

/// A repository row of the tree with its workspaces.
#[derive(Clone, Debug, PartialEq, Eq)]
pub struct RepositoryTreeNode {
    pub repository_id: RepositoryId,
    pub display_name: String,
    pub expanded: bool,
    pub workspaces: Vec<WorkspaceTreeNode>,
}

/// A row the tree shows.
#[derive(Clone, Copy, Debug, PartialEq, Eq, Structural)]
pub enum ProjectTreeRow {
    Repository(RepositoryId),
    Workspace(RepositoryWorkspaceId),
}

/// What a user did in the tree.
#[derive(Clone, Copy, Debug, PartialEq, Eq, Structural)]
pub enum ProjectTreeAction {
    AddRepository,
    CreateWorkspace { repository_id: RepositoryId },
    DeleteWorkspace { workspace_id: RepositoryWorkspaceId },
    ToggleRepository { repository_id: RepositoryId },
    SelectWorkspace { workspace_id: Option<RepositoryWorkspaceId> },
}

/// What the tree asks its window to do.
#[derive(Clone, Copy, Debug, PartialEq, Eq, Structural)]
pub enum ProjectTreeEvent {
    AddRepositoryRequested,
    CreateWorkspaceRequested { repository_id: RepositoryId },
    DeleteWorkspaceRequested { workspace_id: RepositoryWorkspaceId },
    WorkspaceSelected { workspace_id: Option<RepositoryWorkspaceId> },
}

/// The tree: repositories in display order, and the selected workspace.
#[derive(Clone, Debug, PartialEq, Eq)]
pub struct ProjectTreeState {
    repositories: Vec<RepositoryTreeNode>,
    selected_workspace_id: Option<RepositoryWorkspaceId>,
}

/// Model of a workspace row.
pub struct WorkspaceNodeView {
    pub workspace_id: RepositoryWorkspaceId,
    pub display_name: Seq<char>,
    pub branch: Seq<char>,
    pub tab_count: usize,
}

/// Model of a repository row.
pub struct RepositoryNodeView {
    pub repository_id: RepositoryId,
    pub display_name: Seq<char>,
    pub expanded: bool,
    pub workspaces: Seq<WorkspaceNodeView>,
}

/// Model of the tree.
pub struct ProjectTreeStateView {
    pub repositories: Seq<RepositoryNodeView>,
    pub selected: Option<RepositoryWorkspaceId>,
}

impl View for WorkspaceTreeNode {
    type V = WorkspaceNodeView;

    open spec fn view(&self) -> WorkspaceNodeView {
        WorkspaceNodeView {
            workspace_id: self.workspace_id,
            display_name: self.display_name@,
            branch: self.branch@,
            tab_count: self.tab_count,
        }
    }
}

/// Models of workspace rows.
pub open spec fn workspace_views(s: Seq<WorkspaceTreeNode>) -> Seq<WorkspaceNodeView> {
    s.map_values(|n: WorkspaceTreeNode| n@)
}

impl View for RepositoryTreeNode {
    type V = RepositoryNodeView;

    open spec fn view(&self) -> RepositoryNodeView {
        RepositoryNodeView {
            repository_id: self.repository_id,
            display_name: self.display_name@,
            expanded: self.expanded,
            workspaces: workspace_views(self.workspaces@),
        }
    }
}

/// Models of repository rows.
pub open spec fn repository_views(s: Seq<RepositoryTreeNode>) -> Seq<RepositoryNodeView> {
    s.map_values(|n: RepositoryTreeNode| n@)
}

impl View for ProjectTreeState {
    type V = ProjectTreeStateView;

    closed spec fn view(&self) -> ProjectTreeStateView {
        ProjectTreeStateView {
            repositories: repository_views(self.repositories@),
            selected: self.selected_workspace_id,
        }
    }
}

/// The rows a repository contributes: itself, then its workspaces when expanded.
pub open spec fn repository_rows(r: RepositoryNodeView) -> Seq<ProjectTreeRow> {
    seq![ProjectTreeRow::Repository(r.repository_id)] + if r.expanded {
        r.workspaces.map_values(|w: WorkspaceNodeView| ProjectTreeRow::Workspace(w.workspace_id))
    } else {
        Seq::empty()
    }
}

/// The visible rows of the tree, repository by repository.
pub open spec fn rows(repositories: Seq<RepositoryNodeView>) -> Seq<ProjectTreeRow>
    decreases repositories.len(),
{
    if repositories.len() == 0 {
        Seq::empty()
    } else {
        rows(repositories.drop_last()) + repository_rows(repositories.last())
    }
}

/// The tree holds a workspace with this id.
pub open spec fn holds_workspace(
    repositories: Seq<RepositoryNodeView>,
    workspace_id: RepositoryWorkspaceId,
) -> bool {
    exists|i: int, j: int|
        0 <= i < repositories.len() && 0 <= j < repositories[i].workspaces.len()
            && #[trigger] repositories[i].workspaces[j].workspace_id == workspace_id
}

/// The ids of `ids` whose workspace the tree holds, in their order.
pub open spec fn held_ids(repositories: Seq<RepositoryNodeView>, ids: Seq<RepositoryWorkspaceId>) -> Seq<RepositoryWorkspaceId>
    decreases ids.len(),
{
    if ids.len() == 0 {
        Seq::empty()
    } else {
        let earlier = held_ids(repositories, ids.drop_last());
        if holds_workspace(repositories, ids.last()) {
            earlier.push(ids.last())
        } else {
            earlier
        }
    }
}

/// The entries of `activities` whose workspace the tree holds, in their order.
pub open spec fn held_activities(
    repositories: Seq<RepositoryNodeView>,
    activities: Seq<(RepositoryWorkspaceId, WorkspaceAgentActivity)>,
) -> Seq<(RepositoryWorkspaceId, WorkspaceAgentActivity)>
    decreases activities.len(),
{
    if activities.len() == 0 {
        Seq::empty()
    } else {
        let earlier = held_activities(repositories, activities.drop_last());
        if holds_workspace(repositories, activities.last().0) {
            earlier.push(activities.last())
        } else {
            earlier
        }
    }
}

/// Position of the first repository with this id.
pub open spec fn first_repository(repositories: Seq<RepositoryNodeView>, id: RepositoryId) -> int {
    choose|i: int|
        0 <= i < repositories.len() && repositories[i].repository_id == id && forall|k: int|
            0 <= k < i ==> repositories[k].repository_id != id
}

/// The tree holds a repository with this id.
pub open spec fn holds_repository(repositories: Seq<RepositoryNodeView>, id: RepositoryId) -> bool {
    exists|i: int| 0 <= i < repositories.len() && repositories[i].repository_id == id
}

/// A repository row with its expansion flipped.
pub open spec fn flipped(r: RepositoryNodeView) -> RepositoryNodeView {
    RepositoryNodeView { expanded: !r.expanded, ..r }
}

/// The tree after toggling the first repository with this id (unchanged when there is none).
pub open spec fn toggled(
    repositories: Seq<RepositoryNodeView>,
    id: RepositoryId,
) -> Seq<RepositoryNodeView> {
    if holds_repository(repositories, id) {
        let i = first_repository(repositories, id);
        repositories.update(i, flipped(repositories[i]))
    } else {
        repositories
    }
}

/// Sort keys of repositories.
pub open spec fn repository_keys(s: Seq<Repository>) -> Seq<SortKey> {
    s.map_values(|r: Repository| SortKey { at: r.created_at, name: r.display_name@ })
}

/// Sort keys of workspaces.
pub open spec fn workspace_keys(s: Seq<RepositoryWorkspace>) -> Seq<SortKey> {
    s.map_values(|w: RepositoryWorkspace| SortKey { at: w.created_at, name: w.display_name@ })
}

/// The tab count of a workspace, 0 when it has none.
pub open spec fn count_or_zero(counts: Map<RepositoryWorkspaceId, usize>, id: RepositoryWorkspaceId) -> usize {
    if counts.dom().contains(id) {
        counts[id]
    } else {
        0
    }
}

/// The row of a workspace record.
pub open spec fn workspace_row_of(
    w: RepositoryWorkspace,
    counts: Map<RepositoryWorkspaceId, usize>,
) -> WorkspaceNodeView {
    WorkspaceNodeView {
        workspace_id: w.id,
        display_name: w.display_name@,
        branch: w.branch@,
        tab_count: count_or_zero(counts, w.id),
    }
}

/// The workspaces of a repository, in input order.
pub open spec fn workspaces_of(ws: Seq<RepositoryWorkspace>, id: RepositoryId) -> Seq<RepositoryWorkspace> {
    ws.filter(|w: RepositoryWorkspace| w.repository_id == id)
}

/// `rows` are the rows of `ws`, ordered by creation time, then name, then input position.
pub open spec fn sorted_workspace_rows(
    rows: Seq<WorkspaceNodeView>,
    ws: Seq<RepositoryWorkspace>,
    counts: Map<RepositoryWorkspaceId, usize>,
) -> bool {
    exists|perm: Seq<int>|
        sorted_positions(workspace_keys(ws), perm) && rows.len() == ws.len() && forall|j: int|
            0 <= j < rows.len() ==> #[trigger] rows[j] == workspace_row_of(ws[perm[j]], counts)
}

/// The repository rows built from records: repositories ordered by creation
/// time, then name, then input position; each expanded, with its workspaces
/// ordered the same way. Workspaces of a repository id go to the first row
/// with that id only.
pub open spec fn tree_of_records(
    nodes: Seq<RepositoryNodeView>,
    repositories: Seq<Repository>,
    workspaces: Seq<RepositoryWorkspace>,
    counts: Map<RepositoryWorkspaceId, usize>,
) -> bool {
    exists|perm: Seq<int>|
        sorted_positions(repository_keys(repositories), perm) && nodes.len() == repositories.len()
            && forall|k: int|
            0 <= k < nodes.len() ==> {
                let repo = #[trigger] repositories[perm[k]];
                &&& nodes[k].repository_id == repo.id
                &&& nodes[k].display_name == repo.display_name@
                &&& nodes[k].expanded
                &&& if (exists|k2: int| 0 <= k2 < k && nodes[k2].repository_id == repo.id) {
                    nodes[k].workspaces.len() == 0
                } else {
                    sorted_workspace_rows(
                        nodes[k].workspaces,
                        workspaces_of(workspaces, repo.id),
                        counts,
                    )
                }
            }
}

/// The expansion flag a refreshed row takes: that of the last row with its
/// id in the previous tree, `true` for a new repository.
pub open spec fn previous_expansion(previous: Seq<RepositoryNodeView>, id: RepositoryId) -> bool {
    if holds_repository(previous, id) {
        previous[choose|i: int|
            0 <= i < previous.len() && previous[i].repository_id == id && forall|k: int|
                i < k < previous.len() ==> previous[k].repository_id != id].expanded
    } else {
        true
    }
}

/// Rows with the same ids, names and workspaces, differing at most in expansion.
pub open spec fn same_but_expansion(a: RepositoryNodeView, b: RepositoryNodeView) -> bool {
    a.repository_id == b.repository_id && a.display_name == b.display_name && a.workspaces
        == b.workspaces
}

/// Position of the first row with a given id, found by scanning.
fn find_repository(repositories: &Vec<RepositoryTreeNode>, id: RepositoryId) -> (r: Option<usize>)
    ensures
        r matches Some(i) ==> i < repositories@.len() && repositories@[i as int].repository_id == id
            && forall|k: int| 0 <= k < i ==> repositories@[k].repository_id != id,
        r is None ==> forall|k: int|
            0 <= k < repositories@.len() ==> repositories@[k].repository_id != id,
{
    let mut i: usize = 0;
    while i < repositories.len()
        invariant
            0 <= i <= repositories@.len(),
            forall|k: int| 0 <= k < i ==> repositories@[k].repository_id != id,
        decreases repositories@.len() - i,
    {
        if repositories[i].repository_id.0 == id.0 {
            return Some(i);
        }
        i = i + 1;
    }
    None
}

/// Whether any repository holds a workspace with this id.
fn contains_workspace(repositories: &Vec<RepositoryTreeNode>, workspace_id: RepositoryWorkspaceId) -> (r: bool)
    ensures
        r == holds_workspace(repository_views(repositories@), workspace_id),
{
    let ghost views = repository_views(repositories@);
    let mut i: usize = 0;
    while i < repositories.len()
        invariant
            0 <= i <= repositories@.len(),
            views == repository_views(repositories@),
            forall|a: int, b: int|
                0 <= a < i && 0 <= b < views[a].workspaces.len() ==> #[trigger] views[a].workspaces[b].workspace_id != workspace_id,
        decreases repositories@.len() - i,
    {
        let workspaces = &repositories[i].workspaces;
        let mut j: usize = 0;
        while j < workspaces.len()
            invariant
                0 <= j <= workspaces@.len(),
                0 <= i < repositories@.len(),
                views == repository_views(repositories@),
                workspaces == repositories@[i as int].workspaces,
                forall|b: int| 0 <= b < j ==> #[trigger] views[i as int].workspaces[b].workspace_id != workspace_id,
            decreases workspaces@.len() - j,
        {
            if workspaces[j].workspace_id.0 == workspace_id.0 {
                assert(views[i as int].workspaces[j as int].workspace_id == workspace_id);
                return true;
            }
            j = j + 1;
        }
        i = i + 1;
    }
    false
}


/// Whether an earlier row already has this repository id.
fn id_claimed(nodes: &Vec<RepositoryTreeNode>, id: RepositoryId) -> (r: bool)
    ensures
        r == exists|k2: int| 0 <= k2 < nodes@.len() && nodes@[k2].repository_id == id,
{
    match find_repository(nodes, id) {
        Some(_) => true,
        None => false,
    }
}

/// The rows of the workspaces of one repository, in display order.
fn workspace_rows(
    workspaces: &Vec<RepositoryWorkspace>,
    repository_id: RepositoryId,
    tab_counts: &TabCounts,
) -> (r: Vec<WorkspaceTreeNode>)
    requires
        tab_counts.wf(),
    ensures
        sorted_workspace_rows(
            workspace_views(r@),
            workspaces_of(workspaces@, repository_id),
            tab_counts.counts(),
        ),
{
    let ghost pred = |w: RepositoryWorkspace| w.repository_id == repository_id;
    let ghost counts = tab_counts.counts();
    let mut entries: Vec<(Timestamp, Vec<char>, WorkspaceTreeNode)> = Vec::new();
    let mut i: usize = 0;
    while i < workspaces.len()
        invariant
            0 <= i <= workspaces@.len(),
            tab_counts.wf(),
            counts == tab_counts.counts(),
            pred == (|w: RepositoryWorkspace| w.repository_id == repository_id),
            entries@.len() == workspaces@.take(i as int).filter(pred).len(),
            forall|j: int|
                0 <= j < entries@.len() ==> {
                    let w = #[trigger] workspaces@.take(i as int).filter(pred)[j];
                    &&& entries@[j].0 == w.created_at
                    &&& entries@[j].1@ == w.display_name@
                    &&& entries@[j].2@ == workspace_row_of(w, counts)
                },
        decreases workspaces@.len() - i,
    {
        let w = &workspaces[i];
        proof {
            assert(workspaces@.take(i + 1) =~= workspaces@.take(i as int).push(*w));
            workspaces@.take(i as int).lemma_filter_push(*w, pred);
        }
        if w.repository_id.0 == repository_id.0 {
            let tab_count = match tab_counts.get(&w.id) {
                Some(n) => n,
                None => 0,
            };
            let node = WorkspaceTreeNode {
                workspace_id: w.id,
                display_name: w.display_name.clone(),
                branch: w.branch.clone(),
                tab_count,
            };
            let name = str_chars(w.display_name.as_str());
            entries.push((w.created_at, name, node));
        }
        i = i + 1;
    }
    proof {
        assert(workspaces@.take(workspaces@.len() as int) =~= workspaces@);
    }
    let ghost group = workspaces_of(workspaces@, repository_id);
    proof {
        assert(keys_of(entries@) =~= workspace_keys(group));
    }
    let sorted = sort_entries(entries);
    let ghost perm = choose|perm: Seq<int>|
        sorted_positions(keys_of(entries@), perm) && sorted@.len() == entries@.len() && forall|k: int|
            0 <= k < sorted@.len() ==> #[trigger] sorted@[k] == entries@[perm[k]];
    let mut out: Vec<WorkspaceTreeNode> = Vec::new();
    let mut sorted = sorted;
    let mut rev: Vec<WorkspaceTreeNode> = Vec::new();
    let ghost n = sorted@.len();
    let ghost full = sorted@;
    while sorted.len() > 0
        invariant
            sorted@ == full.take(sorted@.len() as int),
            sorted@.len() <= n == full.len(),
            rev@.len() == n - sorted@.len(),
            forall|k: int| 0 <= k < rev@.len() ==> #[trigger] rev@[k] == full[n - 1 - k].2,
        decreases sorted@.len(),
    {
        let e = sorted.pop().unwrap();
        rev.push(e.2);
    }
    while rev.len() > 0
        invariant
            rev@.len() + out@.len() == n == full.len(),
            forall|k: int| 0 <= k < rev@.len() ==> #[trigger] rev@[k] == full[n - 1 - k].2,
            forall|k: int| 0 <= k < out@.len() ==> #[trigger] out@[k] == full[k].2,
        decreases rev@.len(),
    {
        let node = rev.pop().unwrap();
        out.push(node);
    }
    proof {
        assert(sorted_positions(workspace_keys(group), perm));
        assert forall|j: int| 0 <= j < out@.len() implies #[trigger] workspace_views(out@)[j] == workspace_row_of(group[perm[j]], counts) by {
            assert(out@[j] == entries@[perm[j]].2);
        }
    }
    out
}

impl ProjectTreeState {
    /// A tree of these repositories, with no workspace selected.
    pub fn new(repositories: Vec<RepositoryTreeNode>) -> (r: Self)
        ensures
            r@.repositories == repository_views(repositories@),
            r@.selected is None,
    {
        ProjectTreeState { repositories, selected_workspace_id: None }
    }

    /// The repository rows, in display order.
    pub fn repositories(&self) -> (r: &[RepositoryTreeNode])
        ensures
            repository_views(r@) == self@.repositories,
    {
        self.repositories.as_slice()
    }

    /// The selected workspace.
    pub fn selected_workspace_id(&self) -> (r: Option<RepositoryWorkspaceId>)
        ensures
            r == self@.selected,
    {
        self.selected_workspace_id
    }

    /// The visible rows: each repository, followed by its workspaces when it is expanded.
    pub fn visible_rows(&self) -> (r: Vec<ProjectTreeRow>)
        ensures
            r@ == rows(self@.repositories),
    {
        let ghost views = repository_views(self.repositories@);
        let mut out: Vec<ProjectTreeRow> = Vec::new();
        let mut i: usize = 0;
        while i < self.repositories.len()
            invariant
                0 <= i <= self.repositories@.len(),
                views == repository_views(self.repositories@),
                out@ == rows(views.take(i as int)),
            decreases self.repositories@.len() - i,
        {
            let repository = &self.repositories[i];
            let ghost before = out@;
            out.push(ProjectTreeRow::Repository(repository.repository_id));
            if repository.expanded {
                let mut j: usize = 0;
                while j < repository.workspaces.len()
                    invariant
                        0 <= j <= repository.workspaces@.len(),
                        repository == self.repositories@[i as int],
                        out@ == before + seq![ProjectTreeRow::Repository(repository.repository_id)]
                            + workspace_views(repository.workspaces@).take(j as int).map_values(
                            |w: WorkspaceNodeView| ProjectTreeRow::Workspace(w.workspace_id),
                        ),
                    decreases repository.workspaces@.len() - j,
                {
                    out.push(ProjectTreeRow::Workspace(repository.workspaces[j].workspace_id));
                    j = j + 1;
                    proof {
                        assert(workspace_views(repository.workspaces@).take(j as int).map_values(
                            |w: WorkspaceNodeView| ProjectTreeRow::Workspace(w.workspace_id),
                        ) =~= workspace_views(repository.workspaces@).take(j - 1).map_values(
                            |w: WorkspaceNodeView| ProjectTreeRow::Workspace(w.workspace_id),
                        ).push(ProjectTreeRow::Workspace(repository.workspaces@[j - 1].workspace_id)));
                    }
                }
                proof {
                    assert(workspace_views(repository.workspaces@).take(
                        repository.workspaces@.len() as int,
                    ) =~= workspace_views(repository.workspaces@));
                }
            }
            proof {
                assert(views.take(i + 1).drop_last() =~= views.take(i as int));
                assert(views.take(i + 1).last() == repository@);
                assert(out@ =~= rows(views.take(i as int)) + repository_rows(repository@));
            }
            i = i + 1;
        }
        proof {
            assert(views.take(self.repositories@.len() as int) =~= views);
        }
        out
    }

    /// Flips the expansion of the first repository with this id; `false`
    /// (and no change) when there is none.
    pub fn toggle_repository(&mut self, repository_id: RepositoryId) -> (found: bool)
        ensures
            found == holds_repository(old(self)@.repositories, repository_id),
            final(self)@.repositories == toggled(old(self)@.repositories, repository_id),
            final(self)@.selected == old(self)@.selected,
    {
        let ghost views = repository_views(self.repositories@);
        match find_repository(&self.repositories, repository_id) {
            Some(i) => {
                let mut node = self.repositories.remove(i);
                node.expanded = !node.expanded;
                let ghost node_view = node@;
                self.repositories.insert(i, node);
                proof {
                    assert(holds_repository(views, repository_id)) by {
                        assert(views[i as int].repository_id == repository_id);
                    }
                    let p = first_repository(views, repository_id);
                    assert(p == i) by {
                        assert(views[i as int].repository_id == repository_id);
                        if p < i {
                            assert(views[p].repository_id != repository_id);
                        } else if p > i {
                            assert(views[i as int].repository_id != repository_id);
                        }
                    }
                    assert(node_view == flipped(views[i as int]));
                    assert(repository_views(self.repositories@) =~= views.update(i as int, node_view));
                }
                true
            },
            None => {
                proof {
                    assert(!holds_repository(views, repository_id));
                }
                false
            },
        }
    }

    /// Selects a workspace when the tree holds it; `false` (and no change) otherwise.
    pub fn select_workspace(&mut self, workspace_id: RepositoryWorkspaceId) -> (exists: bool)
        ensures
            exists == holds_workspace(old(self)@.repositories, workspace_id),
            final(self)@.repositories == old(self)@.repositories,
            final(self)@.selected == (if exists {
                Some(workspace_id)
            } else {
                old(self)@.selected
            }),
    {
        let exists = contains_workspace(&self.repositories, workspace_id);
        if exists {
            self.selected_workspace_id = Some(workspace_id);
        }
        exists
    }

    /// Follows the window's active workspace: it becomes the selection when
    /// the tree holds it; otherwise nothing is selected.
    pub fn set_active_workspace(&mut self, workspace_id: Option<RepositoryWorkspaceId>)
        ensures
            final(self)@.repositories == old(self)@.repositories,
            final(self)@.selected == (match workspace_id {
                Some(id) => if holds_workspace(old(self)@.repositories, id) {
                    Some(id)
                } else {
                    None
                },
                None => None,
            }),
    {
        if let Some(workspace_id) = workspace_id {
            if self.select_workspace(workspace_id) {
                return;
            }
        }
        self.selected_workspace_id = None;
    }

    /// Handles a user action: toggling and selecting change the tree; the
    /// other actions only become requests to the window. Selecting a
    /// workspace the tree does not hold keeps the selection but is still reported.
    pub fn handle_action(&mut self, action: ProjectTreeAction) -> (event: Option<ProjectTreeEvent>)
        ensures
            match action {
                ProjectTreeAction::AddRepository => event == Some(
                    ProjectTreeEvent::AddRepositoryRequested,
                ) && final(self)@ == old(self)@,
                ProjectTreeAction::CreateWorkspace { repository_id } => event == Some(
                    ProjectTreeEvent::CreateWorkspaceRequested { repository_id },
                ) && final(self)@ == old(self)@,
                ProjectTreeAction::DeleteWorkspace { workspace_id } => event == Some(
                    ProjectTreeEvent::DeleteWorkspaceRequested { workspace_id },
                ) && final(self)@ == old(self)@,
                ProjectTreeAction::ToggleRepository { repository_id } => event is None
                    && final(self)@.repositories == toggled(old(self)@.repositories, repository_id)
                    && final(self)@.selected == old(self)@.selected,
                ProjectTreeAction::SelectWorkspace { workspace_id } => event == Some(
                    ProjectTreeEvent::WorkspaceSelected { workspace_id },
                ) && final(self)@.repositories == old(self)@.repositories
                    && final(self)@.selected == (match workspace_id {
                    Some(id) => if holds_workspace(old(self)@.repositories, id) {
                        Some(id)
                    } else {
                        old(self)@.selected
                    },
                    None => None,
                }),
            },
    {
        match action {
            ProjectTreeAction::AddRepository => Some(ProjectTreeEvent::AddRepositoryRequested),
            ProjectTreeAction::CreateWorkspace { repository_id } => Some(
                ProjectTreeEvent::CreateWorkspaceRequested { repository_id },
            ),
            ProjectTreeAction::DeleteWorkspace { workspace_id } => Some(
                ProjectTreeEvent::DeleteWorkspaceRequested { workspace_id },
            ),
            ProjectTreeAction::ToggleRepository { repository_id } => {
                self.toggle_repository(repository_id);
                None
            },
            ProjectTreeAction::SelectWorkspace { workspace_id } => {
                match workspace_id {
                    Some(id) => {
                        self.select_workspace(id);
                    },
                    None => {
                        self.selected_workspace_id = None;
                    },
                }
                Some(ProjectTreeEvent::WorkspaceSelected { workspace_id })
            },
        }
    }

    /// The tree of the given records: repositories ordered by creation time,
    /// then name, then input position, all expanded; each with its
    /// workspaces ordered the same way and their tab counts (0 when absent);
    /// workspaces of an unknown repository are left out. No workspace is selected.
    pub fn from_records(
        repositories: Vec<Repository>,
        workspaces: Vec<RepositoryWorkspace>,
        tab_counts: &TabCounts,
    ) -> (r: Self)
        requires
            tab_counts.wf(),
        ensures
            tree_of_records(r@.repositories, repositories@, workspaces@, tab_counts.counts()),
            r@.selected is None,
    {
        let mut entries: Vec<(Timestamp, Vec<char>, Repository)> = Vec::new();
        let mut repositories = repositories;
        let ghost orig = repositories@;
        let mut rev: Vec<Repository> = Vec::new();
        while repositories.len() > 0
            invariant
                repositories@ == orig.take(repositories@.len() as int),
                rev@.len() == orig.len() - repositories@.len(),
                forall|k: int| 0 <= k < rev@.len() ==> #[trigger] rev@[k] == orig[orig.len() - 1 - k],
            decreases repositories@.len(),
        {
            let repository = repositories.pop().unwrap();
            rev.push(repository);
        }
        while rev.len() > 0
            invariant
                rev@.len() + entries@.len() == orig.len(),
                forall|k: int| 0 <= k < rev@.len() ==> #[trigger] rev@[k] == orig[orig.len() - 1 - k],
                forall|k: int|
                    0 <= k < entries@.len() ==> {
                        &&& #[trigger] entries@[k].2 == orig[k]
                        &&& entries@[k].0 == orig[k].created_at
                        &&& entries@[k].1@ == orig[k].display_name@
                    },
            decreases rev@.len(),
        {
            let repository = rev.pop().unwrap();
            let name = str_chars(repository.display_name.as_str());
            entries.push((repository.created_at, name, repository));
        }
        proof {
            assert(entries@.len() == orig.len());
            assert forall|k: int| 0 <= k < orig.len() implies #[trigger] keys_of(entries@)[k] == repository_keys(orig)[k] by {
                assert(entries@[k].2 == orig[k]);
            }
            assert(keys_of(entries@) =~= repository_keys(orig));
        }
        let sorted = sort_entries(entries);
        let ghost perm = choose|perm: Seq<int>|
            sorted_positions(keys_of(entries@), perm) && sorted@.len() == entries@.len() && forall|k: int|
                0 <= k < sorted@.len() ==> #[trigger] sorted@[k] == entries@[perm[k]];
        let mut nodes: Vec<RepositoryTreeNode> = Vec::new();
        let mut k: usize = 0;
        while k < sorted.len()
            invariant
                0 <= k <= sorted@.len() == orig.len(),
                tab_counts.wf(),
                sorted_positions(repository_keys(orig), perm),
                forall|j: int| 0 <= j < sorted@.len() ==> #[trigger] sorted@[j] == entries@[perm[j]],
                forall|j: int| 0 <= j < entries@.len() ==> #[trigger] entries@[j].2 == orig[j],
                entries@.len() == orig.len(),
                nodes@.len() == k,
                forall|j: int|
                    0 <= j < k ==> {
                        let repo = #[trigger] orig[perm[j]];
                        let node = repository_views(nodes@)[j];
                        &&& node.repository_id == repo.id
                        &&& node.display_name == repo.display_name@
                        &&& node.expanded
                        &&& if (exists|k2: int| 0 <= k2 < j && repository_views(nodes@)[k2].repository_id == repo.id) {
                            node.workspaces.len() == 0
                        } else {
                            sorted_workspace_rows(
                                node.workspaces,
                                workspaces_of(workspaces@, repo.id),
                                tab_counts.counts(),
                            )
                        }
                    },
            decreases sorted@.len() - k,
        {
            let repository = &sorted[k].2;
            let id = repository.id;
            let claimed = id_claimed(&nodes, id);
            let rows = if claimed {
                Vec::new()
            } else {
                workspace_rows(&workspaces, id, tab_counts)
            };
            let node = RepositoryTreeNode {
                repository_id: id,
                display_name: repository.display_name.clone(),
                expanded: true,
                workspaces: rows,
            };
            let ghost before = nodes@;
            nodes.push(node);
            proof {
                assert(sorted@[k as int].2 == orig[perm[k as int]]);
                assert forall|j: int| 0 <= j < k + 1 implies {
                        let repo = #[trigger] orig[perm[j]];
                        let node = repository_views(nodes@)[j];
                        &&& node.repository_id == repo.id
                        &&& node.display_name == repo.display_name@
                        &&& node.expanded
                        &&& if (exists|k2: int| 0 <= k2 < j && repository_views(nodes@)[k2].repository_id == repo.id) {
                            node.workspaces.len() == 0
                        } else {
                            sorted_workspace_rows(
                                node.workspaces,
                                workspaces_of(workspaces@, repo.id),
                                tab_counts.counts(),
                            )
                        }
                    } by {
                    assert(forall|q: int| 0 <= q < k ==> repository_views(nodes@)[q] == repository_views(before)[q]);
                    if j == k {
                        if claimed {
                            let k2 = choose|k2: int| 0 <= k2 < before.len() && before[k2].repository_id == id;
                            assert(repository_views(nodes@)[k2].repository_id == id);
                        } else {
                            assert forall|k2: int| 0 <= k2 < j implies repository_views(nodes@)[k2].repository_id != id by {
                                assert(before[k2].repository_id != id);
                            }
                            assert(workspace_views(rows@) == repository_views(nodes@)[j].workspaces);
                        }
                    } else {
                        if exists|k2: int| 0 <= k2 < j && repository_views(nodes@)[k2].repository_id == orig[perm[j]].id {
                            let k2 = choose|k2: int| 0 <= k2 < j && repository_views(nodes@)[k2].repository_id == orig[perm[j]].id;
                            assert(repository_views(before)[k2].repository_id == orig[perm[j]].id);
                        }
                        if exists|k2: int| 0 <= k2 < j && repository_views(before)[k2].repository_id == orig[perm[j]].id {
                            let k2 = choose|k2: int| 0 <= k2 < j && repository_views(before)[k2].repository_id == orig[perm[j]].id;
                            assert(repository_views(nodes@)[k2].repository_id == orig[perm[j]].id);
                        }
                    }
                }
            }
            k = k + 1;
        }
        let r = ProjectTreeState { repositories: nodes, selected_workspace_id: None };
        proof {
            assert(tree_of_records(r@.repositories, orig, workspaces@, tab_counts.counts()));
        }
        r
    }

    /// The running workspaces that stay marked once the tree is refreshed:
    /// those of `ids` that the tree holds, in their order.
    pub fn retain_held_workspaces(&self, ids: &Vec<RepositoryWorkspaceId>) -> (r: Vec<RepositoryWorkspaceId>)
        ensures
            r@ == held_ids(self@.repositories, ids@),
    {
        let mut out: Vec<RepositoryWorkspaceId> = Vec::new();
        let mut i: usize = 0;
        while i < ids.len()
            invariant
                0 <= i <= ids@.len(),
                out@ == held_ids(self@.repositories, ids@.take(i as int)),
            decreases ids@.len() - i,
        {
            let held = contains_workspace(&self.repositories, ids[i]);
            if held {
                out.push(ids[i]);
            }
            proof {
                assert(ids@.take(i + 1).drop_last() =~= ids@.take(i as int));
            }
            i = i + 1;
        }
        assert(ids@.take(ids@.len() as int) =~= ids@);
        out
    }

    /// The agent activities that stay shown once the tree is refreshed:
    /// those whose workspace the tree holds, in their order.
    pub fn retain_held_activities(&self, activities: &Vec<(RepositoryWorkspaceId, WorkspaceAgentActivity)>) -> (r: Vec<
        (RepositoryWorkspaceId, WorkspaceAgentActivity),
    >)
        ensures
            r@ == held_activities(self@.repositories, activities@),
    {
        let mut out: Vec<(RepositoryWorkspaceId, WorkspaceAgentActivity)> = Vec::new();
        let mut i: usize = 0;
        while i < activities.len()
            invariant
                0 <= i <= activities@.len(),
                out@ == held_activities(self@.repositories, activities@.take(i as int)),
            decreases activities@.len() - i,
        {
            let (id, activity) = activities[i];
            let held = contains_workspace(&self.repositories, id);
            if held {
                out.push((id, activity));
            }
            proof {
                assert(activities@.take(i + 1).drop_last() =~= activities@.take(i as int));
            }
            i = i + 1;
        }
        assert(activities@.take(activities@.len() as int) =~= activities@);
        out
    }

    /// The tree refreshed from new records: built as `from_records` builds it,
    /// keeping the expansion of repositories the previous tree showed and the
    /// selection when the new tree still holds that workspace.
    pub fn refreshed(
        &self,
        repositories: Vec<Repository>,
        workspaces: Vec<RepositoryWorkspace>,
        tab_counts: &TabCounts,
    ) -> (r: Self)
        requires
            tab_counts.wf(),
        ensures
            exists|built: Seq<RepositoryNodeView>|
                tree_of_records(built, repositories@, workspaces@, tab_counts.counts())
                    && r@.repositories.len() == built.len() && forall|k: int|
                    0 <= k < built.len() ==> same_but_expansion(#[trigger] r@.repositories[k], built[k])
                        && r@.repositories[k].expanded == previous_expansion(
                        self@.repositories,
                        built[k].repository_id,
                    ),
            r@.selected == (match self@.selected {
                Some(id) => if holds_workspace(r@.repositories, id) {
                    Some(id)
                } else {
                    None
                },
                None => None,
            }),
    {
        let built = ProjectTreeState::from_records(repositories, workspaces, tab_counts);
        let ghost built_view = built@.repositories;
        let ghost previous = self@.repositories;
        let mut nodes = built.repositories;
        let mut out: Vec<RepositoryTreeNode> = Vec::new();
        let mut rev: Vec<RepositoryTreeNode> = Vec::new();
        let ghost n = nodes@.len();
        let ghost full = nodes@;
        proof {
            assert(repository_views(full) == built_view);
        }
        while nodes.len() > 0
            invariant
                nodes@ == full.take(nodes@.len() as int),
                nodes@.len() <= n == full.len(),
                rev@.len() == n - nodes@.len(),
                forall|k: int| 0 <= k < rev@.len() ==> #[trigger] rev@[k] == full[n - 1 - k],
            decreases nodes@.len(),
        {
            let node = nodes.pop().unwrap();
            rev.push(node);
        }
        while rev.len() > 0
            invariant
                rev@.len() + out@.len() == n == full.len(),
                repository_views(full) == built_view,
                previous == self@.repositories,
                forall|k: int| 0 <= k < rev@.len() ==> #[trigger] rev@[k] == full[n - 1 - k],
                forall|k: int|
                    0 <= k < out@.len() ==> same_but_expansion(#[trigger] repository_views(out@)[k], built_view[k])
                        && repository_views(out@)[k].expanded == previous_expansion(previous, built_view[k].repository_id),
            decreases rev@.len(),
        {
            let mut node = rev.pop().unwrap();
            let ghost at = out@.len() as int;
            assert(node == full[at]);
            let expanded = self.last_expansion(node.repository_id);
            node.expanded = expanded;
            let ghost before = out@;
            out.push(node);
            proof {
                assert forall|k: int| 0 <= k < out@.len() implies same_but_expansion(#[trigger] repository_views(out@)[k], built_view[k])
                    && repository_views(out@)[k].expanded == previous_expansion(previous, built_view[k].repository_id) by {
                    if k < at {
                        assert(repository_views(out@)[k] == repository_views(before)[k]);
                    } else {
                        assert(built_view[k] == full[k]@);
                    }
                }
            }
        }
        let mut r = ProjectTreeState { repositories: out, selected_workspace_id: None };
        if let Some(id) = self.selected_workspace_id {
            r.select_workspace(id);
        }
        proof {
            assert(tree_of_records(built_view, repositories@, workspaces@, tab_counts.counts()));
        }
        r
    }

    /// The expansion of the last row with this id, `true` when there is none.
    fn last_expansion(&self, id: RepositoryId) -> (r: bool)
        ensures
            r == previous_expansion(self@.repositories, id),
    {
        let ghost views = self@.repositories;
        let mut i: usize = self.repositories.len();
        while i > 0
            invariant
                0 <= i <= self.repositories@.len(),
                views == repository_views(self.repositories@),
                forall|k: int| i <= k < self.repositories@.len() ==> self.repositories@[k].repository_id != id,
            decreases i,
        {
            if self.repositories[i - 1].repository_id.0 == id.0 {
                proof {
                    let p = choose|p: int|
                        0 <= p < views.len() && views[p].repository_id == id && forall|k: int|
                            p < k < views.len() ==> views[k].repository_id != id;
                    assert(views[i - 1].repository_id == id);
                    if p < i - 1 {
                        assert(views[i - 1].repository_id != id);
                    } else if p > i - 1 {
                        assert(views[p].repository_id != id);
                    }
                }
                return self.repositories[i - 1].expanded;
            }
            i = i - 1;
        }
        proof {
            assert(!holds_repository(views, id));
        }
        true
    }
}

/// The first repository with an id the tree holds is where `first_repository` says.
proof fn lemma_first_repository(repositories: Seq<RepositoryNodeView>, id: RepositoryId, i: int)
    requires
        0 <= i < repositories.len(),
        repositories[i].repository_id == id,
    ensures
        holds_repository(repositories, id),
        0 <= first_repository(repositories, id) <= i,
        repositories[first_repository(repositories, id)].repository_id == id,
        forall|k: int| 0 <= k < first_repository(repositories, id) ==> repositories[k].repository_id != id,
    decreases i,
{
    if exists|k: int| 0 <= k < i && repositories[k].repository_id == id {
        let k = choose|k: int| 0 <= k < i && repositories[k].repository_id == id;
        lemma_first_repository(repositories, id, k);
    } else {
        assert(0 <= i < repositories.len() && repositories[i].repository_id == id && forall|k: int|
            0 <= k < i ==> repositories[k].repository_id != id);
    }
}

/// Toggling a repository twice gives the tree back as it was.
pub proof fn law_toggle_twice_restores(repositories: Seq<RepositoryNodeView>, id: RepositoryId)
    ensures
        toggled(toggled(repositories, id), id) == repositories,
{
    if holds_repository(repositories, id) {
        let w = choose|w: int| 0 <= w < repositories.len() && repositories[w].repository_id == id;
        lemma_first_repository(repositories, id, w);
        let i = first_repository(repositories, id);
        let once = toggled(repositories, id);
        assert(once[i].repository_id == id);
        lemma_first_repository(once, id, i);
        let j = first_repository(once, id);
        assert(j == i) by {
            if j < i {
                assert(once[j] == repositories[j]);
            }
        }
        assert(toggled(once, id) =~= repositories);
    }
}

/// Toggling changes only expansion: the tree holds the same repositories
/// and workspaces, in the same order, and the selection stays valid.
pub proof fn law_toggle_changes_only_expansion(repositories: Seq<RepositoryNodeView>, id: RepositoryId, w: RepositoryWorkspaceId)
    ensures
        toggled(repositories, id).len() == repositories.len(),
        forall|k: int| 0 <= k < repositories.len() ==> same_but_expansion(#[trigger] toggled(repositories, id)[k], repositories[k]),
        holds_workspace(toggled(repositories, id), w) == holds_workspace(repositories, w),
{
    let t = toggled(repositories, id);
    if holds_repository(repositories, id) {
        let v = choose|v: int| 0 <= v < repositories.len() && repositories[v].repository_id == id;
        lemma_first_repository(repositories, id, v);
    }
    assert(t.len() == repositories.len());
    assert forall|k: int| 0 <= k < repositories.len() implies same_but_expansion(#[trigger] t[k], repositories[k]) by {}
    if holds_workspace(repositories, w) {
        let (i, j) = choose|i: int, j: int|
            0 <= i < repositories.len() && 0 <= j < repositories[i].workspaces.len()
                && #[trigger] repositories[i].workspaces[j].workspace_id == w;
        assert(t[i].workspaces[j].workspace_id == w);
    }
    if holds_workspace(t, w) {
        let (i, j) = choose|i: int, j: int|
            0 <= i < t.len() && 0 <= j < t[i].workspaces.len() && #[trigger] t[i].workspaces[j].workspace_id == w;
        assert(repositories[i].workspaces[j].workspace_id == w);
    }
}

} // verus!
