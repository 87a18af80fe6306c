//! Per-workspace tab sets: the window shows the tabs of the active workspace
//! and keeps every other workspace's tabs, with their active index, aside.
use vstd::prelude::*;

use crate::domain::{RepositoryWorkspaceId, TabCounts};

verus! {

/// The tabs of one workspace and which of them is active.
#[derive(Debug)]
pub struct RepositoryWorkspaceTabState<T> {
    pub tabs: Vec<T>,
    pub active_tab_index: usize,
}

impl<T> View for RepositoryWorkspaceTabState<T> {
    type V = (Seq<T>, usize);

    open spec fn view(&self) -> (Seq<T>, usize) {
        (self.tabs@, self.active_tab_index)
    }
}

/// `index` moved into `0..tab_count`, or 0 when there are no tabs.
pub open spec fn clamp_index(index: usize, tab_count: nat) -> usize {
    if tab_count == 0 {
        0
    } else if index < tab_count {
        index
    } else {
        (tab_count - 1) as usize
    }
}

/// Clamps a tab index to the last tab (`0` without tabs).
pub fn clamped_tab_index(index: usize, tab_count: usize) -> (r: usize)
    ensures
        r == clamp_index(index, tab_count as nat),
{
    if tab_count == 0 {
        0
    } else if index < tab_count {
        index
    } else {
        tab_count - 1
    }
}

impl<T> RepositoryWorkspaceTabState<T> {
    /// A tab state whose active index is clamped to its tabs.
    pub fn new(tabs: Vec<T>, active_tab_index: usize) -> (r: Self)
        ensures
            r.tabs@ == tabs@,
            r.active_tab_index == clamp_index(active_tab_index, tabs@.len()),
    {
        let index = clamped_tab_index(active_tab_index, tabs.len());
        RepositoryWorkspaceTabState { tabs, active_tab_index: index }
    }
}

/// The two workspace keys are the same (`None` is the unclassified set).
pub fn same_workspace_key(a: Option<RepositoryWorkspaceId>, b: Option<RepositoryWorkspaceId>) -> (r:
    bool)
    ensures
        r == (a == b),
{
    match (a, b) {
        (Some(x), Some(y)) => x.0 == y.0,
        (None, None) => true,
        _ => false,
    }
}

/// Tab sets of all workspaces of a window.
#[derive(Debug)]
pub struct RepositoryWorkspaceTabSets<T> {
    active_workspace_id: Option<RepositoryWorkspaceId>,
    /// The kept tab sets, one entry per workspace (`wf`): a map from the
    /// optional workspace id, held as pairs because vstd's hash map
    /// specifies lookups only for keys whose hashing it models, which an
    /// optional id struct is not.
    inactive: Vec<(Option<RepositoryWorkspaceId>, RepositoryWorkspaceTabState<T>)>,
}

/// Position of the entry with key `k`.
pub open spec fn key_position<T>(
    s: Seq<(Option<RepositoryWorkspaceId>, RepositoryWorkspaceTabState<T>)>,
    k: Option<RepositoryWorkspaceId>,
) -> int {
    choose|i: int| 0 <= i < s.len() && s[i].0 == k
}

/// The stored tab states, keyed by workspace.
pub open spec fn entries_map<T>(
    s: Seq<(Option<RepositoryWorkspaceId>, RepositoryWorkspaceTabState<T>)>,
) -> Map<Option<RepositoryWorkspaceId>, (Seq<T>, usize)> {
    Map::new(
        |k: Option<RepositoryWorkspaceId>| exists|i: int| 0 <= i < s.len() && s[i].0 == k,
        |k: Option<RepositoryWorkspaceId>| s[key_position(s, k)].1@,
    )
}

/// No workspace key occurs twice.
pub open spec fn keys_distinct<T>(
    s: Seq<(Option<RepositoryWorkspaceId>, RepositoryWorkspaceTabState<T>)>,
) -> bool {
    forall|i: int, j: int| 0 <= i < j < s.len() ==> s[i].0 != s[j].0
}

/// In a list with distinct keys, the entry at `i` is the one for its key.
proof fn lemma_entry_at<T>(
    s: Seq<(Option<RepositoryWorkspaceId>, RepositoryWorkspaceTabState<T>)>,
    i: int,
)
    requires
        keys_distinct(s),
        0 <= i < s.len(),
    ensures
        key_position(s, s[i].0) == i,
        entries_map(s).dom().contains(s[i].0),
        entries_map(s)[s[i].0] == s[i].1@,
{
    let k = s[i].0;
    let p = key_position(s, k);
    assert(0 <= p < s.len() && s[p].0 == k);
    if p != i {
        if p < i {
            assert(s[p].0 != s[i].0);
        } else {
            assert(s[i].0 != s[p].0);
        }
    }
}

/// Removing the entry at `i` removes its key.
proof fn lemma_remove_entry<T>(
    s: Seq<(Option<RepositoryWorkspaceId>, RepositoryWorkspaceTabState<T>)>,
    i: int,
)
    requires
        keys_distinct(s),
        0 <= i < s.len(),
    ensures
        keys_distinct(s.remove(i)),
        entries_map(s.remove(i)) =~= entries_map(s).remove(s[i].0),
{
    let r = s.remove(i);
    assert forall|a: int, b: int| 0 <= a < b < r.len() implies r[a].0 != r[b].0 by {
        let a2 = if a < i { a } else { a + 1 };
        let b2 = if b < i { b } else { b + 1 };
        assert(r[a] == s[a2] && r[b] == s[b2]);
    }
    assert forall|k: Option<RepositoryWorkspaceId>|
        entries_map(r).dom().contains(k) <==> entries_map(s).remove(s[i].0).dom().contains(
            k,
        ) by {
        if entries_map(r).dom().contains(k) {
            let j = choose|j: int| 0 <= j < r.len() && r[j].0 == k;
            let j2 = if j < i { j } else { j + 1 };
            assert(s[j2].0 == k);
            if k == s[i].0 {
                assert(j2 != i);
            }
        }
        if entries_map(s).remove(s[i].0).dom().contains(k) {
            let j = choose|j: int| 0 <= j < s.len() && s[j].0 == k;
            assert(j != i);
            let j2 = if j < i { j } else { j - 1 };
            assert(r[j2].0 == k);
        }
    }
    assert forall|k: Option<RepositoryWorkspaceId>| #[trigger]
        entries_map(r).dom().contains(k) implies entries_map(r)[k] == entries_map(s).remove(
        s[i].0,
    )[k] by {
        let j = choose|j: int| 0 <= j < r.len() && r[j].0 == k;
        lemma_entry_at(r, j);
        let j2 = if j < i { j } else { j + 1 };
        assert(r[j] == s[j2]);
        lemma_entry_at(s, j2);
    }
}

/// Appending an entry with a fresh key adds that key.
proof fn lemma_push_entry<T>(
    s: Seq<(Option<RepositoryWorkspaceId>, RepositoryWorkspaceTabState<T>)>,
    e: (Option<RepositoryWorkspaceId>, RepositoryWorkspaceTabState<T>),
)
    requires
        keys_distinct(s),
        !entries_map(s).dom().contains(e.0),
    ensures
        keys_distinct(s.push(e)),
        entries_map(s.push(e)) =~= entries_map(s).insert(e.0, e.1@),
{
    let r = s.push(e);
    assert forall|a: int, b: int| 0 <= a < b < r.len() implies r[a].0 != r[b].0 by {
        if b == s.len() {
            assert(r[a] == s[a]);
        } else {
            assert(r[a] == s[a] && r[b] == s[b]);
        }
    }
    assert forall|k: Option<RepositoryWorkspaceId>|
        entries_map(r).dom().contains(k) <==> entries_map(s).insert(e.0, e.1@).dom().contains(
            k,
        ) by {
        if entries_map(s).dom().contains(k) {
            let j = choose|j: int| 0 <= j < s.len() && s[j].0 == k;
            assert(r[j].0 == k);
        }
        if k == e.0 {
            assert(r[s.len() as int].0 == k);
        }
        if entries_map(r).dom().contains(k) {
            let j = choose|j: int| 0 <= j < r.len() && r[j].0 == k;
            if j < s.len() {
                assert(s[j].0 == k);
            }
        }
    }
    assert forall|k: Option<RepositoryWorkspaceId>| #[trigger]
        entries_map(r).dom().contains(k) implies entries_map(r)[k] == entries_map(s).insert(
        e.0,
        e.1@,
    )[k] by {
        let j = choose|j: int| 0 <= j < r.len() && r[j].0 == k;
        lemma_entry_at(r, j);
        if j < s.len() {
            assert(r[j] == s[j]);
            lemma_entry_at(s, j);
        }
    }
}

/// `f` answered `true` for some tab.
pub open spec fn some_tab_matches<T, F: Fn(&T) -> bool>(tabs: Seq<T>, f: F) -> bool {
    exists|j: int| 0 <= j < tabs.len() && f.ensures((&tabs[j],), true)
}

/// `f` answered `false` for every tab.
pub open spec fn no_tab_matches<T, F: Fn(&T) -> bool>(tabs: Seq<T>, f: F) -> bool {
    forall|j: int| 0 <= j < tabs.len() ==> f.ensures((&tabs[j],), false)
}

/// One of the first `bound` entries is keyed by `id` and has a matching tab.
pub open spec fn entry_index_matching<T, F: Fn(&T) -> bool>(
    s: Seq<(Option<RepositoryWorkspaceId>, RepositoryWorkspaceTabState<T>)>,
    id: RepositoryWorkspaceId,
    f: F,
    bound: int,
) -> bool {
    exists|a: int| 0 <= a < bound && s[a].0 == Some(id) && some_tab_matches(s[a].1.tabs@, f)
}

spec fn old_contains(s: Seq<RepositoryWorkspaceId>, id: RepositoryWorkspaceId) -> bool {
    s.contains(id)
}

spec fn old_ids_prefix(s: Seq<RepositoryWorkspaceId>, n: nat) -> Seq<RepositoryWorkspaceId> {
    s.subrange(0, n as int)
}

/// Whether `f` answers `true` for some tab.
fn any_tab_matches<T, F: Fn(&T) -> bool>(tabs: &[T], f: &F) -> (r: bool)
    requires
        forall|t: &T| f.requires((t,)),
    ensures
        r ==> some_tab_matches(tabs@, *f),
        !r ==> no_tab_matches(tabs@, *f),
{
    let mut j: usize = 0;
    while j < tabs.len()
        invariant
            0 <= j <= tabs@.len(),
            forall|t: &T| f.requires((t,)),
            forall|b: int| 0 <= b < j ==> f.ensures((&tabs@[b],), false),
        decreases tabs@.len() - j,
    {
        if f(&tabs[j]) {
            return true;
        }
        j = j + 1;
    }
    false
}

impl<T> RepositoryWorkspaceTabSets<T> {
    /// The workspace whose tabs the window shows.
    pub closed spec fn active(&self) -> Option<RepositoryWorkspaceId> {
        self.active_workspace_id
    }

    /// The tab states set aside, keyed by workspace (`None` is the unclassified set).
    pub closed spec fn inactive_map(&self) -> Map<Option<RepositoryWorkspaceId>, (Seq<T>, usize)> {
        entries_map(self.inactive@)
    }

    /// The stored states, in the order `inactive_states` hands them out.
    pub closed spec fn inactive_entries(&self) -> Seq<
        (Option<RepositoryWorkspaceId>, RepositoryWorkspaceTabState<T>),
    > {
        self.inactive@
    }

    /// Every key is stored once, and the active workspace has no stored state.
    pub closed spec fn wf(&self) -> bool {
        &&& keys_distinct(self.inactive@)
        &&& forall|i: int| 0 <= i < self.inactive@.len() ==> self.inactive@[i].0 != self.active_workspace_id
    }

    /// Tab sets for a window whose active workspace is given and that keeps nothing aside.
    pub fn new(active_workspace_id: Option<RepositoryWorkspaceId>) -> (r: Self)
        ensures
            r.wf(),
            r.active() == active_workspace_id,
            r.inactive_map() == Map::<Option<RepositoryWorkspaceId>, (Seq<T>, usize)>::empty(),
    {
        let r = RepositoryWorkspaceTabSets { active_workspace_id, inactive: Vec::new() };
        assert(r.inactive_map() =~= Map::<Option<RepositoryWorkspaceId>, (Seq<T>, usize)>::empty());
        r
    }

    /// The workspace whose tabs the window shows.
    pub fn active_workspace_id(&self) -> (r: Option<RepositoryWorkspaceId>)
        ensures
            r == self.active(),
    {
        self.active_workspace_id
    }

    fn position_of(&self, workspace_id: Option<RepositoryWorkspaceId>) -> (r: Option<usize>)
        requires
            self.wf(),
        ensures
            r matches Some(i) ==> i < self.inactive@.len() && self.inactive@[i as int].0
                == workspace_id,
            r is None <==> !self.inactive_map().dom().contains(workspace_id),
    {
        let mut i: usize = 0;
        while i < self.inactive.len()
            invariant
                0 <= i <= self.inactive@.len(),
                forall|j: int| 0 <= j < i ==> self.inactive@[j].0 != workspace_id,
            decreases self.inactive@.len() - i,
        {
            if same_workspace_key(self.inactive[i].0, workspace_id) {
                return Some(i);
            }
            i = i + 1;
        }
        None
    }

    /// Sets aside the tab state of a workspace that is not the active one,
    /// replacing any state already kept for it.
    pub fn insert_inactive(
        &mut self,
        workspace_id: Option<RepositoryWorkspaceId>,
        state: RepositoryWorkspaceTabState<T>,
    )
        requires
            old(self).wf(),
            workspace_id != old(self).active(),
        ensures
            final(self).wf(),
            final(self).active() == old(self).active(),
            final(self).inactive_map() == old(self).inactive_map().insert(workspace_id, state@),
    {
        let ghost state_view = state@;
        match self.position_of(workspace_id) {
            Some(i) => {
                proof {
                    lemma_remove_entry(self.inactive@, i as int);
                }
                let _ = self.inactive.remove(i);
            },
            None => {},
        }
        proof {
            assert(!entries_map(self.inactive@).dom().contains(workspace_id));
            lemma_push_entry(self.inactive@, (workspace_id, state));
        }
        let ghost before = self.inactive@;
        self.inactive.push((workspace_id, state));
        assert(self.inactive@ == before.push((workspace_id, state)));
        assert(self.inactive_map() =~= old(self).inactive_map().insert(workspace_id, state_view));
    }

    /// Removes and returns the state kept for a workspace.
    pub fn take_inactive(&mut self, workspace_id: Option<RepositoryWorkspaceId>) -> (r: Option<
        RepositoryWorkspaceTabState<T>,
    >)
        requires
            old(self).wf(),
        ensures
            final(self).wf(),
            final(self).active() == old(self).active(),
            final(self).inactive_map() == old(self).inactive_map().remove(workspace_id),
            r is Some <==> old(self).inactive_map().dom().contains(workspace_id),
            r matches Some(s) ==> s@ == old(self).inactive_map()[workspace_id],
    {
        match self.position_of(workspace_id) {
            Some(i) => {
                proof {
                    lemma_entry_at(self.inactive@, i as int);
                    lemma_remove_entry(self.inactive@, i as int);
                }
                let (_, state) = self.inactive.remove(i);
                Some(state)
            },
            None => {
                assert(self.inactive_map() =~= old(self).inactive_map().remove(workspace_id));
                None
            },
        }
    }

    /// The workspace of some kept state that has a tab for which `contains`
    /// answers `true`; `None` when it answered `false` for every kept tab.
    pub fn find_inactive_workspace<F: Fn(&T) -> bool>(&self, contains: F) -> (r: Option<
        Option<RepositoryWorkspaceId>,
    >)
        requires
            self.wf(),
            forall|t: &T| contains.requires((t,)),
        ensures
            r matches Some(k) ==> self.inactive_map().dom().contains(k) && some_tab_matches(
                self.inactive_map()[k].0,
                contains,
            ),
            r is None ==> forall|k: Option<RepositoryWorkspaceId>| #[trigger]
                self.inactive_map().dom().contains(k) ==> no_tab_matches(
                    self.inactive_map()[k].0,
                    contains,
                ),
    {
        let mut i: usize = 0;
        while i < self.inactive.len()
            invariant
                self.wf(),
                0 <= i <= self.inactive@.len(),
                forall|t: &T| contains.requires((t,)),
                forall|a: int|
                    #![trigger self.inactive@[a]]
                    0 <= a < i ==> no_tab_matches(self.inactive@[a].1.tabs@, contains),
            decreases self.inactive@.len() - i,
        {
            if any_tab_matches(self.inactive[i].1.tabs.as_slice(), &contains) {
                proof {
                    lemma_entry_at(self.inactive@, i as int);
                }
                return Some(self.inactive[i].0);
            }
            i = i + 1;
        }
        proof {
            assert forall|k: Option<RepositoryWorkspaceId>| #[trigger]
                self.inactive_map().dom().contains(k) implies no_tab_matches(
                self.inactive_map()[k].0,
                contains,
            ) by {
                let a = choose|a: int| 0 <= a < self.inactive@.len() && self.inactive@[a].0 == k;
                lemma_entry_at(self.inactive@, a);
                assert(self.inactive@[a] == self.inactive@[a]);
            }
        }
        None
    }

    /// The workspaces (the active one included) that hold a tab for which
    /// `matches_tab` answers `true`.
    pub fn workspace_ids_matching<F: Fn(&T) -> bool>(&self, active_tabs: &[T], matches_tab: F) -> (r:
        Vec<RepositoryWorkspaceId>)
        requires
            self.wf(),
            forall|t: &T| matches_tab.requires((t,)),
        ensures
            r@.no_duplicates(),
            forall|id: RepositoryWorkspaceId| #[trigger]
                r@.contains(id) ==> (self.active() == Some(id) && some_tab_matches(
                    active_tabs@,
                    matches_tab,
                )) || (self.inactive_map().dom().contains(Some(id)) && some_tab_matches(
                    self.inactive_map()[Some(id)].0,
                    matches_tab,
                )),
            forall|id: RepositoryWorkspaceId|
                #![trigger r@.contains(id)]
                !r@.contains(id) ==> (self.active() == Some(id) ==> no_tab_matches(
                    active_tabs@,
                    matches_tab,
                )) && (self.inactive_map().dom().contains(Some(id)) ==> no_tab_matches(
                    self.inactive_map()[Some(id)].0,
                    matches_tab,
                )),
    {
        let mut ids: Vec<RepositoryWorkspaceId> = Vec::new();
        let active_found = any_tab_matches(active_tabs, &matches_tab);
        match self.active_workspace_id {
            Some(active) => {
                if active_found {
                    ids.push(active);
                }
            },
            None => {},
        }
        let ghost first_ids = ids@;
        let mut i: usize = 0;
        while i < self.inactive.len()
            invariant
                self.wf(),
                0 <= i <= self.inactive@.len(),
                forall|t: &T| matches_tab.requires((t,)),
                active_found ==> some_tab_matches(active_tabs@, matches_tab),
                !active_found ==> no_tab_matches(active_tabs@, matches_tab),
                first_ids == (if active_found && self.active() is Some {
                    seq![self.active()->0]
                } else {
                    Seq::<RepositoryWorkspaceId>::empty()
                }),
                ids@.no_duplicates(),
                first_ids.len() <= ids@.len(),
                ids@.subrange(0, first_ids.len() as int) == first_ids,
                forall|q: int|
                    first_ids.len() <= q < ids@.len() ==> #[trigger] entry_index_matching(
                        self.inactive@,
                        ids@[q],
                        matches_tab,
                        i as int,
                    ),
                forall|a: int|
                    #![trigger self.inactive@[a]]
                    0 <= a < i && self.inactive@[a].0 is Some ==> (ids@.contains(
                        self.inactive@[a].0->0,
                    ) || no_tab_matches(self.inactive@[a].1.tabs@, matches_tab)),
            decreases self.inactive@.len() - i,
        {
            let key = self.inactive[i].0;
            let ghost ids_before = ids@;
            match key {
                Some(id) => {
                    let found = any_tab_matches(self.inactive[i].1.tabs.as_slice(), &matches_tab);
                    if !found {
                        assert(no_tab_matches(self.inactive@[i as int].1.tabs@, matches_tab));
                    }
                    if found {
                        proof {
                            assert forall|q: int| 0 <= q < ids@.len() implies ids@[q] != id by {
                                if q < first_ids.len() {
                                    assert(ids@[q] == first_ids[q]);
                                    assert(self.inactive@[i as int].0 != self.active());
                                } else {
                                    assert(entry_index_matching(self.inactive@, ids@[q], matches_tab, i as int));
                                    let a = choose|a: int|
                                        0 <= a < i && self.inactive@[a].0 == Some(ids@[q]);
                                    assert(self.inactive@[a].0 != self.inactive@[i as int].0);
                                }
                            }
                        }
                        ids.push(id);
                        proof {
                            assert(ids@.subrange(0, first_ids.len() as int) =~= old_ids_prefix(ids@, first_ids.len()));
                        }
                    }
                },
                None => {},
            }
            proof {
                assert forall|a: int|
                    #![trigger self.inactive@[a]]
                    0 <= a < i + 1 && self.inactive@[a].0 is Some implies (ids@.contains(
                    self.inactive@[a].0->0,
                ) || no_tab_matches(self.inactive@[a].1.tabs@, matches_tab)) by {
                    if a < i {
                        if old_contains(ids_before, self.inactive@[a].0->0) {
                            let q = choose|q: int| 0 <= q < ids_before.len() && ids_before[q] == self.inactive@[a].0->0;
                            assert(ids@[q] == ids_before[q]);
                        }
                    } else {
                        if ids@.len() > ids_before.len() {
                            assert(ids@[ids@.len() - 1] == self.inactive@[a].0->0);
                        }
                    }
                }
                assert forall|q: int|
                    first_ids.len() <= q < ids@.len() implies #[trigger] entry_index_matching(
                        self.inactive@,
                        ids@[q],
                        matches_tab,
                        i + 1,
                    ) by {
                    if q == ids@.len() - 1 && key is Some && ids@[q] == key->0 {
                        assert(self.inactive@[i as int].0 == Some(ids@[q]));
                    }
                    if entry_index_matching(self.inactive@, ids@[q], matches_tab, i as int) {
                        let a = choose|a: int|
                            0 <= a < i && self.inactive@[a].0 == Some(ids@[q]) && some_tab_matches(
                                self.inactive@[a].1.tabs@,
                                matches_tab,
                            );
                        assert(0 <= a < i + 1);
                    }
                }
            }
            i = i + 1;
        }
        proof {
            assert forall|id: RepositoryWorkspaceId| #[trigger]
                ids@.contains(id) implies (self.active() == Some(id) && some_tab_matches(
                active_tabs@,
                matches_tab,
            )) || (self.inactive_map().dom().contains(Some(id)) && some_tab_matches(
                self.inactive_map()[Some(id)].0,
                matches_tab,
            )) by {
                let q = choose|q: int| 0 <= q < ids@.len() && ids@[q] == id;
                if q < first_ids.len() {
                    assert(ids@[q] == first_ids[q]);
                } else {
                    assert(entry_index_matching(self.inactive@, ids@[q], matches_tab, i as int));
                    let a = choose|a: int|
                        0 <= a < i && self.inactive@[a].0 == Some(ids@[q]) && some_tab_matches(
                            self.inactive@[a].1.tabs@,
                            matches_tab,
                        );
                    lemma_entry_at(self.inactive@, a);
                }
            }
            assert forall|id: RepositoryWorkspaceId|
                #![trigger ids@.contains(id)]
                !ids@.contains(id) implies (self.active() == Some(id) ==> no_tab_matches(
                active_tabs@,
                matches_tab,
            )) && (self.inactive_map().dom().contains(Some(id)) ==> no_tab_matches(
                self.inactive_map()[Some(id)].0,
                matches_tab,
            )) by {
                if self.active() == Some(id) && active_found {
                    assert(ids@[0] == first_ids[0]);
                }
                if self.inactive_map().dom().contains(Some(id)) {
                    let a = choose|a: int|
                        0 <= a < self.inactive@.len() && self.inactive@[a].0 == Some(id);
                    lemma_entry_at(self.inactive@, a);
                    assert(self.inactive@[a].0 is Some);
                }
            }
        }
        ids
    }

    /// Shows the tabs of `workspace_id`: the current tabs and their clamped
    /// active index are set aside under the current workspace, and the
    /// target's kept state (or an empty one) becomes the active tabs.
    /// Switching to the active workspace only clamps the index.
    pub fn switch_to(
        &mut self,
        workspace_id: Option<RepositoryWorkspaceId>,
        active_tabs: &mut Vec<T>,
        active_tab_index: &mut usize,
    )
        requires
            old(self).wf(),
        ensures
            final(self).wf(),
            (final(self).active(), final(self).inactive_map(), final(active_tabs)@, *final(active_tab_index)) == switched(
                old(self).active(),
                old(self).inactive_map(),
                old(active_tabs)@,
                *old(active_tab_index),
                workspace_id,
            ),
            workspace_id == old(self).active() ==> {
                &&& final(self).active() == old(self).active()
                &&& final(self).inactive_map() == old(self).inactive_map()
                &&& final(active_tabs)@ == old(active_tabs)@
                &&& *final(active_tab_index) == clamp_index(
                    *old(active_tab_index),
                    old(active_tabs)@.len(),
                )
            },
            workspace_id != old(self).active() ==> {
                &&& final(self).active() == workspace_id
                &&& final(self).inactive_map() == old(self).inactive_map().remove(
                    workspace_id,
                ).insert(
                    old(self).active(),
                    (
                        old(active_tabs)@,
                        clamp_index(*old(active_tab_index), old(active_tabs)@.len()),
                    ),
                )
                &&& old(self).inactive_map().dom().contains(workspace_id) ==> final(active_tabs)@ == old(self).inactive_map()[workspace_id].0 && *final(active_tab_index)
                    == old(self).inactive_map()[workspace_id].1
                &&& !old(self).inactive_map().dom().contains(workspace_id) ==> final(active_tabs)@ == Seq::<T>::empty() && *final(active_tab_index) == 0
            },
    {
        if same_workspace_key(workspace_id, self.active_workspace_id) {
            *active_tab_index = clamped_tab_index(*active_tab_index, active_tabs.len());
            return;
        }
        let mut tabs: Vec<T> = Vec::new();
        std::mem::swap(&mut tabs, active_tabs);
        let index = *active_tab_index;
        *active_tab_index = 0;
        let current = RepositoryWorkspaceTabState::new(tabs, index);
        let next = match self.take_inactive(workspace_id) {
            Some(state) => state,
            None => RepositoryWorkspaceTabState::new(Vec::new(), 0),
        };
        let previous = self.active_workspace_id;
        self.active_workspace_id = workspace_id;
        proof {
            assert(!entries_map(self.inactive@).dom().contains(previous));
            lemma_push_entry(self.inactive@, (previous, current));
            assert forall|i: int| 0 <= i < self.inactive@.len() implies self.inactive@[i].0
                != workspace_id by {
                lemma_entry_at(self.inactive@, i);
            }
        }
        let ghost current_view = current@;
        self.inactive.push((previous, current));
        assert(self.inactive_map() =~= old(self).inactive_map().remove(workspace_id).insert(
            previous,
            current_view,
        ));
        *active_tabs = next.tabs;
        *active_tab_index = next.active_tab_index;
    }

    /// The kept states, each with its workspace key.
    pub fn inactive_states(&self) -> (r: &[(Option<RepositoryWorkspaceId>, RepositoryWorkspaceTabState<T>)])
        ensures
            r@ == self.inactive_entries(),
            entries_map(r@) == self.inactive_map(),
            keys_distinct(r@) || !self.wf(),
    {
        self.inactive.as_slice()
    }

    /// The number of tabs of each workspace that has any: the active one
    /// counted from `active_tabs`, the others from their kept state; the
    /// unclassified set is not counted.
    pub fn tab_counts(&self, active_tabs: &[T]) -> (r: TabCounts)
        requires
            self.wf(),
        ensures
            r.wf(),
            forall|id: RepositoryWorkspaceId| #[trigger]
                r.counts().dom().contains(id) <==> (self.active() == Some(id)
                    && active_tabs@.len() > 0) || (self.inactive_map().dom().contains(Some(id))
                    && self.inactive_map()[Some(id)].0.len() > 0),
            forall|id: RepositoryWorkspaceId| #[trigger]
                r.counts().dom().contains(id) ==> r.counts()[id] == (if self.active() == Some(id) {
                    active_tabs@.len()
                } else {
                    self.inactive_map()[Some(id)].0.len()
                }),
    {
        let mut counts = TabCounts::new();
        match self.active_workspace_id {
            Some(id) => {
                if active_tabs.len() > 0 {
                    counts.insert(id, active_tabs.len());
                }
            },
            None => {},
        }
        let mut i: usize = 0;
        while i < self.inactive.len()
            invariant
                self.wf(),
                counts.wf(),
                0 <= i <= self.inactive@.len(),
                forall|id: RepositoryWorkspaceId| #[trigger]
                    counts.counts().dom().contains(id) <==> (self.active() == Some(id)
                        && active_tabs@.len() > 0) || exists|a: int|
                        0 <= a < i && self.inactive@[a].0 == Some(id)
                            && self.inactive@[a].1.tabs@.len() > 0,
                forall|id: RepositoryWorkspaceId| #[trigger]
                    counts.counts().dom().contains(id) ==> counts.counts()[id] == (if self.active()
                        == Some(id) {
                        active_tabs@.len()
                    } else {
                        self.inactive_map()[Some(id)].0.len()
                    }),
            decreases self.inactive@.len() - i,
        {
            let key = self.inactive[i].0;
            let n = self.inactive[i].1.tabs.len();
            proof {
                lemma_entry_at(self.inactive@, i as int);
            }
            match key {
                Some(id) => {
                    if n > 0 {
                        assert(self.active() != Some(id));
                        counts.insert(id, n);
                    }
                },
                None => {},
            }
            i = i + 1;
        }
        proof {
            assert forall|id: RepositoryWorkspaceId| #[trigger]
                counts.counts().dom().contains(id) <==> (self.active() == Some(id)
                    && active_tabs@.len() > 0) || (self.inactive_map().dom().contains(Some(id))
                    && self.inactive_map()[Some(id)].0.len() > 0) by {
                if self.inactive_map().dom().contains(Some(id)) {
                    let a = choose|a: int|
                        0 <= a < self.inactive@.len() && self.inactive@[a].0 == Some(id);
                    lemma_entry_at(self.inactive@, a);
                }
                if exists|a: int|
                    0 <= a < self.inactive@.len() && self.inactive@[a].0 == Some(id)
                        && self.inactive@[a].1.tabs@.len() > 0 {
                    let a = choose|a: int|
                        0 <= a < self.inactive@.len() && self.inactive@[a].0 == Some(id)
                            && self.inactive@[a].1.tabs@.len() > 0;
                    lemma_entry_at(self.inactive@, a);
                }
            }
        }
        counts
    }
}

/// What switching to `target` makes of the window's tab state (active
/// workspace, kept states, shown tabs, active index): switching to the
/// active workspace only clamps the index; otherwise the shown tabs and
/// their clamped index are kept under the active workspace, and the
/// target's kept state, or an empty one, is shown.
pub open spec fn switched<T>(
    active: Option<RepositoryWorkspaceId>,
    inactive: Map<Option<RepositoryWorkspaceId>, (Seq<T>, usize)>,
    tabs: Seq<T>,
    index: usize,
    target: Option<RepositoryWorkspaceId>,
) -> (Option<RepositoryWorkspaceId>, Map<Option<RepositoryWorkspaceId>, (Seq<T>, usize)>, Seq<T>, usize) {
    if target == active {
        (active, inactive, tabs, clamp_index(index, tabs.len()))
    } else {
        let kept = inactive.remove(target).insert(active, (tabs, clamp_index(index, tabs.len())));
        if inactive.dom().contains(target) {
            (target, kept, inactive[target].0, inactive[target].1)
        } else {
            (target, kept, Seq::empty(), 0)
        }
    }
}

/// Switching from the active workspace to another and back shows the first
/// one's tabs again, with its active index clamped to them, and keeps every
/// other stored state unchanged; the other workspace keeps what it showed.
pub proof fn law_switch_back_restores<T>(
    active: Option<RepositoryWorkspaceId>,
    inactive: Map<Option<RepositoryWorkspaceId>, (Seq<T>, usize)>,
    tabs: Seq<T>,
    index: usize,
    other: Option<RepositoryWorkspaceId>,
)
    requires
        other != active,
        !inactive.dom().contains(active),
    ensures
        ({
            let away = switched(active, inactive, tabs, index, other);
            let back = switched(away.0, away.1, away.2, away.3, active);
            &&& back.0 == active
            &&& back.2 == tabs
            &&& back.3 == clamp_index(index, tabs.len())
            &&& back.1 == inactive.remove(other).insert(other, (away.2, clamp_index(away.3, away.2.len())))
        }),
{
    let away = switched(active, inactive, tabs, index, other);
    let back = switched(away.0, away.1, away.2, away.3, active);
    assert(back.1 =~= inactive.remove(other).insert(other, (away.2, clamp_index(away.3, away.2.len()))));
}

} // verus!
