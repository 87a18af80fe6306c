//! Repository and workspace records as the project organization model keeps them.
use vstd::prelude::*;

verus! {

/// Identity of a registered repository (the 128-bit value of its UUID).
#[derive(Clone, Copy, Debug, PartialEq, Eq, Hash, Structural)]
pub struct RepositoryId(pub u128);

/// Identity of a repository workspace (the 128-bit value of its UUID).
#[derive(Clone, Copy, Debug, PartialEq, Eq, Hash, Structural)]
pub struct RepositoryWorkspaceId(pub u128);

/// A point in time: whole seconds since the Unix epoch and the nanoseconds
/// past that second, ordered as the calendar orders them.
#[derive(Clone, Copy, Debug, PartialEq, Eq, Structural)]
pub struct Timestamp {
    pub seconds: i64,
    pub nanos: u32,
}

impl Timestamp {
    /// `self` comes strictly before `other`.
    pub open spec fn before(self, other: Timestamp) -> bool {
        self.seconds < other.seconds || (self.seconds == other.seconds && self.nanos < other.nanos)
    }

    /// Whether `self` comes strictly before `other`.
    pub fn is_before(&self, other: &Timestamp) -> (r: bool)
        ensures
            r == self.before(*other),
    {
        self.seconds < other.seconds || (self.seconds == other.seconds && self.nanos < other.nanos)
    }
}

/// How a repository came to be registered.
#[derive(Clone, Copy, Debug, PartialEq, Eq, Structural)]
pub enum RepositorySource {
    Local,
    Cloned,
}

/// A registered repository.
#[derive(Clone, Debug)]
pub struct Repository {
    pub id: RepositoryId,
    pub display_name: String,
    pub path: Vec<u8>,
    pub remote_url: Option<String>,
    pub source: RepositorySource,
    pub created_at: Timestamp,
    pub last_opened_at: Timestamp,
}

/// A workspace: a linked worktree of a registered repository.
#[derive(Clone, Debug)]
pub struct RepositoryWorkspace {
    pub id: RepositoryWorkspaceId,
    pub repository_id: RepositoryId,
    pub display_name: String,
    pub branch: String,
    pub worktree_path: Vec<u8>,
    pub created_at: Timestamp,
    pub last_opened_at: Timestamp,
}

/// Number of tabs per workspace.
#[derive(Clone, Debug)]
pub struct TabCounts {
    entries: Vec<(RepositoryWorkspaceId, usize)>,
}

/// Position of the entry for `id`.
pub open spec fn count_position(s: Seq<(RepositoryWorkspaceId, usize)>, id: RepositoryWorkspaceId) -> int {
    choose|i: int| 0 <= i < s.len() && s[i].0 == id
}

/// The counts of a list of (workspace, count) entries.
pub open spec fn counts_map(s: Seq<(RepositoryWorkspaceId, usize)>) -> Map<RepositoryWorkspaceId, usize> {
    Map::new(
        |id: RepositoryWorkspaceId| exists|i: int| 0 <= i < s.len() && s[i].0 == id,
        |id: RepositoryWorkspaceId| s[count_position(s, id)].1,
    )
}

/// No workspace occurs twice.
pub open spec fn ids_distinct(s: Seq<(RepositoryWorkspaceId, usize)>) -> bool {
    forall|i: int, j: int| 0 <= i < j < s.len() ==> s[i].0 != s[j].0
}

proof fn lemma_count_at(s: Seq<(RepositoryWorkspaceId, usize)>, i: int)
    requires
        ids_distinct(s),
        0 <= i < s.len(),
    ensures
        counts_map(s).dom().contains(s[i].0),
        counts_map(s)[s[i].0] == s[i].1,
{
    let p = count_position(s, s[i].0);
    assert(0 <= p < s.len() && s[p].0 == s[i].0);
    if p < i {
        assert(s[p].0 != s[i].0);
    } else if i < p {
        assert(s[i].0 != s[p].0);
    }
}

impl TabCounts {
    /// The count of each workspace that has one.
    pub closed spec fn counts(&self) -> Map<RepositoryWorkspaceId, usize> {
        counts_map(self.entries@)
    }

    /// Each workspace has one entry.
    pub closed spec fn wf(&self) -> bool {
        ids_distinct(self.entries@)
    }

    /// No counts.
    pub fn new() -> (r: TabCounts)
        ensures
            r.wf(),
            r.counts() == Map::<RepositoryWorkspaceId, usize>::empty(),
    {
        let r = TabCounts { entries: Vec::new() };
        assert(r.counts() =~= Map::<RepositoryWorkspaceId, usize>::empty());
        r
    }

    /// Sets the count of `id`.
    pub fn insert(&mut self, id: RepositoryWorkspaceId, count: usize)
        requires
            old(self).wf(),
        ensures
            final(self).wf(),
            final(self).counts() == old(self).counts().insert(id, count),
    {
        let mut i: usize = 0;
        while i < self.entries.len()
            invariant
                0 <= i <= self.entries@.len(),
                self.entries@ == old(self).entries@,
                ids_distinct(self.entries@),
                forall|j: int| 0 <= j < i ==> self.entries@[j].0 != id,
            decreases self.entries@.len() - i,
        {
            if self.entries[i].0.0 == id.0 {
                let ghost before = self.entries@;
                self.entries.set(i, (id, count));
                proof {
                    let after = self.entries@;
                    assert(after == before.update(i as int, (id, count)));
                    assert forall|a: int, b: int| 0 <= a < b < after.len() implies after[a].0 != after[b].0 by {
                        assert(before[a].0 != before[b].0);
                    }
                    assert forall|k: RepositoryWorkspaceId| counts_map(after).dom().contains(k) <==> counts_map(before).insert(id, count).dom().contains(k) by {
                        if counts_map(before).dom().contains(k) {
                            let j = choose|j: int| 0 <= j < before.len() && before[j].0 == k;
                            assert(after[j].0 == k);
                        }
                        if counts_map(after).dom().contains(k) {
                            let j = choose|j: int| 0 <= j < after.len() && after[j].0 == k;
                            assert(before[j].0 == k);
                        }
                    }
                    assert forall|k: RepositoryWorkspaceId| #[trigger] counts_map(after).dom().contains(k) implies counts_map(after)[k] == counts_map(before).insert(id, count)[k] by {
                        let j = choose|j: int| 0 <= j < after.len() && after[j].0 == k;
                        lemma_count_at(after, j);
                        if j != i {
                            lemma_count_at(before, j);
                        }
                    }
                    assert(counts_map(after) =~= counts_map(before).insert(id, count));
                }
                return;
            }
            i = i + 1;
        }
        let ghost before = self.entries@;
        self.entries.push((id, count));
        proof {
            let after = self.entries@;
            assert forall|a: int, b: int| 0 <= a < b < after.len() implies after[a].0 != after[b].0 by {
                if b < before.len() {
                    assert(before[a].0 != before[b].0);
                }
            }
            assert forall|k: RepositoryWorkspaceId| counts_map(after).dom().contains(k) <==> counts_map(before).insert(id, count).dom().contains(k) by {
                if counts_map(before).dom().contains(k) {
                    let j = choose|j: int| 0 <= j < before.len() && before[j].0 == k;
                    assert(after[j].0 == k);
                }
                if k == id {
                    assert(after[before.len() as int].0 == k);
                }
                if counts_map(after).dom().contains(k) {
                    let j = choose|j: int| 0 <= j < after.len() && after[j].0 == k;
                    if j < before.len() {
                        assert(before[j].0 == k);
                    }
                }
            }
            assert forall|k: RepositoryWorkspaceId| #[trigger] counts_map(after).dom().contains(k) implies counts_map(after)[k] == counts_map(before).insert(id, count)[k] by {
                let j = choose|j: int| 0 <= j < after.len() && after[j].0 == k;
                lemma_count_at(after, j);
                if j < before.len() {
                    lemma_count_at(before, j);
                }
            }
            assert(counts_map(after) =~= counts_map(before).insert(id, count));
        }
    }

    /// Counts from (workspace, count) pairs; a later pair for a workspace wins.
    pub fn from_pairs(pairs: Vec<(RepositoryWorkspaceId, usize)>) -> (r: TabCounts)
        ensures
            r.wf(),
            forall|id: RepositoryWorkspaceId| #[trigger] r.counts().dom().contains(id) <==> exists|i: int| 0 <= i < pairs@.len() && pairs@[i].0 == id,
            forall|i: int| 0 <= i < pairs@.len() && (forall|j: int| i < j < pairs@.len() ==> pairs@[j].0 != pairs@[i].0) ==> r.counts()[pairs@[i].0] == pairs@[i].1,
    {
        let mut r = TabCounts::new();
        let mut i: usize = 0;
        while i < pairs.len()
            invariant
                0 <= i <= pairs@.len(),
                r.wf(),
                forall|id: RepositoryWorkspaceId| #[trigger] r.counts().dom().contains(id) <==> exists|a: int| 0 <= a < i && pairs@[a].0 == id,
                forall|a: int| 0 <= a < i && (forall|j: int| a < j < i ==> pairs@[j].0 != pairs@[a].0) ==> r.counts()[pairs@[a].0] == pairs@[a].1,
            decreases pairs@.len() - i,
        {
            r.insert(pairs[i].0, pairs[i].1);
            proof {
                assert forall|id: RepositoryWorkspaceId| #[trigger] r.counts().dom().contains(id) <==> exists|a: int| 0 <= a < i + 1 && pairs@[a].0 == id by {
                    if id == pairs@[i as int].0 {
                        assert(pairs@[i as int].0 == id);
                    }
                }
            }
            i = i + 1;
        }
        r
    }

    /// The count of `id`, if it has one.
    pub fn get(&self, id: &RepositoryWorkspaceId) -> (r: Option<usize>)
        requires
            self.wf(),
        ensures
            r is Some <==> self.counts().dom().contains(*id),
            r matches Some(n) ==> n == self.counts()[*id],
    {
        let mut i: usize = 0;
        while i < self.entries.len()
            invariant
                0 <= i <= self.entries@.len(),
                ids_distinct(self.entries@),
                forall|j: int| 0 <= j < i ==> self.entries@[j].0 != *id,
            decreases self.entries@.len() - i,
        {
            if self.entries[i].0.0 == id.0 {
                proof {
                    lemma_count_at(self.entries@, i as int);
                }
                return Some(self.entries[i].1);
            }
            i = i + 1;
        }
        None
    }
}

} // verus!
