//! `git worktree list --porcelain -z`: its NUL-separated records, and the
//! listing of a repository's worktrees with each path made canonical.
use vstd::prelude::*;

use crate::bytes::{
    ascii_bytes, byte_list_string, byte_list_text, bytes_eq, bytes_start_with, copy_range,
    literal_bytes, nul_fields, split_nul_fields,
};
use crate::git::command::{
    arg_views, checked_output, checked_stdout, command_of, git_command, run_request, text,
    text_arg, GitArgView, GitCommand, GitCommandView, GitReply, GitReplyView, GitRequest,
    GitRequestView, Step, StepView,
};
use crate::git::types::{opt_text, worktree_views, GitErrorView, GitWorkspaceError, WorktreeInfo, WorktreeView};
use crate::text::{concat_text, strip_prefix, utf8_chars, utf8_str};
use crate::git::ancestry::{rejoin, rejoined, split_last, split_last_component};

verus! {

/// A worktree record as listed, before its path is made canonical.
#[derive(Clone, Debug, PartialEq, Eq)]
pub struct RawWorktree {
    pub path: Option<Vec<u8>>,
    pub head: Option<String>,
    pub branch: Option<String>,
    pub is_bare: bool,
    pub is_detached: bool,
    pub is_locked: bool,
    pub locked_reason: Option<String>,
    pub is_prunable: bool,
    pub prunable_reason: Option<String>,
}

/// Model of a listed worktree record.
pub struct RawWorktreeView {
    pub path: Option<Seq<u8>>,
    pub head: Option<Seq<char>>,
    pub branch: Option<Seq<char>>,
    pub is_bare: bool,
    pub is_detached: bool,
    pub is_locked: bool,
    pub locked_reason: Option<Seq<char>>,
    pub is_prunable: bool,
    pub prunable_reason: Option<Seq<char>>,
}

/// The bytes of an optional path.
pub open spec fn opt_bytes(p: Option<Vec<u8>>) -> Option<Seq<u8>> {
    match p {
        Some(v) => Some(v@),
        None => None,
    }
}

impl View for RawWorktree {
    type V = RawWorktreeView;

    open spec fn view(&self) -> RawWorktreeView {
        RawWorktreeView {
            path: opt_bytes(self.path),
            head: opt_text(self.head),
            branch: opt_text(self.branch),
            is_bare: self.is_bare,
            is_detached: self.is_detached,
            is_locked: self.is_locked,
            locked_reason: opt_text(self.locked_reason),
            is_prunable: self.is_prunable,
            prunable_reason: opt_text(self.prunable_reason),
        }
    }
}

/// Models of listed records.
pub open spec fn raw_views(s: Seq<RawWorktree>) -> Seq<RawWorktreeView> {
    s.map_values(|w: RawWorktree| w@)
}

/// A record with nothing read yet.
pub open spec fn blank_record() -> RawWorktreeView {
    RawWorktreeView {
        path: None,
        head: None,
        branch: None,
        is_bare: false,
        is_detached: false,
        is_locked: false,
        locked_reason: None,
        is_prunable: false,
        prunable_reason: None,
    }
}

fn blank() -> (r: RawWorktree)
    ensures
        r@ == blank_record(),
{
    RawWorktree {
        path: None,
        head: None,
        branch: None,
        is_bare: false,
        is_detached: false,
        is_locked: false,
        locked_reason: None,
        is_prunable: false,
        prunable_reason: None,
    }
}

/// A text field's value, which must be UTF-8.
pub open spec fn field_text(value: Seq<u8>) -> Result<Seq<char>, GitErrorView> {
    match utf8_chars(value) {
        Some(t) => Ok(t),
        None => Err(GitErrorView::InvalidWorktreeRecord { record: "non-UTF-8 text field "@ + byte_list_text(value) }),
    }
}

/// What one non-empty field adds to the record being read.
pub open spec fn field_step(cur: RawWorktreeView, field: Seq<u8>) -> Result<RawWorktreeView, GitErrorView> {
    if let Some(p) = strip_prefix(field, ascii_bytes("worktree "@)) {
        Ok(RawWorktreeView { path: Some(p), ..cur })
    } else if let Some(h) = strip_prefix(field, ascii_bytes("HEAD "@)) {
        match field_text(h) {
            Ok(t) => Ok(RawWorktreeView { head: Some(t), ..cur }),
            Err(e) => Err(e),
        }
    } else if let Some(b) = strip_prefix(field, ascii_bytes("branch "@)) {
        match field_text(b) {
            Ok(t) => Ok(RawWorktreeView { branch: Some(t), ..cur }),
            Err(e) => Err(e),
        }
    } else if field == ascii_bytes("bare"@) {
        Ok(RawWorktreeView { is_bare: true, ..cur })
    } else if field == ascii_bytes("detached"@) {
        Ok(RawWorktreeView { is_detached: true, ..cur })
    } else if field == ascii_bytes("locked"@) {
        Ok(RawWorktreeView { is_locked: true, ..cur })
    } else if let Some(r) = strip_prefix(field, ascii_bytes("locked "@)) {
        match field_text(r) {
            Ok(t) => Ok(RawWorktreeView { is_locked: true, locked_reason: Some(t), ..cur }),
            Err(e) => Err(e),
        }
    } else if field == ascii_bytes("prunable"@) {
        Ok(RawWorktreeView { is_prunable: true, ..cur })
    } else if let Some(r) = strip_prefix(field, ascii_bytes("prunable "@)) {
        match field_text(r) {
            Ok(t) => Ok(RawWorktreeView { is_prunable: true, prunable_reason: Some(t), ..cur }),
            Err(e) => Err(e),
        }
    } else {
        Err(GitErrorView::InvalidWorktreeRecord { record: byte_list_text(field) })
    }
}

/// Records read from `fields` onward: an empty field ends a record; the
/// first malformed field stops the reading. The records completed before it
/// come back together with its error.
pub open spec fn records_from(
    fields: Seq<Seq<u8>>,
    done: Seq<RawWorktreeView>,
    cur: RawWorktreeView,
    has_record: bool,
) -> (Seq<RawWorktreeView>, Option<GitErrorView>)
    decreases fields.len(),
{
    if fields.len() == 0 {
        (if has_record { done.push(cur) } else { done }, None)
    } else if fields[0].len() == 0 {
        if has_record {
            records_from(fields.drop_first(), done.push(cur), blank_record(), false)
        } else {
            records_from(fields.drop_first(), done, cur, false)
        }
    } else {
        match field_step(cur, fields[0]) {
            Err(e) => (done, Some(e)),
            Ok(next) => records_from(fields.drop_first(), done, next, true),
        }
    }
}

/// The records of `git worktree list --porcelain -z` output.
pub open spec fn worktree_records(stdout: Seq<u8>) -> (Seq<RawWorktreeView>, Option<GitErrorView>) {
    records_from(nul_fields(stdout), Seq::empty(), blank_record(), false)
}

/// Reads a text field's value.
fn read_field_text(value: &[u8]) -> (r: Result<String, GitWorkspaceError>)
    ensures
        match (r, field_text(value@)) {
            (Ok(t), Ok(v)) => t@ == v,
            (Err(e), Err(v)) => e@ == v,
            _ => false,
        },
{
    match utf8_str(value) {
        Some(s) => Ok(text(s)),
        None => {
            let listed = byte_list_string(value);
            Err(GitWorkspaceError::InvalidWorktreeRecord { record: concat_text("non-UTF-8 text field ", listed.as_str()) })
        },
    }
}

/// The value after `prefix`, when the field starts with it.
fn after_prefix(field: &[u8], prefix: &str) -> (r: Option<Vec<u8>>)
    ensures
        match (r, strip_prefix(field@, ascii_bytes(prefix@))) {
            (Some(v), Some(w)) => v@ == w,
            (None, None) => true,
            _ => false,
        },
{
    let p = literal_bytes(prefix);
    if bytes_start_with(field, p.as_slice()) {
        Some(copy_range(field, p.len(), field.len()))
    } else {
        None
    }
}

/// The field is exactly the literal.
fn is_literal(field: &[u8], literal: &str) -> (r: bool)
    ensures
        r == (field@ == ascii_bytes(literal@)),
{
    let l = literal_bytes(literal);
    bytes_eq(field, l.as_slice())
}

/// Applies one non-empty field to the record being read.
fn apply_field(cur: &mut RawWorktree, field: &[u8]) -> (r: Result<(), GitWorkspaceError>)
    ensures
        match (r, field_step(old(cur)@, field@)) {
            (Ok(()), Ok(v)) => final(cur)@ == v,
            (Err(e), Err(v)) => e@ == v,
            _ => false,
        },
{
    if let Some(p) = after_prefix(field, "worktree ") {
        cur.path = Some(p);
        return Ok(());
    }
    if let Some(h) = after_prefix(field, "HEAD ") {
        let t = read_field_text(h.as_slice())?;
        cur.head = Some(t);
        return Ok(());
    }
    if let Some(b) = after_prefix(field, "branch ") {
        let t = read_field_text(b.as_slice())?;
        cur.branch = Some(t);
        return Ok(());
    }
    if is_literal(field, "bare") {
        cur.is_bare = true;
        return Ok(());
    }
    if is_literal(field, "detached") {
        cur.is_detached = true;
        return Ok(());
    }
    if is_literal(field, "locked") {
        cur.is_locked = true;
        return Ok(());
    }
    if let Some(r) = after_prefix(field, "locked ") {
        let t = read_field_text(r.as_slice())?;
        cur.is_locked = true;
        cur.locked_reason = Some(t);
        return Ok(());
    }
    if is_literal(field, "prunable") {
        cur.is_prunable = true;
        return Ok(());
    }
    if let Some(r) = after_prefix(field, "prunable ") {
        let t = read_field_text(r.as_slice())?;
        cur.is_prunable = true;
        cur.prunable_reason = Some(t);
        return Ok(());
    }
    Err(GitWorkspaceError::InvalidWorktreeRecord { record: byte_list_string(field) })
}

/// Reads the records of `git worktree list --porcelain -z` output; a
/// malformed field comes back as the error after the records completed
/// before it.
pub fn parse_worktree_records(stdout: &[u8]) -> (r: (Vec<RawWorktree>, Option<GitWorkspaceError>))
    ensures
        raw_views(r.0@) == worktree_records(stdout@).0,
        match (r.1, worktree_records(stdout@).1) {
            (Some(e), Some(v)) => e@ == v,
            (None, None) => true,
            _ => false,
        },
{
    let fields = split_nul_fields(stdout);
    let ghost fs = fields@.map_values(|f: Vec<u8>| f@);
    let mut done: Vec<RawWorktree> = Vec::new();
    let mut cur = blank();
    let mut has_record = false;
    let mut i: usize = 0;
    proof {
        assert(fs.skip(0) =~= fs);
        assert(raw_views(done@) =~= Seq::<RawWorktreeView>::empty());
    }
    while i < fields.len()
        invariant
            0 <= i <= fields@.len(),
            fs == fields@.map_values(|f: Vec<u8>| f@),
            fs == nul_fields(stdout@),
            worktree_records(stdout@) == records_from(fs.skip(i as int), raw_views(done@), cur@, has_record),
        decreases fields@.len() - i,
    {
        proof {
            assert(fs.skip(i as int)[0] == fields@[i as int]@);
            assert(fs.skip(i as int).drop_first() =~= fs.skip(i + 1));
        }
        if fields[i].len() == 0 {
            if has_record {
                let ghost before = raw_views(done@);
                let finished = cur;
                cur = blank();
                done.push(finished);
                proof {
                    assert(raw_views(done@) =~= before.push(finished@));
                }
                has_record = false;
            }
        } else {
            match apply_field(&mut cur, fields[i].as_slice()) {
                Err(e) => {
                    return (done, Some(e));
                },
                Ok(()) => {
                    has_record = true;
                },
            }
        }
        i = i + 1;
    }
    proof {
        assert(fs.skip(i as int).len() == 0);
    }
    if has_record {
        let ghost before = raw_views(done@);
        let finished = cur;
        done.push(finished);
        proof {
            assert(raw_views(done@) =~= before.push(finished@));
        }
    }
    (done, None)
}

/// `git worktree list --porcelain -z`.
pub open spec fn list_command(repo: Seq<u8>) -> GitCommandView {
    command_of(
        repo,
        "list repository worktrees"@,
        seq![
            GitArgView::Text("worktree"@),
            GitArgView::Text("list"@),
            GitArgView::Text("--porcelain"@),
            GitArgView::Text("-z"@),
        ],
    )
}

fn make_list_command(repo: &Vec<u8>) -> (c: GitCommand)
    ensures
        c@ == list_command(repo@),
{
    let args = vec![text_arg("worktree"), text_arg("list"), text_arg("--porcelain"), text_arg("-z")];
    proof {
        assert(arg_views(args@) =~= seq![
            GitArgView::Text("worktree"@),
            GitArgView::Text("list"@),
            GitArgView::Text("--porcelain"@),
            GitArgView::Text("-z"@),
        ]);
    }
    git_command(repo, "list repository worktrees", args)
}

/// The error for a record without a `worktree` field.
pub open spec fn missing_path_error() -> GitErrorView {
    GitErrorView::InvalidWorktreeRecord { record: "missing worktree path"@ }
}

/// The worktree a record describes, at its canonical path.
pub open spec fn resolved_worktree(raw: RawWorktreeView, path: Seq<u8>) -> WorktreeView {
    WorktreeView {
        path,
        head: raw.head,
        branch: raw.branch,
        is_bare: raw.is_bare,
        is_detached: raw.is_detached,
        is_locked: raw.is_locked,
        locked_reason: raw.locked_reason,
        is_prunable: raw.is_prunable,
        prunable_reason: raw.prunable_reason,
    }
}

/// Where a worktree listing stands.
pub enum ListingStage {
    /// Waiting for `git worktree list`.
    Listing,
    /// Waiting for the canonical path of record `index`.
    Resolving { raws: Vec<RawWorktree>, trailing: Option<GitWorkspaceError>, index: usize, infos: Vec<WorktreeInfo> },
    /// Record `index` is prunable and its path is missing: waiting to know
    /// whether `ancestor` exists, with the components below it, from the
    /// last one up.
    Ascending {
        raws: Vec<RawWorktree>,
        trailing: Option<GitWorkspaceError>,
        index: usize,
        infos: Vec<WorktreeInfo>,
        ancestor: Vec<u8>,
        missing: Vec<Vec<u8>>,
    },
    /// Waiting for the canonical path of the nearest existing ancestor.
    Rejoining {
        raws: Vec<RawWorktree>,
        trailing: Option<GitWorkspaceError>,
        index: usize,
        infos: Vec<WorktreeInfo>,
        missing: Vec<Vec<u8>>,
    },
    /// No ancestor could be found: waiting for the path's canonical form once more.
    Fallback { raws: Vec<RawWorktree>, trailing: Option<GitWorkspaceError>, index: usize, infos: Vec<WorktreeInfo> },
}

/// Model of a listing's stage.
pub enum ListingStageView {
    Listing,
    Resolving { raws: Seq<RawWorktreeView>, trailing: Option<GitErrorView>, index: int, infos: Seq<WorktreeView> },
    Ascending {
        raws: Seq<RawWorktreeView>,
        trailing: Option<GitErrorView>,
        index: int,
        infos: Seq<WorktreeView>,
        ancestor: Seq<u8>,
        missing: Seq<Seq<u8>>,
    },
    Rejoining { raws: Seq<RawWorktreeView>, trailing: Option<GitErrorView>, index: int, infos: Seq<WorktreeView>, missing: Seq<Seq<u8>> },
    Fallback { raws: Seq<RawWorktreeView>, trailing: Option<GitErrorView>, index: int, infos: Seq<WorktreeView> },
}

/// A worktree listing in progress.
pub struct WorktreeListing {
    repo: Vec<u8>,
    stage: ListingStage,
}

/// Model of a worktree listing.
pub struct WorktreeListingView {
    pub repo: Seq<u8>,
    pub stage: ListingStageView,
}

/// The paths of a list of components.
pub open spec fn component_views(s: Seq<Vec<u8>>) -> Seq<Seq<u8>> {
    s.map_values(|m: Vec<u8>| m@)
}

impl View for WorktreeListing {
    type V = WorktreeListingView;

    closed spec fn view(&self) -> WorktreeListingView {
        WorktreeListingView {
            repo: self.repo@,
            stage: match self.stage {
                ListingStage::Listing => ListingStageView::Listing,
                ListingStage::Resolving { raws, trailing, index, infos } => ListingStageView::Resolving {
                    raws: raw_views(raws@),
                    trailing: crate::git::types::opt_error(trailing),
                    index: index as int,
                    infos: worktree_views(infos@),
                },
                ListingStage::Ascending { raws, trailing, index, infos, ancestor, missing } => ListingStageView::Ascending {
                    raws: raw_views(raws@),
                    trailing: crate::git::types::opt_error(trailing),
                    index: index as int,
                    infos: worktree_views(infos@),
                    ancestor: ancestor@,
                    missing: component_views(missing@),
                },
                ListingStage::Rejoining { raws, trailing, index, infos, missing } => ListingStageView::Rejoining {
                    raws: raw_views(raws@),
                    trailing: crate::git::types::opt_error(trailing),
                    index: index as int,
                    infos: worktree_views(infos@),
                    missing: component_views(missing@),
                },
                ListingStage::Fallback { raws, trailing, index, infos } => ListingStageView::Fallback {
                    raws: raw_views(raws@),
                    trailing: crate::git::types::opt_error(trailing),
                    index: index as int,
                    infos: worktree_views(infos@),
                },
            },
        }
    }
}

/// A listing that has just begun.
pub open spec fn listing_begun(repo: Seq<u8>) -> WorktreeListingView {
    WorktreeListingView { repo, stage: ListingStageView::Listing }
}

/// The replies a listing takes in its stage.
pub open spec fn listing_accepts(m: WorktreeListingView, reply: GitReplyView) -> bool {
    match m.stage {
        ListingStageView::Listing => reply is Ran,
        ListingStageView::Resolving { .. } => (reply is Canonical) || (reply is CanonicalizeFailed) || (reply is PathMissing),
        ListingStageView::Ascending { .. } => reply is Exists,
        ListingStageView::Rejoining { .. } | ListingStageView::Fallback { .. } => (reply is Canonical) || (reply is CanonicalizeFailed),
    }
}

/// How a listing goes on from record `index`: each record with a path is
/// resolved in turn; one without a path is an error; after the last record,
/// a malformed field found while reading them is the result.
pub open spec fn listing_from(
    repo: Seq<u8>,
    raws: Seq<RawWorktreeView>,
    trailing: Option<GitErrorView>,
    index: int,
    infos: Seq<WorktreeView>,
) -> StepView<WorktreeListingView, Seq<WorktreeView>> {
    if index >= raws.len() {
        match trailing {
            Some(e) => StepView::Done(Err(e)),
            None => StepView::Done(Ok(infos)),
        }
    } else {
        match raws[index].path {
            None => StepView::Done(Err(missing_path_error())),
            Some(p) => StepView::Ask(
                WorktreeListingView { repo, stage: ListingStageView::Resolving { raws, trailing, index, infos } },
                GitRequestView::ResolveWorktreePath { path: p },
            ),
        }
    }
}

/// One step up from a missing `ancestor` of record `index`'s path: its
/// parent is checked next, its final component joins the missing ones;
/// without a parent or a final component, the path itself is canonicalized
/// once more.
pub open spec fn ascend(
    repo: Seq<u8>,
    raws: Seq<RawWorktreeView>,
    trailing: Option<GitErrorView>,
    index: int,
    infos: Seq<WorktreeView>,
    ancestor: Seq<u8>,
    missing: Seq<Seq<u8>>,
) -> StepView<WorktreeListingView, Seq<WorktreeView>> {
    match split_last(ancestor) {
        None => StepView::Ask(
            WorktreeListingView { repo, stage: ListingStageView::Fallback { raws, trailing, index, infos } },
            GitRequestView::Canonicalize { path: raws[index].path->0 },
        ),
        Some((parent, name)) => StepView::Ask(
            WorktreeListingView {
                repo,
                stage: ListingStageView::Ascending { raws, trailing, index, infos, ancestor: parent, missing: missing.push(name) },
            },
            GitRequestView::CheckExists { path: parent },
        ),
    }
}

/// How a listing proceeds on a reply. A path that is missing is an error,
/// unless the worktree is prunable: then its nearest existing ancestor is
/// made canonical and the missing components are appended again.
pub open spec fn listing_next(m: WorktreeListingView, reply: GitReplyView) -> StepView<WorktreeListingView, Seq<WorktreeView>> {
    match m.stage {
        ListingStageView::Listing => match reply {
            GitReplyView::Ran { outcome } => match checked_output(list_command(m.repo), outcome) {
                Err(e) => StepView::Done(Err(e)),
                Ok(stdout) => listing_from(
                    m.repo,
                    worktree_records(stdout).0,
                    worktree_records(stdout).1,
                    0,
                    Seq::empty(),
                ),
            },
            _ => arbitrary(),
        },
        ListingStageView::Resolving { raws, trailing, index, infos } => match reply {
            GitReplyView::Canonical { path } => listing_from(
                m.repo,
                raws,
                trailing,
                index + 1,
                infos.push(resolved_worktree(raws[index], path)),
            ),
            GitReplyView::CanonicalizeFailed { path, message } => StepView::Done(
                Err(GitErrorView::Canonicalize { path, source: message }),
            ),
            GitReplyView::PathMissing { message } => if raws[index].is_prunable {
                StepView::Ask(
                    WorktreeListingView {
                        repo: m.repo,
                        stage: ListingStageView::Ascending {
                            raws,
                            trailing,
                            index,
                            infos,
                            ancestor: raws[index].path->0,
                            missing: Seq::empty(),
                        },
                    },
                    GitRequestView::CheckExists { path: raws[index].path->0 },
                )
            } else {
                StepView::Done(Err(GitErrorView::Canonicalize { path: raws[index].path->0, source: message }))
            },
            _ => arbitrary(),
        },
        ListingStageView::Ascending { raws, trailing, index, infos, ancestor, missing } => match reply {
            GitReplyView::Exists { exists } => if exists {
                StepView::Ask(
                    WorktreeListingView { repo: m.repo, stage: ListingStageView::Rejoining { raws, trailing, index, infos, missing } },
                    GitRequestView::Canonicalize { path: ancestor },
                )
            } else {
                ascend(m.repo, raws, trailing, index, infos, ancestor, missing)
            },
            _ => arbitrary(),
        },
        ListingStageView::Rejoining { raws, trailing, index, infos, missing } => match reply {
            GitReplyView::Canonical { path } => listing_from(
                m.repo,
                raws,
                trailing,
                index + 1,
                infos.push(resolved_worktree(raws[index], rejoined(path, missing))),
            ),
            GitReplyView::CanonicalizeFailed { path, message } => StepView::Done(
                Err(GitErrorView::Canonicalize { path, source: message }),
            ),
            _ => arbitrary(),
        },
        ListingStageView::Fallback { raws, trailing, index, infos } => match reply {
            GitReplyView::Canonical { path } => listing_from(
                m.repo,
                raws,
                trailing,
                index + 1,
                infos.push(resolved_worktree(raws[index], path)),
            ),
            GitReplyView::CanonicalizeFailed { path, message } => StepView::Done(
                Err(GitErrorView::Canonicalize { path, source: message }),
            ),
            _ => arbitrary(),
        },
    }
}

impl WorktreeListing {
    #[verifier::type_invariant]
    closed spec fn resolving_in_range(&self) -> bool {
        match self.stage {
            ListingStage::Resolving { raws, index, .. } | ListingStage::Ascending { raws, index, .. }
            | ListingStage::Rejoining { raws, index, .. } | ListingStage::Fallback { raws, index, .. } => index < raws@.len()
                && raws@[index as int].path is Some,
            ListingStage::Listing => true,
        }
    }

    /// Begins listing the worktrees of `repo`.
    pub fn start(repo: &Vec<u8>) -> (r: (WorktreeListing, GitRequest))
        ensures
            r.0@ == listing_begun(repo@),
            r.1@ == run_request(list_command(repo@)),
    {
        (WorktreeListing { repo: repo.clone(), stage: ListingStage::Listing }, GitRequest::Run { command: make_list_command(repo) })
    }

    fn advance(
        repo: Vec<u8>,
        raws: Vec<RawWorktree>,
        trailing: Option<GitWorkspaceError>,
        index: usize,
        infos: Vec<WorktreeInfo>,
    ) -> (r: Step<WorktreeListing, Vec<WorktreeInfo>>)
        requires
            index <= raws@.len(),
        ensures
            r@ == listing_from(repo@, raw_views(raws@), crate::git::types::opt_error(trailing), index as int, worktree_views(infos@)),
    {
        if index >= raws.len() {
            return match trailing {
                Some(e) => Step::Done(Err(e)),
                None => {
                    proof {
                        assert(infos.deep_view() =~= worktree_views(infos@));
                    }
                    Step::Done(Ok(infos))
                },
            };
        }
        let path = match &raws[index].path {
            None => {
                return Step::Done(Err(GitWorkspaceError::InvalidWorktreeRecord { record: text("missing worktree path") }));
            },
            Some(p) => p.clone(),
        };
        let m = WorktreeListing { repo, stage: ListingStage::Resolving { raws, trailing, index, infos } };
        Step::Ask(m, GitRequest::ResolveWorktreePath { path })
    }

    /// Adds record `index` at `path` and goes on with the next one.
    fn resolved(
        repo: Vec<u8>,
        raws: Vec<RawWorktree>,
        trailing: Option<GitWorkspaceError>,
        index: usize,
        infos: Vec<WorktreeInfo>,
        path: Vec<u8>,
    ) -> (r: Step<WorktreeListing, Vec<WorktreeInfo>>)
        requires
            index < raws@.len(),
        ensures
            r@ == listing_from(
                repo@,
                raw_views(raws@),
                crate::git::types::opt_error(trailing),
                index + 1,
                worktree_views(infos@).push(resolved_worktree(raw_views(raws@)[index as int], path@)),
            ),
    {
        let mut infos = infos;
        let count = raws.len();
        assert(index < count);
        let raw = &raws[index];
        let info = WorktreeInfo {
            path,
            head: crate::git::types::clone_opt_text(&raw.head),
            branch: crate::git::types::clone_opt_text(&raw.branch),
            is_bare: raw.is_bare,
            is_detached: raw.is_detached,
            is_locked: raw.is_locked,
            locked_reason: crate::git::types::clone_opt_text(&raw.locked_reason),
            is_prunable: raw.is_prunable,
            prunable_reason: crate::git::types::clone_opt_text(&raw.prunable_reason),
        };
        let ghost before = worktree_views(infos@);
        infos.push(info);
        proof {
            assert(worktree_views(infos@) =~= before.push(info@));
        }
        Self::advance(repo, raws, trailing, index + 1, infos)
    }

    fn up(
        repo: Vec<u8>,
        raws: Vec<RawWorktree>,
        trailing: Option<GitWorkspaceError>,
        index: usize,
        infos: Vec<WorktreeInfo>,
        ancestor: Vec<u8>,
        missing: Vec<Vec<u8>>,
    ) -> (r: Step<WorktreeListing, Vec<WorktreeInfo>>)
        requires
            index < raws@.len(),
            raws@[index as int].path is Some,
        ensures
            r@ == ascend(
                repo@,
                raw_views(raws@),
                crate::git::types::opt_error(trailing),
                index as int,
                worktree_views(infos@),
                ancestor@,
                component_views(missing@),
            ),
    {
        match split_last_component(ancestor.as_slice()) {
            None => {
                let path = match &raws[index].path {
                    Some(p) => p.clone(),
                    None => {
                        return vstd::pervasive::unreached();
                    },
                };
                Step::Ask(
                    WorktreeListing { repo, stage: ListingStage::Fallback { raws, trailing, index, infos } },
                    GitRequest::Canonicalize { path },
                )
            },
            Some((parent, name)) => {
                let mut missing = missing;
                let ghost before = component_views(missing@);
                missing.push(name);
                proof {
                    assert(component_views(missing@) =~= before.push(name@));
                }
                let q = GitRequest::CheckExists { path: parent.clone() };
                Step::Ask(WorktreeListing { repo, stage: ListingStage::Ascending { raws, trailing, index, infos, ancestor: parent, missing } }, q)
            },
        }
    }

    /// Takes the reply to the pending request.
    #[verifier::rlimit(40)]
    pub fn step(self, reply: GitReply) -> (r: Step<WorktreeListing, Vec<WorktreeInfo>>)
        requires
            listing_accepts(self@, reply@),
        ensures
            r@ == listing_next(self@, reply@),
    {
        proof {
            use_type_invariant(&self);
        }
        let WorktreeListing { repo, stage } = self;
        match stage {
            ListingStage::Listing => {
                let outcome = match reply {
                    GitReply::Ran { outcome } => outcome,
                    _ => {
                        return vstd::pervasive::unreached();
                    },
                };
                let command = make_list_command(&repo);
                match checked_stdout(&command, outcome) {
                    Err(e) => Step::Done(Err(e)),
                    Ok(stdout) => {
                        let (raws, trailing) = parse_worktree_records(stdout.as_slice());
                        let infos: Vec<WorktreeInfo> = Vec::new();
                        proof {
                            assert(worktree_views(infos@) =~= Seq::<WorktreeView>::empty());
                        }
                        Self::advance(repo, raws, trailing, 0, infos)
                    },
                }
            },
            ListingStage::Resolving { raws, trailing, index, infos } => match reply {
                GitReply::Canonical { path } => Self::resolved(repo, raws, trailing, index, infos, path),
                GitReply::CanonicalizeFailed { path, message } => Step::Done(
                    Err(GitWorkspaceError::Canonicalize { path, source: message }),
                ),
                GitReply::PathMissing { message } => {
                    let path = match &raws[index].path {
                        Some(p) => p.clone(),
                        None => {
                            return vstd::pervasive::unreached();
                        },
                    };
                    if raws[index].is_prunable {
                        let q = GitRequest::CheckExists { path: path.clone() };
                        let missing: Vec<Vec<u8>> = Vec::new();
                        proof {
                            assert(component_views(missing@) =~= Seq::<Seq<u8>>::empty());
                        }
                        Step::Ask(
                            WorktreeListing { repo, stage: ListingStage::Ascending { raws, trailing, index, infos, ancestor: path, missing } },
                            q,
                        )
                    } else {
                        Step::Done(Err(GitWorkspaceError::Canonicalize { path, source: message }))
                    }
                },
                _ => vstd::pervasive::unreached(),
            },
            ListingStage::Ascending { raws, trailing, index, infos, ancestor, missing } => match reply {
                GitReply::Exists { exists } => if exists {
                    let q = GitRequest::Canonicalize { path: ancestor };
                    Step::Ask(WorktreeListing { repo, stage: ListingStage::Rejoining { raws, trailing, index, infos, missing } }, q)
                } else {
                    Self::up(repo, raws, trailing, index, infos, ancestor, missing)
                },
                _ => vstd::pervasive::unreached(),
            },
            ListingStage::Rejoining { raws, trailing, index, infos, missing } => match reply {
                GitReply::Canonical { path } => {
                    let full = rejoin(path, &missing);
                    Self::resolved(repo, raws, trailing, index, infos, full)
                },
                GitReply::CanonicalizeFailed { path, message } => Step::Done(
                    Err(GitWorkspaceError::Canonicalize { path, source: message }),
                ),
                _ => vstd::pervasive::unreached(),
            },
            ListingStage::Fallback { raws, trailing, index, infos } => match reply {
                GitReply::Canonical { path } => Self::resolved(repo, raws, trailing, index, infos, path),
                GitReply::CanonicalizeFailed { path, message } => Step::Done(
                    Err(GitWorkspaceError::Canonicalize { path, source: message }),
                ),
                _ => vstd::pervasive::unreached(),
            },
        }
    }
}

/// The listed worktrees registered at `path`, in listing order.
pub open spec fn path_matches(ws: Seq<WorktreeView>, path: Seq<u8>) -> Seq<WorktreeView>
    decreases ws.len(),
{
    if ws.len() == 0 {
        Seq::empty()
    } else {
        let earlier = path_matches(ws.drop_last(), path);
        if ws.last().path == path {
            earlier.push(ws.last())
        } else {
            earlier
        }
    }
}

/// The one worktree registered at `path`: none is an error, and so is more than one.
pub open spec fn registered_worktree(ws: Seq<WorktreeView>, path: Seq<u8>) -> Result<WorktreeView, GitErrorView> {
    let ms = path_matches(ws, path);
    if ms.len() == 0 {
        Err(GitErrorView::WorktreeNotFound { path })
    } else if ms.len() > 1 {
        Err(GitErrorView::AmbiguousWorktree { path })
    } else {
        Ok(ms[0])
    }
}

/// Finds the one worktree registered at `path`, by its position in the list.
pub fn find_registered(ws: &Vec<WorktreeInfo>, path: &Vec<u8>) -> (r: Result<usize, GitWorkspaceError>)
    ensures
        match (r, registered_worktree(worktree_views(ws@), path@)) {
            (Ok(i), Ok(w)) => i < ws@.len() && ws@[i as int]@ == w,
            (Err(e), Err(v)) => e@ == v,
            _ => false,
        },
{
    let ghost views = worktree_views(ws@);
    let mut first: usize = 0;
    let mut count: usize = 0;
    let mut i: usize = 0;
    while i < ws.len()
        invariant
            0 <= i <= ws@.len(),
            views == worktree_views(ws@),
            count <= i,
            count == path_matches(views.take(i as int), path@).len(),
            count > 0 ==> first < i && ws@[first as int]@ == path_matches(views.take(i as int), path@)[0],
        decreases ws@.len() - i,
    {
        proof {
            assert(views.take(i + 1).drop_last() =~= views.take(i as int));
            assert(views.take(i + 1).last() == ws@[i as int]@);
        }
        if crate::bytes::bytes_eq(ws[i].path.as_slice(), path.as_slice()) {
            if count == 0 {
                first = i;
            }
            count = count + 1;
        }
        i = i + 1;
    }
    proof {
        assert(views.take(ws@.len() as int) =~= views);
    }
    if count == 0 {
        Err(GitWorkspaceError::WorktreeNotFound { path: path.clone() })
    } else if count > 1 {
        Err(GitWorkspaceError::AmbiguousWorktree { path: path.clone() })
    } else {
        Ok(first)
    }
}

} // verus!
