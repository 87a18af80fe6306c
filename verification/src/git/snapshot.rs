//! Reading what a branch ref is right now: a symbolic ref, a direct ref at
//! some commit, or absent. The ref is checked for being symbolic both before
//! and after its direct OID is read, so a ref that turns symbolic in between
//! is reported as symbolic.
use vstd::prelude::*;

use crate::git::command::{
    arg_views, command_of, git_command, run_request, text_arg, GitArgView, GitCommand,
    GitCommandView, GitOutcome, GitReply, GitReplyView, GitRequest, GitRequestView, Step,
    StepView,
};
use crate::git::decide::{
    direct_oid_from, direct_oid_in, read_text_output, symbolic_target, symbolic_target_of,
    text_output_of,
};
use crate::git::types::{opt_text, GitErrorView, GitWorkspaceError};
use crate::text::lines;

verus! {

/// What a ref was when read.
#[derive(Clone, Debug, PartialEq, Eq)]
pub struct DirectRefSnapshot {
    /// The commit a direct ref points at; `None` for a symbolic or absent ref.
    pub direct_oid: Option<String>,
    /// The target of a symbolic ref.
    pub symbolic_target: Option<String>,
}

/// Model of a ref snapshot.
pub struct SnapshotView {
    pub direct_oid: Option<Seq<char>>,
    pub symbolic_target: Option<Seq<char>>,
}

impl View for DirectRefSnapshot {
    type V = SnapshotView;

    open spec fn view(&self) -> SnapshotView {
        SnapshotView { direct_oid: opt_text(self.direct_oid), symbolic_target: opt_text(self.symbolic_target) }
    }
}

impl DeepView for DirectRefSnapshot {
    type V = SnapshotView;

    open spec fn deep_view(&self) -> SnapshotView {
        self@
    }
}

/// The ref is a direct ref at `oid`.
pub open spec fn snapshot_at(s: SnapshotView, oid: Seq<char>) -> bool {
    s.direct_oid == Some(oid) && s.symbolic_target is None
}

/// Whether a snapshot shows the direct ref at `oid`.
pub fn is_snapshot_at(s: &DirectRefSnapshot, oid: &str) -> (r: bool)
    ensures
        r == snapshot_at(s@, oid@),
{
    if s.symbolic_target.is_some() {
        return false;
    }
    match &s.direct_oid {
        Some(d) => crate::text::text_eq(d.as_str(), oid),
        None => false,
    }
}

/// `git symbolic-ref --quiet <ref>`.
pub open spec fn symbolic_command(repo: Seq<u8>, full_ref: Seq<char>) -> GitCommandView {
    command_of(
        repo,
        "inspect branch symbolic ref"@,
        seq![GitArgView::Text("symbolic-ref"@), GitArgView::Text("--quiet"@), GitArgView::Text(full_ref)],
    )
}

/// `git for-each-ref --format=%(refname)%09%(objectname) <ref>`.
pub open spec fn records_command(repo: Seq<u8>, full_ref: Seq<char>) -> GitCommandView {
    command_of(
        repo,
        "read direct branch ref"@,
        seq![
            GitArgView::Text("for-each-ref"@),
            GitArgView::Text("--format=%(refname)%09%(objectname)"@),
            GitArgView::Text(full_ref),
        ],
    )
}

/// Builds the symbolic-ref command.
pub fn make_symbolic_command(repo: &Vec<u8>, full_ref: &str) -> (c: GitCommand)
    ensures
        c@ == symbolic_command(repo@, full_ref@),
{
    let args = vec![text_arg("symbolic-ref"), text_arg("--quiet"), text_arg(full_ref)];
    proof {
        assert(arg_views(args@) =~= seq![GitArgView::Text("symbolic-ref"@), GitArgView::Text("--quiet"@), GitArgView::Text(full_ref@)]);
    }
    git_command(repo, "inspect branch symbolic ref", args)
}

/// Builds the direct-record command.
fn make_records_command(repo: &Vec<u8>, full_ref: &str) -> (c: GitCommand)
    ensures
        c@ == records_command(repo@, full_ref@),
{
    let args = vec![
        text_arg("for-each-ref"),
        text_arg("--format=%(refname)%09%(objectname)"),
        text_arg(full_ref),
    ];
    proof {
        assert(arg_views(args@) =~= seq![
            GitArgView::Text("for-each-ref"@),
            GitArgView::Text("--format=%(refname)%09%(objectname)"@),
            GitArgView::Text(full_ref@),
        ]);
    }
    git_command(repo, "read direct branch ref", args)
}

/// Where a ref read stands.
pub enum SnapshotStage {
    /// Waiting for the first symbolic-ref check.
    FirstSymbolic,
    /// Waiting for the direct records.
    Records,
    /// Waiting for the second symbolic-ref check, with the OID read.
    SecondSymbolic { direct_oid: Option<String> },
}

/// Model of a ref read's stage.
pub enum SnapshotStageView {
    FirstSymbolic,
    Records,
    SecondSymbolic { direct_oid: Option<Seq<char>> },
}

/// A ref read in progress.
pub struct RefSnapshot {
    repo: Vec<u8>,
    full_ref: String,
    stage: SnapshotStage,
}

/// Model of a ref read.
pub struct RefSnapshotView {
    pub repo: Seq<u8>,
    pub full_ref: Seq<char>,
    pub stage: SnapshotStageView,
}

impl View for RefSnapshot {
    type V = RefSnapshotView;

    closed spec fn view(&self) -> RefSnapshotView {
        RefSnapshotView {
            repo: self.repo@,
            full_ref: self.full_ref@,
            stage: match self.stage {
                SnapshotStage::FirstSymbolic => SnapshotStageView::FirstSymbolic,
                SnapshotStage::Records => SnapshotStageView::Records,
                SnapshotStage::SecondSymbolic { direct_oid } => SnapshotStageView::SecondSymbolic {
                    direct_oid: opt_text(direct_oid),
                },
            },
        }
    }
}

/// A ref read that has just begun.
pub open spec fn snapshot_begun(repo: Seq<u8>, full_ref: Seq<char>) -> RefSnapshotView {
    RefSnapshotView { repo, full_ref, stage: SnapshotStageView::FirstSymbolic }
}

/// The request a ref read is waiting on.
pub open spec fn snapshot_request(m: RefSnapshotView) -> GitRequestView {
    match m.stage {
        SnapshotStageView::Records => run_request(records_command(m.repo, m.full_ref)),
        _ => run_request(symbolic_command(m.repo, m.full_ref)),
    }
}

/// How a ref read proceeds on the reply to its request.
pub open spec fn snapshot_next(m: RefSnapshotView, reply: GitReplyView) -> StepView<RefSnapshotView, SnapshotView> {
    let symbolic = symbolic_command(m.repo, m.full_ref);
    match reply {
        GitReplyView::Ran { outcome } => match m.stage {
            SnapshotStageView::FirstSymbolic => match symbolic_target_of(symbolic, outcome) {
                Err(e) => StepView::Done(Err(e)),
                Ok(Some(t)) => StepView::Done(Ok(SnapshotView { direct_oid: None, symbolic_target: Some(t) })),
                Ok(None) => {
                    let next = RefSnapshotView { stage: SnapshotStageView::Records, ..m };
                    StepView::Ask(next, snapshot_request(next))
                },
            },
            SnapshotStageView::Records => match text_output_of(records_command(m.repo, m.full_ref), outcome) {
                Err(e) => StepView::Done(Err(e)),
                Ok(t) => match direct_oid_from(lines(t), m.full_ref, None) {
                    Err(e) => StepView::Done(Err(e)),
                    Ok(direct_oid) => {
                        let next = RefSnapshotView { stage: SnapshotStageView::SecondSymbolic { direct_oid }, ..m };
                        StepView::Ask(next, snapshot_request(next))
                    },
                },
            },
            SnapshotStageView::SecondSymbolic { direct_oid } => match symbolic_target_of(symbolic, outcome) {
                Err(e) => StepView::Done(Err(e)),
                Ok(Some(t)) => StepView::Done(Ok(SnapshotView { direct_oid: None, symbolic_target: Some(t) })),
                Ok(None) => StepView::Done(Ok(SnapshotView { direct_oid, symbolic_target: None })),
            },
        },
        _ => arbitrary(),
    }
}

impl RefSnapshot {
    /// Begins reading `full_ref` in `repo`.
    pub fn start(repo: &Vec<u8>, full_ref: &str) -> (r: (RefSnapshot, GitRequest))
        ensures
            r.0@ == snapshot_begun(repo@, full_ref@),
            r.1@ == snapshot_request(r.0@),
    {
        let m = RefSnapshot { repo: repo.clone(), full_ref: crate::git::command::text(full_ref), stage: SnapshotStage::FirstSymbolic };
        let q = GitRequest::Run { command: make_symbolic_command(repo, full_ref) };
        (m, q)
    }

    /// Takes the reply to the pending request.
    pub fn step(self, reply: GitReply) -> (r: Step<RefSnapshot, DirectRefSnapshot>)
        requires
            reply@ is Ran,
        ensures
            r@ == snapshot_next(self@, reply@),
    {
        let outcome = match reply {
            GitReply::Ran { outcome } => outcome,
            _ => {
                return vstd::pervasive::unreached();
            },
        };
        let RefSnapshot { repo, full_ref, stage } = self;
        match stage {
            SnapshotStage::FirstSymbolic => {
                let symbolic = make_symbolic_command(&repo, full_ref.as_str());
                match symbolic_target(&symbolic, outcome) {
                    Err(e) => Step::Done(Err(e)),
                    Ok(Some(t)) => Step::Done(Ok(DirectRefSnapshot { direct_oid: None, symbolic_target: Some(t) })),
                    Ok(None) => {
                        let q = GitRequest::Run { command: make_records_command(&repo, full_ref.as_str()) };
                        Step::Ask(RefSnapshot { repo, full_ref, stage: SnapshotStage::Records }, q)
                    },
                }
            },
            SnapshotStage::Records => {
                let records = make_records_command(&repo, full_ref.as_str());
                match read_text_output(&records, outcome) {
                    Err(e) => Step::Done(Err(e)),
                    Ok(t) => match direct_oid_in(t.as_str(), full_ref.as_str()) {
                        Err(e) => Step::Done(Err(e)),
                        Ok(direct_oid) => {
                            let q = GitRequest::Run { command: make_symbolic_command(&repo, full_ref.as_str()) };
                            Step::Ask(RefSnapshot { repo, full_ref, stage: SnapshotStage::SecondSymbolic { direct_oid } }, q)
                        },
                    },
                }
            },
            SnapshotStage::SecondSymbolic { direct_oid } => {
                let symbolic = make_symbolic_command(&repo, full_ref.as_str());
                match symbolic_target(&symbolic, outcome) {
                    Err(e) => Step::Done(Err(e)),
                    Ok(Some(t)) => Step::Done(Ok(DirectRefSnapshot { direct_oid: None, symbolic_target: Some(t) })),
                    Ok(None) => Step::Done(Ok(DirectRefSnapshot { direct_oid, symbolic_target: None })),
                }
            },
        }
    }
}

} // verus!
