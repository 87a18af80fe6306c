//! Cloning a repository into a directory that this operation creates
//! itself, and removing that directory again when the clone or its
//! validation fails. A target that already exists is never touched.
use vstd::prelude::*;

use crate::git::command::{
    arg_views, checked_output, checked_stdout, command_of, git_command, run_request, text,
    text_arg, GitArgView, GitCommand, GitCommandView, GitReply, GitReplyView, GitRequest,
    GitRequestView, Step, StepView,
};
use crate::git::naming::{
    is_single_component, join_component, join_path, repository_name_from_url, repository_name_of,
    text_path, validate_clone_directory_name,
};
use crate::git::repository::{validation_accepts, validation_begun, validation_next, Validation, ValidationView};
use crate::git::types::{GitErrorView, GitWorkspaceError, ValidatedRepository, ValidatedView};

verus! {

/// `git clone -- <url> .`, run in the target directory.
pub open spec fn clone_command(target: Seq<u8>, url: Seq<char>) -> GitCommandView {
    command_of(
        target,
        "clone repository"@,
        seq![GitArgView::Text("clone"@), GitArgView::Text("--"@), GitArgView::Text(url), GitArgView::Text("."@)],
    )
}

fn make_clone_command(target: &Vec<u8>, url: &str) -> (c: GitCommand)
    ensures
        c@ == clone_command(target@, url@),
{
    let args = vec![text_arg("clone"), text_arg("--"), text_arg(url), text_arg(".")];
    assert(arg_views(args@) =~= seq![GitArgView::Text("clone"@), GitArgView::Text("--"@), GitArgView::Text(url@), GitArgView::Text("."@)]);
    git_command(target, "clone repository", args)
}

/// Where a clone stands.
pub enum CloneStage {
    /// Waiting to learn whether the target exists.
    Exists,
    /// Waiting for the target directory to be created.
    Creating,
    /// Waiting for `git clone`.
    Cloning,
    /// Validating the cloned repository.
    Validating { validation: Validation },
    /// Removing the target after a failure.
    CleaningUp { clone_error: GitWorkspaceError },
}

/// Model of a clone's stage.
pub enum CloneStageView {
    Exists,
    Creating,
    Cloning,
    Validating { validation: ValidationView },
    CleaningUp { clone_error: GitErrorView },
}

/// A clone in progress.
pub struct CloneRepository {
    url: String,
    target: Vec<u8>,
    stage: CloneStage,
}

/// Model of a clone.
pub struct CloneView {
    pub url: Seq<char>,
    pub target: Seq<u8>,
    pub stage: CloneStageView,
}

impl View for CloneRepository {
    type V = CloneView;

    closed spec fn view(&self) -> CloneView {
        CloneView {
            url: self.url@,
            target: self.target@,
            stage: match self.stage {
                CloneStage::Exists => CloneStageView::Exists,
                CloneStage::Creating => CloneStageView::Creating,
                CloneStage::Cloning => CloneStageView::Cloning,
                CloneStage::Validating { validation } => CloneStageView::Validating { validation: validation@ },
                CloneStage::CleaningUp { clone_error } => CloneStageView::CleaningUp { clone_error: clone_error@ },
            },
        }
    }
}

/// A clone into `target` that has just begun.
pub open spec fn clone_begun(url: Seq<char>, target: Seq<u8>) -> CloneView {
    CloneView { url, target, stage: CloneStageView::Exists }
}

/// The replies a clone takes in its stage.
pub open spec fn clone_accepts(m: CloneView, reply: GitReplyView) -> bool {
    match m.stage {
        CloneStageView::Exists => reply is Exists,
        CloneStageView::Creating | CloneStageView::CleaningUp { .. } => (reply is DirectoryDone) || (reply is DirectoryFailed),
        CloneStageView::Cloning => reply is Ran,
        CloneStageView::Validating { validation } => validation_accepts(validation, reply),
    }
}

/// The clone in another stage, asking for `q`.
pub open spec fn clone_asks(m: CloneView, stage: CloneStageView, q: GitRequestView) -> StepView<CloneView, ValidatedView> {
    StepView::Ask(CloneView { stage, ..m }, q)
}

/// How a clone proceeds on a reply: an existing target is an error; the
/// target directory is created, Git clones into it, and the result is
/// validated as a repository. When the clone or the validation fails, the
/// created directory is removed and that failure reported; when the removal
/// fails too, both are.
pub open spec fn clone_next(m: CloneView, reply: GitReplyView) -> StepView<CloneView, ValidatedView> {
    let cleanup = GitRequestView::RemoveDirectoryTree { path: m.target };
    match m.stage {
        CloneStageView::Exists => match reply {
            GitReplyView::Exists { exists } => if exists {
                StepView::Done(Err(GitErrorView::TargetExists { path: m.target }))
            } else {
                clone_asks(m, CloneStageView::Creating, GitRequestView::CreateDirectory { path: m.target })
            },
            _ => arbitrary(),
        },
        CloneStageView::Creating => match reply {
            GitReplyView::DirectoryDone => clone_asks(m, CloneStageView::Cloning, run_request(clone_command(m.target, m.url))),
            GitReplyView::DirectoryFailed { message } => StepView::Done(Err(GitErrorView::CreateTarget { path: m.target, source: message })),
            _ => arbitrary(),
        },
        CloneStageView::Cloning => match reply {
            GitReplyView::Ran { outcome } => match checked_output(clone_command(m.target, m.url), outcome) {
                Err(e) => clone_asks(m, CloneStageView::CleaningUp { clone_error: e }, cleanup),
                Ok(_) => clone_asks(
                    m,
                    CloneStageView::Validating { validation: validation_begun(m.target) },
                    GitRequestView::Canonicalize { path: m.target },
                ),
            },
            _ => arbitrary(),
        },
        CloneStageView::Validating { validation } => match validation_next(validation, reply) {
            StepView::Ask(v, q) => clone_asks(m, CloneStageView::Validating { validation: v }, q),
            StepView::Done(Ok(repository)) => StepView::Done(Ok(repository)),
            StepView::Done(Err(e)) => clone_asks(m, CloneStageView::CleaningUp { clone_error: e }, cleanup),
        },
        CloneStageView::CleaningUp { clone_error } => match reply {
            GitReplyView::DirectoryDone => StepView::Done(Err(clone_error)),
            GitReplyView::DirectoryFailed { message } => StepView::Done(Err(GitErrorView::CleanupFailed {
                path: m.target,
                cleanup_source: message,
                clone_error: Box::new(clone_error),
            })),
            _ => arbitrary(),
        },
    }
}

/// The model of a clone's start: the clone and its first request, or why it cannot begin.
pub open spec fn start_view(r: Result<(CloneRepository, GitRequest), GitWorkspaceError>) -> Result<(CloneView, GitRequestView), GitErrorView> {
    match r {
        Ok((m, q)) => Ok((m@, q@)),
        Err(e) => Err(e@),
    }
}

/// The start of a clone into `target`.
pub open spec fn clone_start_of(url: Seq<char>, target: Seq<u8>) -> Result<(CloneView, GitRequestView), GitErrorView> {
    Ok((clone_begun(url, target), GitRequestView::CheckExists { path: target }))
}

/// The target of `clone_repository`: the given path, else a directory named
/// after the repository in the current directory.
pub open spec fn clone_target_of(url: Seq<char>, target: Option<Seq<u8>>) -> Result<Seq<u8>, GitErrorView> {
    match target {
        Some(t) => Ok(t),
        None => match repository_name_of(url) {
            Ok(name) => Ok(vstd::utf8::encode_utf8(name)),
            Err(e) => Err(e),
        },
    }
}

/// The target of `clone_repository_into`: a directory in `parent`, named as
/// given or after the repository; the name must be one normal component.
pub open spec fn clone_into_target_of(url: Seq<char>, parent: Seq<u8>, directory_name: Option<Seq<char>>) -> Result<Seq<u8>, GitErrorView> {
    let name = match directory_name {
        Some(n) => Ok(n),
        None => repository_name_of(url),
    };
    match name {
        Err(e) => Err(e),
        Ok(n) => if is_single_component(n) {
            Ok(join_path(parent, vstd::utf8::encode_utf8(n)))
        } else {
            Err(GitErrorView::InvalidCloneDirectoryName { name: n })
        },
    }
}

/// The model of an optional path.
pub open spec fn opt_path(p: Option<Vec<u8>>) -> Option<Seq<u8>> {
    match p {
        Some(v) => Some(v@),
        None => None,
    }
}

/// The model of an optional text argument.
pub open spec fn opt_str(s: Option<&str>) -> Option<Seq<char>> {
    match s {
        Some(v) => Some(v@),
        None => None,
    }
}

impl CloneRepository {
    /// Begins cloning `url` into `target`.
    pub fn start(url: &str, target: &Vec<u8>) -> (r: (CloneRepository, GitRequest))
        ensures
            r.0@ == clone_begun(url@, target@),
            r.1@ == (GitRequestView::CheckExists { path: target@ }),
    {
        (CloneRepository { url: text(url), target: target.clone(), stage: CloneStage::Exists }, GitRequest::CheckExists { path: target.clone() })
    }

    /// Begins cloning `url` into `target`, or, without a target, into a
    /// directory named after the repository in the current directory.
    pub fn clone_repository(url: &str, target: Option<Vec<u8>>) -> (r: Result<(CloneRepository, GitRequest), GitWorkspaceError>)
        ensures
            start_view(r) == (match clone_target_of(url@, opt_path(target)) {
                Ok(t) => clone_start_of(url@, t),
                Err(e) => Err(e),
            }),
    {
        let path = match target {
            Some(t) => t,
            None => match repository_name_from_url(url) {
                Ok(name) => text_path(name.as_str()),
                Err(e) => {
                    return Err(e);
                },
            },
        };
        Ok(Self::start(url, &path))
    }

    /// Begins cloning `url` into a directory in `parent`, named
    /// `directory_name` or after the repository.
    pub fn clone_repository_into(url: &str, parent: &Vec<u8>, directory_name: Option<&str>) -> (r: Result<(CloneRepository, GitRequest), GitWorkspaceError>)
        ensures
            start_view(r) == (match clone_into_target_of(url@, parent@, opt_str(directory_name)) {
                Ok(t) => clone_start_of(url@, t),
                Err(e) => Err(e),
            }),
    {
        let name = match directory_name {
            Some(n) => text(n),
            None => match repository_name_from_url(url) {
                Ok(n) => n,
                Err(e) => {
                    return Err(e);
                },
            },
        };
        match validate_clone_directory_name(name.as_str()) {
            Err(e) => Err(e),
            Ok(()) => {
                let target = join_component(parent, name.as_str());
                Ok(Self::start(url, &target))
            },
        }
    }

    /// Takes the reply to the pending request.
    pub fn step(self, reply: GitReply) -> (r: Step<CloneRepository, ValidatedRepository>)
        requires
            clone_accepts(self@, reply@),
        ensures
            r@ == clone_next(self@, reply@),
    {
        let CloneRepository { url, target, stage } = self;
        match stage {
            CloneStage::Exists => match reply {
                GitReply::Exists { exists } => if exists {
                    Step::Done(Err(GitWorkspaceError::TargetExists { path: target }))
                } else {
                    let q = GitRequest::CreateDirectory { path: target.clone() };
                    Step::Ask(CloneRepository { url, target, stage: CloneStage::Creating }, q)
                },
                _ => vstd::pervasive::unreached(),
            },
            CloneStage::Creating => match reply {
                GitReply::DirectoryDone => {
                    let q = GitRequest::Run { command: make_clone_command(&target, url.as_str()) };
                    Step::Ask(CloneRepository { url, target, stage: CloneStage::Cloning }, q)
                },
                GitReply::DirectoryFailed { message } => Step::Done(Err(GitWorkspaceError::CreateTarget { path: target, source: message })),
                _ => vstd::pervasive::unreached(),
            },
            CloneStage::Cloning => {
                let outcome = match reply {
                    GitReply::Ran { outcome } => outcome,
                    _ => {
                        return vstd::pervasive::unreached();
                    },
                };
                let command = make_clone_command(&target, url.as_str());
                match checked_stdout(&command, outcome) {
                    Err(e) => {
                        let q = GitRequest::RemoveDirectoryTree { path: target.clone() };
                        Step::Ask(CloneRepository { url, target, stage: CloneStage::CleaningUp { clone_error: e } }, q)
                    },
                    Ok(_) => {
                        let (validation, q) = Validation::start(&target);
                        Step::Ask(CloneRepository { url, target, stage: CloneStage::Validating { validation } }, q)
                    },
                }
            },
            CloneStage::Validating { validation } => match validation.step(reply) {
                Step::Ask(v, q) => Step::Ask(CloneRepository { url, target, stage: CloneStage::Validating { validation: v } }, q),
                Step::Done(Ok(repository)) => Step::Done(Ok(repository)),
                Step::Done(Err(e)) => {
                    let q = GitRequest::RemoveDirectoryTree { path: target.clone() };
                    Step::Ask(CloneRepository { url, target, stage: CloneStage::CleaningUp { clone_error: e } }, q)
                },
            },
            CloneStage::CleaningUp { clone_error } => match reply {
                GitReply::DirectoryDone => Step::Done(Err(clone_error)),
                GitReply::DirectoryFailed { message } => Step::Done(Err(GitWorkspaceError::CleanupFailed {
                    path: target,
                    cleanup_source: message,
                    clone_error: Box::new(clone_error),
                })),
                _ => vstd::pervasive::unreached(),
            },
        }
    }
}

} // verus!
