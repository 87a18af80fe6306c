//! What the library concludes from one Git command's outcome: exit-status
//! verdicts, symbolic and direct ref reads, a remote's default branch, the
//! configured remotes, and a branch's upstream.
use vstd::prelude::*;

use crate::git::command::{
    checked_output, checked_stdout, command_failed, text, command_failed_error, command_io,
    command_io_error, decode_stdout, decoded_text, GitCommand, GitCommandView, GitOutcome,
    GitOutcomeView,
};
use crate::git::refs::{parse_remote_names, remote_names};
use crate::git::types::{
    opt_text, opt_text_result, result_view, texts_result, texts_view, text_result, BranchRef,
    BranchRefView, GitErrorView, GitWorkspaceError,
};
use crate::text::{
    chars_eq, chars_string, concat_text, find_char, holds, lemma_split_once_at, lines,
    slice_string, split_lines, split_once, starts_with, str_chars, strip_prefix,
};

verus! {

/// The outcome is an exit with status 0.
pub open spec fn exited_ok(outcome: GitOutcomeView) -> bool {
    outcome matches GitOutcomeView::Exited { code, .. } && code == Some(0i32)
}

/// Whether a command that may fail exited with status 0.
pub fn exited_successfully(outcome: &GitOutcome) -> (r: bool)
    ensures
        r == exited_ok(outcome@),
{
    match outcome {
        GitOutcome::Exited { code, .. } => match code {
            Some(0i32) => true,
            _ => false,
        },
        GitOutcome::SpawnFailed { .. } => false,
    }
}

/// A command answering yes with status 0 and no with status 1; any other
/// end is its failure.
pub open spec fn yes_or_no(command: GitCommandView, outcome: GitOutcomeView) -> Result<bool, GitErrorView> {
    match outcome {
        GitOutcomeView::SpawnFailed { message } => Err(command_io_error(command, message)),
        GitOutcomeView::Exited { code, stderr, .. } => if code == Some(0i32) {
            Ok(true)
        } else if code == Some(1i32) {
            Ok(false)
        } else {
            Err(command_failed_error(command, stderr))
        },
    }
}

/// Reads a yes/no answer from a command's exit status.
pub fn answer_yes_or_no(command: &GitCommand, outcome: GitOutcome) -> (r: Result<bool, GitWorkspaceError>)
    ensures
        result_view(r) == yes_or_no(command@, outcome@),
{
    match outcome {
        GitOutcome::SpawnFailed { message } => Err(command_io(command, message)),
        GitOutcome::Exited { code, stderr, .. } => match code {
            Some(0i32) => Ok(true),
            Some(1i32) => Ok(false),
            _ => Err(command_failed(command, stderr.as_slice())),
        },
    }
}

/// What `git symbolic-ref --quiet <ref>` says: the target of a symbolic
/// ref (status 0), nothing for a ref that is not symbolic (status 1).
pub open spec fn symbolic_target_of(command: GitCommandView, outcome: GitOutcomeView) -> Result<
    Option<Seq<char>>,
    GitErrorView,
> {
    match outcome {
        GitOutcomeView::SpawnFailed { message } => Err(command_io_error(command, message)),
        GitOutcomeView::Exited { code, stdout, stderr } => if code == Some(0i32) {
            match decoded_text(stdout, command.operation) {
                Ok(t) => Ok(Some(t)),
                Err(e) => Err(e),
            }
        } else if code == Some(1i32) {
            Ok(None)
        } else {
            Err(command_failed_error(command, stderr))
        },
    }
}

/// Reads the target of a symbolic ref.
pub fn symbolic_target(command: &GitCommand, outcome: GitOutcome) -> (r: Result<Option<String>, GitWorkspaceError>)
    ensures
        opt_text_result(r) == symbolic_target_of(command@, outcome@),
{
    match outcome {
        GitOutcome::SpawnFailed { message } => Err(command_io(command, message)),
        GitOutcome::Exited { code, stdout, stderr } => match code {
            Some(0i32) => match decode_stdout(stdout.as_slice(), command.operation.as_str()) {
                Ok(t) => Ok(Some(t)),
                Err(e) => Err(e),
            },
            Some(1i32) => Ok(None),
            _ => Err(command_failed(command, stderr.as_slice())),
        },
    }
}

/// One `%(refname)<TAB>%(objectname)` record read for `full_ref`, given the
/// OID found so far: exactly two fields; a record of another ref is
/// skipped; a second record of `full_ref`, or an empty OID, is malformed.
pub open spec fn direct_record_step(found: Option<Seq<char>>, record: Seq<char>, full_ref: Seq<char>) -> Result<
    Option<Seq<char>>,
    GitErrorView,
> {
    let malformed = GitErrorView::InvalidDirectRefRecord { record };
    match split_once(record, '\t') {
        None => Err(malformed),
        Some((refname, objectname)) => if holds(objectname, '\t') {
            Err(malformed)
        } else if refname != full_ref {
            Ok(found)
        } else if found is Some || objectname.len() == 0 {
            Err(malformed)
        } else {
            Ok(Some(objectname))
        },
    }
}

/// The direct OID the records give `full_ref`, read front to back from `found`.
pub open spec fn direct_oid_from(records: Seq<Seq<char>>, full_ref: Seq<char>, found: Option<Seq<char>>) -> Result<
    Option<Seq<char>>,
    GitErrorView,
>
    decreases records.len(),
{
    if records.len() == 0 {
        Ok(found)
    } else {
        match direct_record_step(found, records[0], full_ref) {
            Err(e) => Err(e),
            Ok(f) => direct_oid_from(records.drop_first(), full_ref, f),
        }
    }
}

/// Reads one record.
fn read_direct_record(found: Option<String>, record: &[char], full_ref: &[char]) -> (r: Result<Option<String>, GitWorkspaceError>)
    ensures
        opt_text_result(r) == direct_record_step(opt_text(found), record@, full_ref@),
{
    match find_char(record, 0, '\t') {
        None => {
            proof {
                assert(record@.subrange(0, record@.len() as int) =~= record@);
                assert(!holds(record@, '\t'));
            }
            Err(GitWorkspaceError::InvalidDirectRefRecord { record: chars_string(record) })
        },
        Some(tab) => {
            proof {
                assert(record@.subrange(0, record@.len() as int) =~= record@);
                lemma_split_once_at(record@, '\t', tab as int);
            }
            let ghost object_view = record@.subrange(tab + 1, record@.len() as int);
            let second = find_char(record, tab + 1, '\t');
            proof {
                if second is None {
                    assert(!holds(object_view, '\t'));
                } else {
                    let t2 = second->0;
                    assert(object_view[t2 - tab - 1] == '\t');
                }
            }
            if second.is_some() {
                return Err(GitWorkspaceError::InvalidDirectRefRecord { record: chars_string(record) });
            }
            let refname = slice_string(record, 0, tab);
            let refname_chars = str_chars(refname.as_str());
            if !chars_eq(refname_chars.as_slice(), full_ref) {
                return Ok(found);
            }
            if found.is_some() || tab + 1 == record.len() {
                return Err(GitWorkspaceError::InvalidDirectRefRecord { record: chars_string(record) });
            }
            Ok(Some(slice_string(record, tab + 1, record.len())))
        },
    }
}

/// The direct OID that `for-each-ref --format=%(refname)%09%(objectname)`
/// output (already trimmed) gives `full_ref`; `None` when no record names it.
pub fn direct_oid_in(stdout: &str, full_ref: &str) -> (r: Result<Option<String>, GitWorkspaceError>)
    ensures
        opt_text_result(r) == direct_oid_from(lines(stdout@), full_ref@, None),
{
    let chars = str_chars(stdout);
    let full = str_chars(full_ref);
    let records = split_lines(chars.as_slice());
    let ghost recs = records@.map_values(|l: Vec<char>| l@);
    let mut found: Option<String> = None;
    let mut i: usize = 0;
    assert(recs.skip(0) =~= recs);
    while i < records.len()
        invariant
            0 <= i <= records@.len(),
            recs == records@.map_values(|l: Vec<char>| l@),
            recs == lines(stdout@),
            full@ == full_ref@,
            direct_oid_from(recs, full_ref@, None) == direct_oid_from(recs.skip(i as int), full_ref@, opt_text(found)),
        decreases records@.len() - i,
    {
        proof {
            assert(recs.skip(i as int)[0] == records@[i as int]@);
            assert(recs.skip(i as int).drop_first() =~= recs.skip(i + 1));
        }
        match read_direct_record(found, records[i].as_slice(), full.as_slice()) {
            Err(e) => {
                return Err(e);
            },
            Ok(f) => {
                found = f;
            },
        }
        i = i + 1;
    }
    proof {
        assert(recs.skip(i as int).len() == 0);
    }
    Ok(found)
}

/// `"refs/remotes/<remote>/"`.
pub open spec fn remote_refs_prefix(remote: Seq<char>) -> Seq<char> {
    "refs/remotes/"@ + remote + "/"@
}

/// The error for a remote whose `HEAD` does not name a branch.
pub open spec fn unexpected_default(repo: Seq<u8>, remote: Seq<char>, full_ref: Seq<char>) -> GitErrorView {
    GitErrorView::DefaultBranchNotFound {
        repo,
        remote,
        stderr: "unexpected symbolic ref `"@ + full_ref + "`"@,
    }
}

/// The default branch that `git symbolic-ref refs/remotes/<remote>/HEAD`
/// names: a Git failure means the remote has none; the target must be a
/// branch of `remote` other than `HEAD`.
pub open spec fn default_branch_of(repo: Seq<u8>, remote: Seq<char>, command: GitCommandView, outcome: GitOutcomeView) -> Result<
    BranchRefView,
    GitErrorView,
> {
    match checked_output(command, outcome) {
        Err(GitErrorView::CommandFailed { stderr, .. }) => Err(GitErrorView::DefaultBranchNotFound { repo, remote, stderr }),
        Err(e) => Err(e),
        Ok(stdout) => match decoded_text(stdout, command.operation) {
            Err(e) => Err(e),
            Ok(full_ref) => match strip_prefix(full_ref, remote_refs_prefix(remote)) {
                None => Err(unexpected_default(repo, remote, full_ref)),
                Some(name) => if name.len() == 0 || name == "HEAD"@ {
                    Err(unexpected_default(repo, remote, full_ref))
                } else {
                    Ok(BranchRefView::Remote { remote, name, full_ref })
                },
            },
        },
    }
}

/// The default-branch error for a remote.
fn unexpected_default_error(repo: &Vec<u8>, remote: &str, full_ref: &str) -> (e: GitWorkspaceError)
    ensures
        e@ == unexpected_default(repo@, remote@, full_ref@),
{
    let mut message = concat_text("unexpected symbolic ref `", full_ref);
    crate::text::append_str(&mut message, "`");
    GitWorkspaceError::DefaultBranchNotFound { repo: repo.clone(), remote: text(remote), stderr: message }
}

/// Reads a remote's default branch from `symbolic-ref refs/remotes/<remote>/HEAD`.
pub fn read_default_branch(repo: &Vec<u8>, remote: &str, command: &GitCommand, outcome: GitOutcome) -> (r: Result<BranchRef, GitWorkspaceError>)
    ensures
        result_view(r) == default_branch_of(repo@, remote@, command@, outcome@),
{
    let stdout = match checked_stdout(command, outcome) {
        Ok(out) => out,
        Err(e) => {
            return match e {
                GitWorkspaceError::CommandFailed { stderr, .. } => Err(
                    GitWorkspaceError::DefaultBranchNotFound { repo: repo.clone(), remote: text(remote), stderr },
                ),
                other => Err(other),
            };
        },
    };
    let full_ref = match decode_stdout(stdout.as_slice(), command.operation.as_str()) {
        Ok(t) => t,
        Err(e) => {
            return Err(e);
        },
    };
    let mut prefix = concat_text("refs/remotes/", remote);
    crate::text::append_str(&mut prefix, "/");
    let full_chars = str_chars(full_ref.as_str());
    let prefix_chars = str_chars(prefix.as_str());
    if !starts_with(full_chars.as_slice(), prefix_chars.as_slice()) {
        return Err(unexpected_default_error(repo, remote, full_ref.as_str()));
    }
    let name = slice_string(full_chars.as_slice(), prefix_chars.len(), full_chars.len());
    let head = str_chars("HEAD");
    let name_chars = str_chars(name.as_str());
    if name_chars.len() == 0 || chars_eq(name_chars.as_slice(), head.as_slice()) {
        return Err(unexpected_default_error(repo, remote, full_ref.as_str()));
    }
    Ok(BranchRef::Remote { remote: text(remote), name, full_ref })
}

/// The remotes `git remote` lists.
pub open spec fn remotes_of(command: GitCommandView, outcome: GitOutcomeView) -> Result<Seq<Seq<char>>, GitErrorView> {
    match checked_output(command, outcome) {
        Err(e) => Err(e),
        Ok(stdout) => match decoded_text(stdout, command.operation) {
            Err(e) => Err(e),
            Ok(t) => Ok(remote_names(lines(t))),
        },
    }
}

/// Reads the configured remotes from `git remote`.
pub fn read_remotes(command: &GitCommand, outcome: GitOutcome) -> (r: Result<Vec<String>, GitWorkspaceError>)
    ensures
        texts_result(r) == remotes_of(command@, outcome@),
{
    let stdout = match checked_stdout(command, outcome) {
        Ok(out) => out,
        Err(e) => {
            return Err(e);
        },
    };
    match decode_stdout(stdout.as_slice(), command.operation.as_str()) {
        Ok(t) => Ok(parse_remote_names(t.as_str())),
        Err(e) => Err(e),
    }
}

/// The text output of a command that must succeed, trimmed.
pub open spec fn text_output_of(command: GitCommandView, outcome: GitOutcomeView) -> Result<Seq<char>, GitErrorView> {
    match checked_output(command, outcome) {
        Err(e) => Err(e),
        Ok(stdout) => decoded_text(stdout, command.operation),
    }
}

/// Reads the trimmed text output of a command that must succeed.
pub fn read_text_output(command: &GitCommand, outcome: GitOutcome) -> (r: Result<String, GitWorkspaceError>)
    ensures
        text_result(r) == text_output_of(command@, outcome@),
{
    let stdout = match checked_stdout(command, outcome) {
        Ok(out) => out,
        Err(e) => {
            return Err(e);
        },
    };
    decode_stdout(stdout.as_slice(), command.operation.as_str())
}

/// A branch's upstream as `for-each-ref --format=%(upstream)` prints it; none when empty.
pub open spec fn upstream_of(command: GitCommandView, outcome: GitOutcomeView) -> Result<Option<Seq<char>>, GitErrorView> {
    match text_output_of(command, outcome) {
        Err(e) => Err(e),
        Ok(t) => if t.len() == 0 {
            Ok(None)
        } else {
            Ok(Some(t))
        },
    }
}

/// Reads a branch's upstream.
pub fn read_upstream(command: &GitCommand, outcome: GitOutcome) -> (r: Result<Option<String>, GitWorkspaceError>)
    ensures
        opt_text_result(r) == upstream_of(command@, outcome@),
{
    match read_text_output(command, outcome) {
        Err(e) => Err(e),
        Ok(t) => {
            let chars = str_chars(t.as_str());
            if chars.len() == 0 {
                Ok(None)
            } else {
                Ok(Some(t))
            }
        },
    }
}

} // verus!
