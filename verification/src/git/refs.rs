//! Classification of refnames and parsing of `git for-each-ref` and
//! `git remote` output.
use vstd::prelude::*;

use crate::git::types::{
    branch_ref_views, opt_text, result_view, texts_view, BranchRef, BranchRefView, GitErrorView,
    GitWorkspaceError,
};
use crate::text::{
    chars_string, find_char, holds, lemma_split_once_at, lines, slice_string, split_lines,
    split_once, starts_with, str_chars, strip_prefix, trim, trim_chars,
};

verus! {

/// `"refs/heads/"`.
pub open spec fn heads_prefix() -> Seq<char> {
    "refs/heads/"@
}

/// `"refs/remotes/"`.
pub open spec fn remotes_prefix() -> Seq<char> {
    "refs/remotes/"@
}

/// The branch name `rest` gives under `remote`, when `rest` is `remote/<non-empty name>`.
pub open spec fn remote_branch_name(rest: Seq<char>, remote: Seq<char>) -> Option<Seq<char>> {
    match strip_prefix(rest, remote.push('/')) {
        Some(name) => if name.len() > 0 {
            Some(name)
        } else {
            None
        },
        None => None,
    }
}

/// The configured remotes under which `rest` names a branch, in configuration
/// order, each with that branch name.
pub open spec fn remote_matches(remotes: Seq<Seq<char>>, rest: Seq<char>) -> Seq<
    (Seq<char>, Seq<char>),
>
    decreases remotes.len(),
{
    if remotes.len() == 0 {
        Seq::empty()
    } else {
        let earlier = remote_matches(remotes.drop_last(), rest);
        match remote_branch_name(rest, remotes.last()) {
            Some(name) => earlier.push((remotes.last(), name)),
            None => earlier,
        }
    }
}

/// How a full refname is classified against the configured remotes:
/// `refs/heads/<name>` is local; `refs/remotes/<rest>` belongs to the single
/// remote it names a branch of, and is ambiguous when several remotes fit.
pub open spec fn branch_ref_of(full_ref: Seq<char>, remotes: Seq<Seq<char>>) -> Result<
    BranchRefView,
    GitErrorView,
> {
    let invalid = GitErrorView::InvalidBranchRef { full_ref };
    match strip_prefix(full_ref, heads_prefix()) {
        Some(name) if name.len() > 0 => Ok(BranchRefView::Local { name, full_ref }),
        _ => match strip_prefix(full_ref, remotes_prefix()) {
            Some(rest) => {
                let matches = remote_matches(remotes, rest);
                if matches.len() == 1 {
                    Ok(
                        BranchRefView::Remote {
                            remote: matches[0].0,
                            name: matches[0].1,
                            full_ref,
                        },
                    )
                } else if matches.len() == 0 {
                    Err(invalid)
                } else {
                    Err(
                        GitErrorView::AmbiguousRemoteRef {
                            full_ref,
                            remotes: matches.map_values(|m: (Seq<char>, Seq<char>)| m.0),
                        },
                    )
                }
            },
            None => Err(invalid),
        },
    }
}

/// The text of a literal, as characters.
pub fn literal_chars(s: &str) -> (r: Vec<char>)
    ensures
        r@ == s@,
{
    str_chars(s)
}

fn heads_chars() -> (r: Vec<char>)
    ensures
        r@ == heads_prefix(),
{
    literal_chars("refs/heads/")
}

fn remotes_chars() -> (r: Vec<char>)
    ensures
        r@ == remotes_prefix(),
{
    literal_chars("refs/remotes/")
}

/// The branch name `rest[from..]` gives under `remote`.
fn remote_name_in(rest: &[char], from: usize, remote: &[char]) -> (r: Option<Vec<char>>)
    requires
        from <= rest.len(),
    ensures
        r matches Some(v) ==> remote_branch_name(rest@.subrange(from as int, rest@.len() as int), remote@) == Some(v@),
        r is None ==> remote_branch_name(rest@.subrange(from as int, rest@.len() as int), remote@) is None,
{
    let ghost tail = rest@.subrange(from as int, rest@.len() as int);
    let ghost want = remote@.push('/');
    let n = rest.len();
    if n - from <= remote.len() {
        return None;
    }
    let mut i: usize = 0;
    while i < remote.len()
        invariant
            0 <= i <= remote.len(),
            from + remote.len() + 1 <= n == rest.len(),
            tail == rest@.subrange(from as int, rest@.len() as int),
            want == remote@.push('/'),
            forall|j: int| 0 <= j < i ==> tail[j] == want[j],
        decreases remote.len() - i,
    {
        if rest[from + i] != remote[i] {
            assert(tail.subrange(0, want.len() as int)[i as int] != want[i as int]);
            return None;
        }
        i = i + 1;
    }
    if rest[from + remote.len()] != '/' {
        assert(tail.subrange(0, want.len() as int)[remote.len() as int] != want[remote.len() as int]);
        return None;
    }
    assert(tail.subrange(0, want.len() as int) =~= want);
    let start = from + remote.len() + 1;
    if start == n {
        return None;
    }
    let mut name: Vec<char> = Vec::new();
    let mut k: usize = start;
    while k < n
        invariant
            start <= k <= n == rest.len(),
            name@ == rest@.subrange(start as int, k as int),
        decreases n - k,
    {
        name.push(rest[k]);
        k = k + 1;
        assert(name@ =~= rest@.subrange(start as int, k as int));
    }
    assert(tail.subrange(want.len() as int, tail.len() as int) =~= name@);
    Some(name)
}

/// Classifies a full refname against the configured remotes, without
/// guessing from name prefixes: a remote-tracking ref must name a branch of
/// exactly one configured remote.
pub fn parse_branch_ref(full_ref: &str, remotes: &[String]) -> (r: Result<BranchRef, GitWorkspaceError>)
    ensures
        result_view(r) == branch_ref_of(full_ref@, texts_view(remotes@)),
{
    let chars = str_chars(full_ref);
    let heads = heads_chars();
    if starts_with(chars.as_slice(), heads.as_slice()) && chars.len() > heads.len() {
        let name = slice_string(chars.as_slice(), heads.len(), chars.len());
        let full = chars_string(chars.as_slice());
        return Ok(BranchRef::Local { name, full_ref: full });
    }
    let remotes_pre = remotes_chars();
    if !starts_with(chars.as_slice(), remotes_pre.as_slice()) {
        let full = chars_string(chars.as_slice());
        return Err(GitWorkspaceError::InvalidBranchRef { full_ref: full });
    }
    let from = remotes_pre.len();
    let ghost rest = chars@.subrange(from as int, chars@.len() as int);
    let ghost remote_views = texts_view(remotes@);
    let mut matches: Vec<(String, String)> = Vec::new();
    let mut i: usize = 0;
    while i < remotes.len()
        invariant
            0 <= i <= remotes@.len(),
            from <= chars@.len(),
            remote_views == texts_view(remotes@),
            rest == chars@.subrange(from as int, chars@.len() as int),
            matches@.map_values(|m: (String, String)| (m.0@, m.1@)) == remote_matches(
                remote_views.take(i as int),
                rest,
            ),
        decreases remotes@.len() - i,
    {
        let remote_chars = str_chars(remotes[i].as_str());
        proof {
            assert(remote_views.take(i + 1).drop_last() =~= remote_views.take(i as int));
            assert(remote_views.take(i + 1).last() == remote_chars@);
        }
        match remote_name_in(chars.as_slice(), from, remote_chars.as_slice()) {
            Some(name) => {
                let ghost before = matches@;
                let name_string = chars_string(name.as_slice());
                matches.push((remotes[i].clone(), name_string));
                proof {
                    assert(matches@.map_values(|m: (String, String)| (m.0@, m.1@)) =~= before.map_values(
                        |m: (String, String)| (m.0@, m.1@),
                    ).push((remote_chars@, name@)));
                }
            },
            None => {},
        }
        i = i + 1;
    }
    proof {
        assert(remote_views.take(remotes@.len() as int) =~= remote_views);
    }
    let full = chars_string(chars.as_slice());
    if matches.len() == 1 {
        let (remote, name) = matches.pop().unwrap();
        Ok(BranchRef::Remote { remote, name, full_ref: full })
    } else if matches.len() == 0 {
        Err(GitWorkspaceError::InvalidBranchRef { full_ref: full })
    } else {
        let mut names: Vec<String> = Vec::new();
        let mut k: usize = 0;
        while k < matches.len()
            invariant
                0 <= k <= matches@.len(),
                texts_view(names@) == matches@.take(k as int).map_values(|m: (String, String)| m.0@),
            decreases matches@.len() - k,
        {
            let ghost before = names@;
            names.push(matches[k].0.clone());
            k = k + 1;
            proof {
                assert(names@ == before.push(matches@[k - 1].0));
                assert(matches@.take(k as int) =~= matches@.take(k - 1).push(matches@[k - 1]));
                assert(texts_view(names@) =~= texts_view(before).push(matches@[k - 1].0@));
                assert(matches@.take(k as int).map_values(|m: (String, String)| m.0@) =~= matches@.take(k - 1).map_values(|m: (String, String)| m.0@).push(matches@[k - 1].0@));
            }
        }
        proof {
            assert(matches@.take(matches@.len() as int) =~= matches@);
            assert(texts_view(names@) =~= remote_matches(remote_views, rest).map_values(
                |m: (Seq<char>, Seq<char>)| m.0,
            ));
        }
        Err(GitWorkspaceError::AmbiguousRemoteRef { full_ref: full, remotes: names })
    }
}


/// What one `%(refname)<TAB>%(symref)` record contributes: a branch ref for
/// a direct ref, nothing for a symbolic ref, an error for a malformed record.
pub open spec fn branch_record_of(record: Seq<char>, remotes: Seq<Seq<char>>) -> Result<
    Option<BranchRefView>,
    GitErrorView,
> {
    match split_once(record, '\t') {
        None => Err(GitErrorView::InvalidBranchRefRecord { record }),
        Some((full_ref, symref)) => if full_ref.len() == 0 || holds(symref, '\t') {
            Err(GitErrorView::InvalidBranchRefRecord { record })
        } else if symref.len() > 0 {
            Ok(None)
        } else {
            match branch_ref_of(full_ref, remotes) {
                Ok(b) => Ok(Some(b)),
                Err(e) => Err(e),
            }
        },
    }
}

/// The branch refs of a list of records, in order; the first failing record decides the error.
pub open spec fn branch_records_of(records: Seq<Seq<char>>, remotes: Seq<Seq<char>>) -> Result<
    Seq<BranchRefView>,
    GitErrorView,
>
    decreases records.len(),
{
    if records.len() == 0 {
        Ok(Seq::empty())
    } else {
        match branch_records_of(records.drop_last(), remotes) {
            Err(e) => Err(e),
            Ok(earlier) => match branch_record_of(records.last(), remotes) {
                Err(e) => Err(e),
                Ok(None) => Ok(earlier),
                Ok(Some(b)) => Ok(earlier.push(b)),
            },
        }
    }
}

/// Parses one record.
fn parse_branch_ref_record(record: &[char], remotes: &[String]) -> (r: Result<Option<BranchRef>, GitWorkspaceError>)
    ensures
        match (r, branch_record_of(record@, texts_view(remotes@))) {
            (Ok(Some(b)), Ok(Some(v))) => b@ == v,
            (Ok(None), Ok(None)) => true,
            (Err(e), Err(v)) => e@ == v,
            _ => false,
        },
{
    match find_char(record, 0, '\t') {
        None => {
            proof {
                assert(record@.subrange(0, record@.len() as int) =~= record@);
                assert(!holds(record@, '\t'));
            }
            Err(GitWorkspaceError::InvalidBranchRefRecord { record: chars_string(record) })
        },
        Some(tab) => {
            proof {
                assert(record@.subrange(0, record@.len() as int) =~= record@);
                lemma_split_once_at(record@, '\t', tab as int);
            }
            let ghost symref_view = record@.subrange(tab + 1, record@.len() as int);
            let second = find_char(record, tab + 1, '\t');
            proof {
                if second is None {
                    assert(!holds(symref_view, '\t'));
                } else {
                    let t2 = second->0;
                    assert(symref_view[t2 - tab - 1] == '\t');
                }
            }
            if tab == 0 || second.is_some() {
                return Err(GitWorkspaceError::InvalidBranchRefRecord { record: chars_string(record) });
            }
            if tab + 1 < record.len() {
                return Ok(None);
            }
            let full_ref = slice_string(record, 0, tab);
            match parse_branch_ref(full_ref.as_str(), remotes) {
                Ok(b) => Ok(Some(b)),
                Err(e) => Err(e),
            }
        },
    }
}

/// Parses `%(refname)<TAB>%(symref)` records, one per line, into branch refs,
/// leaving out symbolic refs (such as `refs/remotes/origin/HEAD`).
pub fn parse_branch_ref_records(stdout: &str, remotes: &[String]) -> (r: Result<Vec<BranchRef>, GitWorkspaceError>)
    ensures
        match (r, branch_records_of(lines(stdout@), texts_view(remotes@))) {
            (Ok(refs), Ok(v)) => branch_ref_views(refs@) == v,
            (Err(e), Err(v)) => e@ == v,
            _ => false,
        },
{
    let chars = str_chars(stdout);
    let records = split_lines(chars.as_slice());
    let ghost recs = records@.map_values(|l: Vec<char>| l@);
    let ghost remote_views = texts_view(remotes@);
    let mut refs: Vec<BranchRef> = Vec::new();
    let mut i: usize = 0;
    proof {
        assert(recs.take(0) =~= Seq::<Seq<char>>::empty());
        assert(branch_ref_views(refs@) =~= Seq::<BranchRefView>::empty());
    }
    while i < records.len()
        invariant
            0 <= i <= records@.len(),
            recs == records@.map_values(|l: Vec<char>| l@),
            recs == lines(stdout@),
            remote_views == texts_view(remotes@),
            branch_records_of(recs.take(i as int), remote_views) == Ok::<Seq<BranchRefView>, GitErrorView>(branch_ref_views(refs@)),
        decreases records@.len() - i,
    {
        proof {
            assert(recs.take(i + 1).drop_last() =~= recs.take(i as int));
            assert(recs.take(i + 1).last() == records@[i as int]@);
        }
        match parse_branch_ref_record(records[i].as_slice(), remotes) {
            Err(e) => {
                proof {
                    assert(branch_records_of(recs.take(i + 1), remote_views) == Err::<Seq<BranchRefView>, GitErrorView>(e@));
                    lemma_branch_records_error_persists(recs, remote_views, i as int + 1, e@);
                    assert(recs.take(recs.len() as int) =~= recs);
                }
                return Err(e);
            },
            Ok(None) => {},
            Ok(Some(b)) => {
                let ghost before = refs@;
                refs.push(b);
                proof {
                    assert(branch_ref_views(refs@) =~= branch_ref_views(before).push(b@));
                }
            },
        }
        i = i + 1;
    }
    proof {
        assert(recs.take(records@.len() as int) =~= recs);
    }
    Ok(refs)
}

/// Once a prefix of the records fails, all records fail the same way.
proof fn lemma_branch_records_error_persists(
    recs: Seq<Seq<char>>,
    remotes: Seq<Seq<char>>,
    k: int,
    e: GitErrorView,
)
    requires
        0 <= k <= recs.len(),
        branch_records_of(recs.take(k), remotes) == Err::<Seq<BranchRefView>, GitErrorView>(e),
    ensures
        branch_records_of(recs, remotes) == Err::<Seq<BranchRefView>, GitErrorView>(e),
    decreases recs.len() - k,
{
    if k < recs.len() {
        assert(recs.take(k + 1).drop_last() =~= recs.take(k));
        lemma_branch_records_error_persists(recs, remotes, k + 1, e);
    } else {
        assert(recs.take(k) =~= recs);
    }
}

/// The remote names `git remote` printed: each line trimmed, empty lines left out.
pub open spec fn remote_names(lines_: Seq<Seq<char>>) -> Seq<Seq<char>>
    decreases lines_.len(),
{
    if lines_.len() == 0 {
        Seq::empty()
    } else {
        let earlier = remote_names(lines_.drop_last());
        let name = trim(lines_.last());
        if name.len() > 0 {
            earlier.push(name)
        } else {
            earlier
        }
    }
}

/// The remotes listed in the (already trimmed) output of `git remote`.
pub fn parse_remote_names(stdout: &str) -> (r: Vec<String>)
    ensures
        texts_view(r@) == remote_names(lines(stdout@)),
{
    let chars = str_chars(stdout);
    let records = split_lines(chars.as_slice());
    let ghost recs = records@.map_values(|l: Vec<char>| l@);
    let mut names: Vec<String> = Vec::new();
    let mut i: usize = 0;
    while i < records.len()
        invariant
            0 <= i <= records@.len(),
            recs == records@.map_values(|l: Vec<char>| l@),
            texts_view(names@) == remote_names(recs.take(i as int)),
        decreases records@.len() - i,
    {
        proof {
            assert(recs.take(i + 1).drop_last() =~= recs.take(i as int));
            assert(recs.take(i + 1).last() == records@[i as int]@);
        }
        let name = trim_chars(records[i].as_slice());
        if name.len() > 0 {
            let ghost before = names@;
            names.push(chars_string(name.as_slice()));
            proof {
                assert(texts_view(names@) =~= texts_view(before).push(name@));
            }
        }
        i = i + 1;
    }
    proof {
        assert(recs.take(records@.len() as int) =~= recs);
    }
    names
}

/// The remote a repository works with: `origin` when configured, else the first listed.
pub open spec fn primary_remote_of(remotes: Seq<Seq<char>>) -> Option<Seq<char>> {
    if remotes.contains("origin"@) {
        Some("origin"@)
    } else if remotes.len() > 0 {
        Some(remotes[0])
    } else {
        None
    }
}

/// Picks `origin` when it is configured, else the first remote.
pub fn select_primary_remote(remotes: &[String]) -> (r: Option<String>)
    ensures
        opt_text(r) == primary_remote_of(texts_view(remotes@)),
{
    let origin = literal_chars("origin");
    let mut i: usize = 0;
    while i < remotes.len()
        invariant
            0 <= i <= remotes@.len(),
            origin@ == "origin"@,
            forall|j: int| 0 <= j < i ==> remotes@[j]@ != "origin"@,
        decreases remotes@.len() - i,
    {
        let name = str_chars(remotes[i].as_str());
        if chars_eq_vec(&name, &origin) {
            proof {
                assert(texts_view(remotes@)[i as int] == "origin"@);
            }
            return Some(remotes[i].clone());
        }
        i = i + 1;
    }
    proof {
        if texts_view(remotes@).contains("origin"@) {
            let j = choose|j: int| 0 <= j < texts_view(remotes@).len() && texts_view(remotes@)[j] == "origin"@;
            assert(remotes@[j]@ == "origin"@);
        }
    }
    if remotes.len() > 0 {
        Some(remotes[0].clone())
    } else {
        None
    }
}

fn chars_eq_vec(a: &Vec<char>, b: &Vec<char>) -> (r: bool)
    ensures
        r == (a@ == b@),
{
    crate::text::chars_eq(a.as_slice(), b.as_slice())
}

} // verus!
