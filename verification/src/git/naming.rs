//! Names derived from user input: a repository's name from its Git URL, the
//! single directory a clone may be created in, and a workspace's directory.
use vstd::prelude::*;

use crate::git::types::{GitErrorView, GitWorkspaceError};
use crate::text::{chars_string, has_prefix, push_char, str_chars, trim, trim_chars};
use vstd::string::StringSliceAdditionalSpecFns;

verus! {

/// Name for the path segments of the URL that `url::Url::parse` reads from
/// a text: `None` when the text is no absolute URL, `Some(None)` when the
/// URL cannot be a base.
pub uninterp spec fn url_path_segments(input: Seq<char>) -> Option<Option<Seq<Seq<char>>>>;

/// The texts of optional optional segments.
pub open spec fn segments_view(r: Option<Option<Vec<String>>>) -> Option<Option<Seq<Seq<char>>>> {
    match r {
        None => None,
        Some(None) => Some(None),
        Some(Some(v)) => Some(Some(crate::git::types::texts_view(v@))),
    }
}

/// `url::Url::parse(input)`, then `path_segments()` on the URL it gives:
/// the contract names the result `url_path_segments(input)` and states no
/// more of it.
#[verifier::external_body]
fn parse_url_segments(input: &str) -> (r: Option<Option<Vec<String>>>)
    ensures
        segments_view(r) == url_path_segments(input@),
{
    match url::Url::parse(input) {
        Ok(parsed) => Some(parsed.path_segments().map(|segments| segments.map(|s| s.to_string()).collect())),
        Err(_) => None,
    }
}

/// An ASCII letter.
pub open spec fn is_ascii_alpha(c: char) -> bool {
    ('a' <= c <= 'z') || ('A' <= c <= 'Z')
}

/// An ASCII letter or digit.
pub open spec fn is_ascii_alnum(c: char) -> bool {
    is_ascii_alpha(c) || ('0' <= c <= '9')
}

/// An absolute Windows path with a drive letter, such as `C:\` or `C:/`.
pub open spec fn is_windows_drive_absolute(s: Seq<char>) -> bool {
    s.len() >= 3 && is_ascii_alpha(s[0]) && s[1] == ':' && (s[2] == '/' || s[2] == '\\')
}

/// The separators of a local path or SCP-style address.
pub open spec fn is_path_separator(c: char) -> bool {
    c == '/' || c == '\\' || c == ':'
}

/// The characters after the last separator of `s`.
pub open spec fn trailing_run(s: Seq<char>) -> Seq<char>
    decreases s.len(),
{
    if s.len() == 0 || is_path_separator(s.last()) {
        Seq::empty()
    } else {
        trailing_run(s.drop_last()).push(s.last())
    }
}

/// The last non-empty segment of a local path or SCP-style address.
pub open spec fn local_path_name(s: Seq<char>) -> Option<Seq<char>>
    decreases s.len(),
{
    if s.len() == 0 {
        None
    } else if is_path_separator(s.last()) {
        local_path_name(s.drop_last())
    } else {
        Some(trailing_run(s))
    }
}

/// The last non-empty segment of a list.
pub open spec fn last_nonempty(segments: Seq<Seq<char>>) -> Option<Seq<char>>
    decreases segments.len(),
{
    if segments.len() == 0 {
        None
    } else if segments.last().len() > 0 {
        Some(segments.last())
    } else {
        last_nonempty(segments.drop_last())
    }
}

/// `name` without one `.git` at its end.
pub open spec fn without_git_suffix(name: Seq<char>) -> Seq<char> {
    if name.len() >= 4 && name.subrange(name.len() - 4, name.len() as int) == ".git"@ {
        name.subrange(0, name.len() - 4)
    } else {
        name
    }
}

/// The repository name in a trimmed URL, before `.git` is dropped, given
/// what parsing it as a URL gave (`parsed`): a drive path and anything that
/// is no absolute URL are read as local paths; a URL's last non-empty path
/// segment otherwise.
pub open spec fn raw_repository_name(trimmed: Seq<char>, parsed: Option<Option<Seq<Seq<char>>>>) -> Option<Seq<char>> {
    if is_windows_drive_absolute(trimmed) {
        local_path_name(trimmed)
    } else {
        match parsed {
            Some(Some(segments)) => last_nonempty(segments),
            Some(None) => None,
            None => local_path_name(trimmed),
        }
    }
}

/// The repository name of `url`, given what parsing its trimmed form as a
/// URL gave.
pub open spec fn repository_name_given(url: Seq<char>, parsed: Option<Option<Seq<Seq<char>>>>) -> Result<Seq<char>, GitErrorView> {
    match raw_repository_name(trim(url), parsed) {
        Some(n) => if without_git_suffix(n).len() > 0 {
            Ok(without_git_suffix(n))
        } else {
            Err(GitErrorView::RepositoryNameMissing { url })
        },
        None => Err(GitErrorView::RepositoryNameMissing { url }),
    }
}

/// The repository name of a Git URL, SCP-style address or local path.
pub open spec fn repository_name_of(url: Seq<char>) -> Result<Seq<char>, GitErrorView> {
    repository_name_given(url, url_path_segments(trim(url)))
}

fn is_separator_char(c: char) -> (r: bool)
    ensures
        r == is_path_separator(c),
{
    c == '/' || c == '\\' || c == ':'
}

/// The last non-empty segment of a local path.
fn local_name(s: &[char]) -> (r: Option<Vec<char>>)
    ensures
        match (r, local_path_name(s@)) {
            (Some(v), Some(w)) => v@ == w,
            (None, None) => true,
            _ => false,
        },
{
    let mut end: usize = s.len();
    assert(s@.subrange(0, s@.len() as int) =~= s@);
    while end > 0 && is_separator_char(s[end - 1])
        invariant
            0 <= end <= s.len(),
            local_path_name(s@) == local_path_name(s@.subrange(0, end as int)),
        decreases end,
    {
        proof {
            assert(s@.subrange(0, end as int).drop_last() =~= s@.subrange(0, end - 1));
        }
        end = end - 1;
    }
    if end == 0 {
        assert(s@.subrange(0, 0) =~= Seq::<char>::empty());
        return None;
    }
    let mut start: usize = end;
    while start > 0 && !is_separator_char(s[start - 1])
        invariant
            0 <= start <= end <= s.len(),
            end > 0,
            !is_path_separator(s@[end - 1]),
            trailing_run(s@.subrange(0, end as int)) == trailing_run(s@.subrange(0, start as int)) + s@.subrange(start as int, end as int),
        decreases start,
    {
        proof {
            let p = s@.subrange(0, start as int);
            assert(p.drop_last() =~= s@.subrange(0, start - 1));
            assert(trailing_run(s@.subrange(0, start - 1)) + s@.subrange(start - 1, end as int) =~= trailing_run(
                s@.subrange(0, start - 1),
            ).push(p.last()) + s@.subrange(start as int, end as int));
        }
        start = start - 1;
    }
    proof {
        let p = s@.subrange(0, start as int);
        assert(trailing_run(p) =~= Seq::<char>::empty());
        assert(Seq::<char>::empty() + s@.subrange(start as int, end as int) =~= s@.subrange(start as int, end as int));
    }
    let mut out: Vec<char> = Vec::new();
    let mut k: usize = start;
    while k < end
        invariant
            start <= k <= end <= s.len(),
            out@ == s@.subrange(start as int, k as int),
        decreases end - k,
    {
        out.push(s[k]);
        k = k + 1;
        assert(out@ =~= s@.subrange(start as int, k as int));
    }
    Some(out)
}

fn is_ascii_alpha_char(c: char) -> (r: bool)
    ensures
        r == is_ascii_alpha(c),
{
    ('a' <= c && c <= 'z') || ('A' <= c && c <= 'Z')
}

fn is_ascii_alnum_char(c: char) -> (r: bool)
    ensures
        r == is_ascii_alnum(c),
{
    is_ascii_alpha_char(c) || ('0' <= c && c <= '9')
}

fn windows_drive_absolute(s: &[char]) -> (r: bool)
    ensures
        r == is_windows_drive_absolute(s@),
{
    s.len() >= 3 && is_ascii_alpha_char(s[0]) && s[1] == ':' && (s[2] == '/' || s[2] == '\\')
}

fn last_nonempty_segment(segments: &Vec<String>) -> (r: Option<String>)
    ensures
        crate::git::types::opt_text(r) == last_nonempty(crate::git::types::texts_view(segments@)),
{
    let ghost views = crate::git::types::texts_view(segments@);
    let mut i: usize = segments.len();
    assert(views.subrange(0, views.len() as int) =~= views);
    while i > 0
        invariant
            0 <= i <= segments@.len(),
            views == crate::git::types::texts_view(segments@),
            last_nonempty(views) == last_nonempty(views.subrange(0, i as int)),
        decreases i,
    {
        proof {
            assert(views.subrange(0, i as int).drop_last() =~= views.subrange(0, i - 1));
        }
        let chars = str_chars(segments[i - 1].as_str());
        if chars.len() > 0 {
            return Some(segments[i - 1].clone());
        }
        i = i - 1;
    }
    None
}

fn drop_git_suffix(name: &[char]) -> (r: Vec<char>)
    ensures
        r@ == without_git_suffix(name@),
{
    let n = name.len();
    let suffix = str_chars(".git");
    proof {
        reveal_strlit(".git");
    }
    if n >= 4 && name[n - 4] == '.' && name[n - 3] == 'g' && name[n - 2] == 'i' && name[n - 1] == 't' {
        assert(name@.subrange(n - 4, n as int) =~= ".git"@);
        let mut out: Vec<char> = Vec::new();
        let mut k: usize = 0;
        while k < n - 4
            invariant
                n == name.len(),
                n >= 4,
                0 <= k <= n - 4,
                out@ == name@.subrange(0, k as int),
            decreases n - 4 - k,
        {
            out.push(name[k]);
            k = k + 1;
            assert(out@ =~= name@.subrange(0, k as int));
        }
        out
    } else {
        proof {
            if n >= 4 {
                let t = name@.subrange(n - 4, n as int);
                if t == ".git"@ {
                    assert(t[0] == '.' && t[1] == 'g' && t[2] == 'i' && t[3] == 't');
                }
            }
        }
        let mut out: Vec<char> = Vec::new();
        let mut k: usize = 0;
        while k < n
            invariant
                n == name.len(),
                0 <= k <= n,
                out@ == name@.subrange(0, k as int),
            decreases n - k,
        {
            out.push(name[k]);
            k = k + 1;
            assert(out@ =~= name@.subrange(0, k as int));
        }
        assert(out@ =~= name@);
        out
    }
}

/// The repository name of `url`, given what parsing its trimmed form as a
/// URL gave: `None` when it is no absolute URL, `Some(None)` when the URL
/// cannot be a base (`mailto:a`), and its path segments otherwise. A drive
/// path (`C:\repos\widgets.git`) is read as a local path whatever `parsed`
/// holds.
pub fn repository_name_from_parsed(url: &str, parsed: Option<Option<Vec<String>>>) -> (r: Result<String, GitWorkspaceError>)
    ensures
        crate::git::types::text_result(r) == repository_name_given(url@, segments_view(parsed)),
{
    let chars = str_chars(url);
    let trimmed = trim_chars(chars.as_slice());
    let raw: Option<Vec<char>> = if windows_drive_absolute(trimmed.as_slice()) {
        local_name(trimmed.as_slice())
    } else {
        match parsed {
            Some(Some(segments)) => match last_nonempty_segment(&segments) {
                Some(t) => Some(str_chars(t.as_str())),
                None => None,
            },
            Some(None) => None,
            None => local_name(trimmed.as_slice()),
        }
    };
    match raw {
        Some(n) => {
            let name = drop_git_suffix(n.as_slice());
            if name.len() > 0 {
                Ok(chars_string(name.as_slice()))
            } else {
                Err(GitWorkspaceError::RepositoryNameMissing { url: crate::git::command::text(url) })
            }
        },
        None => Err(GitWorkspaceError::RepositoryNameMissing { url: crate::git::command::text(url) }),
    }
}

/// The repository name of a Git URL (`https://host/acme/widgets.git`), an
/// SCP-style address (`git@host:acme/widgets.git`) or a local path,
/// without a final `.git`.
pub fn repository_name_from_url(url: &str) -> (r: Result<String, GitWorkspaceError>)
    ensures
        crate::git::types::text_result(r) == repository_name_of(url@),
{
    let chars = str_chars(url);
    let trimmed = trim_chars(chars.as_slice());
    let parsed = if windows_drive_absolute(trimmed.as_slice()) {
        None
    } else {
        let trimmed_text = chars_string(trimmed.as_slice());
        parse_url_segments(trimmed_text.as_str())
    };
    repository_name_from_parsed(url, parsed)
}

/// A clone directory name: one normal path component, nothing else.
pub open spec fn is_single_component(name: Seq<char>) -> bool {
    name.len() > 0 && !crate::text::holds(name, '/') && name != "."@ && name != ".."@
}

/// Checks a clone directory name.
pub fn validate_clone_directory_name(name: &str) -> (r: Result<(), GitWorkspaceError>)
    ensures
        r is Ok <==> is_single_component(name@),
        r matches Err(e) ==> e@ == (GitErrorView::InvalidCloneDirectoryName { name: name@ }),
{
    let chars = str_chars(name);
    proof {
        reveal_strlit(".");
        reveal_strlit("..");
    }
    let slash = crate::text::find_char(chars.as_slice(), 0, '/');
    proof {
        assert(chars@.subrange(0, chars@.len() as int) =~= chars@);
        if slash is None {
            assert(!crate::text::holds(chars@, '/'));
        } else {
            assert(chars@[slash->0 as int] == '/');
        }
    }
    let dot = chars.len() == 1 && chars[0] == '.';
    let dots = chars.len() == 2 && chars[0] == '.' && chars[1] == '.';
    proof {
        if chars@ == "."@ {
            assert(dot);
        }
        if chars@ == ".."@ {
            assert(dots);
        }
        if dot {
            assert(chars@ =~= "."@);
        }
        if dots {
            assert(chars@ =~= ".."@);
        }
    }
    if chars.len() > 0 && slash.is_none() && !dot && !dots {
        Ok(())
    } else {
        Err(GitWorkspaceError::InvalidCloneDirectoryName { name: crate::git::command::text(name) })
    }
}

/// `parent` joined with a relative single-component `name`, as
/// `Path::join` gives it: a separator in between unless `parent` is empty
/// or already ends with one.
pub open spec fn join_path(parent: Seq<u8>, name: Seq<u8>) -> Seq<u8> {
    if parent.len() == 0 {
        name
    } else if parent.last() == 47u8 {
        parent + name
    } else {
        parent.push(47u8) + name
    }
}

/// Joins a single-component name to a directory.
pub fn join_component(parent: &Vec<u8>, name: &str) -> (r: Vec<u8>)
    ensures
        r@ == join_path(parent@, vstd::utf8::encode_utf8(name@)),
{
    let bytes = name.as_bytes();
    proof {
        assert(name.spec_bytes() == vstd::utf8::encode_utf8(name@));
    }
    let mut out = parent.clone();
    if out.len() > 0 && out[out.len() - 1] != 47u8 {
        out.push(47u8);
    }
    let ghost head = out@;
    let mut i: usize = 0;
    while i < bytes.len()
        invariant
            0 <= i <= bytes@.len(),
            out@ == head + bytes@.subrange(0, i as int),
        decreases bytes@.len() - i,
    {
        out.push(bytes[i]);
        i = i + 1;
        assert(out@ =~= head + bytes@.subrange(0, i as int));
    }
    assert(bytes@.subrange(0, bytes@.len() as int) =~= bytes@);
    out
}

/// The UTF-8 bytes of a text, as a relative path.
pub fn text_path(name: &str) -> (r: Vec<u8>)
    ensures
        r@ == vstd::utf8::encode_utf8(name@),
{
    let bytes = name.as_bytes();
    proof {
        assert(name.spec_bytes() == vstd::utf8::encode_utf8(name@));
    }
    crate::bytes::copy_range(bytes, 0, bytes.len())
}

/// A character kept in a directory slug.
pub open spec fn is_slug_char(c: char) -> bool {
    is_ascii_alnum(c) || c == '-' || c == '_' || c == '.'
}

/// The slug of `chars` continued from `slug`: kept characters stay, and
/// each run of others becomes one `-`, never at the start.
pub open spec fn slug_from(chars: Seq<char>, slug: Seq<char>, last_was_separator: bool) -> Seq<char>
    decreases chars.len(),
{
    if chars.len() == 0 {
        slug
    } else if is_slug_char(chars[0]) {
        slug_from(chars.drop_first(), slug.push(chars[0]), false)
    } else if slug.len() > 0 && !last_was_separator {
        slug_from(chars.drop_first(), slug.push('-'), true)
    } else {
        slug_from(chars.drop_first(), slug, last_was_separator)
    }
}

/// `s` without leading `-`.
pub open spec fn trim_start_dashes(s: Seq<char>) -> Seq<char>
    decreases s.len(),
{
    if s.len() > 0 && s[0] == '-' {
        trim_start_dashes(s.drop_first())
    } else {
        s
    }
}

/// `s` without trailing `-`.
pub open spec fn trim_end_dashes(s: Seq<char>) -> Seq<char>
    decreases s.len(),
{
    if s.len() > 0 && s.last() == '-' {
        trim_end_dashes(s.drop_last())
    } else {
        s
    }
}

/// The directory name of a workspace: the branch's slug without leading or
/// trailing `-` (`workspace` when nothing is left), then `-` and the first
/// eight characters of the workspace ID when it has any.
pub open spec fn workspace_dir_name_of(branch: Seq<char>, workspace_id: Seq<char>) -> Seq<char> {
    let trimmed = trim_end_dashes(trim_start_dashes(slug_from(branch, Seq::empty(), false)));
    let slug = if trimmed.len() == 0 { "workspace"@ } else { trimmed };
    let short_id = if workspace_id.len() <= 8 { workspace_id } else { workspace_id.take(8) };
    if short_id.len() == 0 {
        slug
    } else {
        slug + "-"@ + short_id
    }
}

/// Makes a filesystem-safe directory name from a branch name and a workspace ID.
pub fn workspace_dir_name(branch: &str, workspace_id: &str) -> (r: String)
    ensures
        r@ == workspace_dir_name_of(branch@, workspace_id@),
{
    let chars = str_chars(branch);
    let mut slug: Vec<char> = Vec::new();
    let mut last_was_separator = false;
    let mut i: usize = 0;
    assert(chars@.skip(0) =~= chars@);
    while i < chars.len()
        invariant
            0 <= i <= chars@.len(),
            chars@ == branch@,
            slug_from(branch@, Seq::empty(), false) == slug_from(chars@.skip(i as int), slug@, last_was_separator),
        decreases chars@.len() - i,
    {
        proof {
            assert(chars@.skip(i as int)[0] == chars@[i as int]);
            assert(chars@.skip(i as int).drop_first() =~= chars@.skip(i + 1));
        }
        let c = chars[i];
        if is_ascii_alnum_char(c) || c == '-' || c == '_' || c == '.' {
            slug.push(c);
            last_was_separator = false;
        } else if slug.len() > 0 && !last_was_separator {
            slug.push('-');
            last_was_separator = true;
        }
        i = i + 1;
    }
    proof {
        assert(chars@.skip(i as int).len() == 0);
    }
    let mut start: usize = 0;
    assert(slug@.skip(0) =~= slug@);
    while start < slug.len() && slug[start] == '-'
        invariant
            0 <= start <= slug@.len(),
            trim_start_dashes(slug@) == trim_start_dashes(slug@.skip(start as int)),
        decreases slug@.len() - start,
    {
        proof {
            assert(slug@.skip(start as int).drop_first() =~= slug@.skip(start + 1));
        }
        start = start + 1;
    }
    let ghost rest = slug@.skip(start as int);
    assert(trim_start_dashes(rest) == rest);
    let mut end: usize = slug.len();
    assert(rest.subrange(0, rest.len() as int) =~= rest);
    while end > start && slug[end - 1] == '-'
        invariant
            start <= end <= slug@.len(),
            rest == slug@.skip(start as int),
            trim_end_dashes(rest) == trim_end_dashes(rest.subrange(0, end - start)),
        decreases end,
    {
        proof {
            assert(rest.subrange(0, end - start).drop_last() =~= rest.subrange(0, end - start - 1));
        }
        end = end - 1;
    }
    let ghost kept = rest.subrange(0, end - start);
    assert(trim_end_dashes(kept) == kept);
    let mut out = String::new();
    if end == start {
        crate::text::append_str(&mut out, "workspace");
    } else {
        let mut k: usize = start;
        while k < end
            invariant
                start <= k <= end <= slug@.len(),
                out@ == slug@.subrange(start as int, k as int),
            decreases end - k,
        {
            push_char(&mut out, slug[k]);
            k = k + 1;
            assert(out@ =~= slug@.subrange(start as int, k as int));
        }
        assert(kept =~= slug@.subrange(start as int, end as int));
    }
    let ghost slug_text = out@;
    let id_chars = str_chars(workspace_id);
    let count: usize = if id_chars.len() <= 8 { id_chars.len() } else { 8 };
    if count > 0 {
        push_char(&mut out, '-');
        proof {
            reveal_strlit("-");
            assert(out@ =~= slug_text + "-"@ + id_chars@.subrange(0, 0));
        }
        let mut k: usize = 0;
        while k < count
            invariant
                0 <= k <= count <= id_chars@.len(),
                out@ == slug_text + "-"@ + id_chars@.subrange(0, k as int),
            decreases count - k,
        {
            push_char(&mut out, id_chars[k]);
            k = k + 1;
            assert(out@ =~= slug_text + "-"@ + id_chars@.subrange(0, k as int));
        }
        proof {
            reveal_strlit("-");
            assert(slug_text.push('-') =~= slug_text + "-"@);
            if id_chars@.len() <= 8 {
                assert(id_chars@.subrange(0, count as int) =~= id_chars@);
            } else {
                assert(id_chars@.subrange(0, count as int) =~= id_chars@.take(8));
            }
        }
    } else {
        proof {
            if id_chars@.len() > 8 {
                assert(false);
            }
        }
    }
    out
}

/// A slug a directory name can start with: not empty, only `[A-Za-z0-9._-]`,
/// and no `-` at either end.
pub open spec fn is_safe_slug(s: Seq<char>) -> bool {
    &&& s.len() > 0
    &&& forall|i: int| 0 <= i < s.len() ==> is_slug_char(#[trigger] s[i])
    &&& s[0] != '-'
    &&& s.last() != '-'
}

proof fn lemma_slug_from_chars(chars: Seq<char>, slug: Seq<char>, last: bool)
    requires
        forall|i: int| 0 <= i < slug.len() ==> is_slug_char(#[trigger] slug[i]),
    ensures
        forall|i: int| 0 <= i < slug_from(chars, slug, last).len() ==> is_slug_char(#[trigger] slug_from(chars, slug, last)[i]),
    decreases chars.len(),
{
    if chars.len() > 0 {
        if is_slug_char(chars[0]) {
            let next = slug.push(chars[0]);
            assert forall|i: int| 0 <= i < next.len() implies is_slug_char(#[trigger] next[i]) by {
                if i < slug.len() {
                    assert(next[i] == slug[i]);
                }
            }
            lemma_slug_from_chars(chars.drop_first(), next, false);
            assert(slug_from(chars, slug, last) == slug_from(chars.drop_first(), next, false));
        } else if slug.len() > 0 && !last {
            let next = slug.push('-');
            assert forall|i: int| 0 <= i < next.len() implies is_slug_char(#[trigger] next[i]) by {
                if i < slug.len() {
                    assert(next[i] == slug[i]);
                }
            }
            lemma_slug_from_chars(chars.drop_first(), next, true);
            assert(slug_from(chars, slug, last) == slug_from(chars.drop_first(), next, true));
        } else {
            lemma_slug_from_chars(chars.drop_first(), slug, last);
            assert(slug_from(chars, slug, last) == slug_from(chars.drop_first(), slug, last));
        }
    }
}

proof fn lemma_trim_start_dashes(s: Seq<char>)
    ensures
        exists|k: int| 0 <= k <= s.len() && trim_start_dashes(s) == s.skip(k),
        trim_start_dashes(s).len() > 0 ==> trim_start_dashes(s)[0] != '-',
    decreases s.len(),
{
    if s.len() > 0 && s[0] == '-' {
        lemma_trim_start_dashes(s.drop_first());
        let k = choose|k: int| 0 <= k <= s.drop_first().len() && trim_start_dashes(s.drop_first()) == s.drop_first().skip(k);
        assert(s.drop_first().skip(k) =~= s.skip(k + 1));
    } else {
        assert(s.skip(0) =~= s);
    }
}

proof fn lemma_trim_end_dashes(s: Seq<char>)
    ensures
        exists|k: int| 0 <= k <= s.len() && trim_end_dashes(s) == s.take(k),
        trim_end_dashes(s).len() > 0 ==> trim_end_dashes(s).last() != '-',
    decreases s.len(),
{
    if s.len() > 0 && s.last() == '-' {
        lemma_trim_end_dashes(s.drop_last());
        let k = choose|k: int| 0 <= k <= s.drop_last().len() && trim_end_dashes(s.drop_last()) == s.drop_last().take(k);
        assert(s.drop_last().take(k) =~= s.take(k));
    } else {
        assert(s.take(s.len() as int) =~= s);
    }
}

/// A workspace directory name is a safe slug of the branch, then `-` and at
/// most eight characters of the workspace ID when it has any.
pub proof fn law_workspace_dir_name_is_safe(branch: Seq<char>, workspace_id: Seq<char>)
    ensures
        exists|slug: Seq<char>|
            #![trigger is_safe_slug(slug)]
            is_safe_slug(slug) && ({
                let short_id = if workspace_id.len() <= 8 { workspace_id } else { workspace_id.take(8) };
                workspace_dir_name_of(branch, workspace_id) == if short_id.len() == 0 { slug } else { slug + "-"@ + short_id }
            }),
{
    let raw = slug_from(branch, Seq::empty(), false);
    lemma_slug_from_chars(branch, Seq::empty(), false);
    let started = trim_start_dashes(raw);
    lemma_trim_start_dashes(raw);
    let trimmed = trim_end_dashes(started);
    lemma_trim_end_dashes(started);
    let k1 = choose|k: int| 0 <= k <= raw.len() && started == raw.skip(k);
    let k2 = choose|k: int| 0 <= k <= started.len() && trimmed == started.take(k);
    assert forall|i: int| 0 <= i < trimmed.len() implies is_slug_char(#[trigger] trimmed[i]) by {
        assert(trimmed[i] == raw[i + k1]);
    }
    if trimmed.len() > 0 {
        assert(trimmed[0] == started[0]);
    }
    let slug = if trimmed.len() == 0 { "workspace"@ } else { trimmed };
    reveal_strlit("workspace");
    assert(is_safe_slug(slug));
}

} // verus!
