//! Branch and worktree naming, and the reading of a worktree's status report.

use crate::text::{
    chars_of, is_alphanumeric, is_alphanumeric_char, is_prefix, lines, lines_of, lowercase_of,
    nonempty_trimmed, push_text, starts_with, string_of, string_of_range, to_lowercase,
    trimmed_output,
};
use vstd::prelude::*;
use vstd::string::*;

verus! {

/// Counts of changed entries in a worktree.
#[derive(Debug, Clone, Copy)]
pub struct DirtyStatus {
    pub staged: usize,
    pub unstaged: usize,
    pub untracked: usize,
}

impl DirtyStatus {
    /// Whether anything is changed: staged, unstaged or untracked.
    pub fn is_dirty(&self) -> (r: bool)
        ensures
            r == (self.staged > 0 || self.unstaged > 0 || self.untracked > 0),
    {
        self.staged > 0 || self.unstaged > 0 || self.untracked > 0
    }
}

/// Whether a worktree has uncommitted changes, given its status where it
/// could be read. A worktree whose status could not be read counts as clean.
pub fn is_worktree_dirty(status: &Option<DirtyStatus>) -> (r: bool)
    ensures
        r == match *status {
            Some(s) => s.staged > 0 || s.unstaged > 0 || s.untracked > 0,
            None => false,
        },
{
    match status {
        Some(s) => s.is_dirty(),
        None => false,
    }
}

/// The text with every character that is not alphanumeric replaced by a dash.
pub open spec fn dashed(s: Seq<char>) -> Seq<char> {
    Seq::new(
        s.len(),
        |i: int|
            if is_alphanumeric_char(s[i]) {
                s[i]
            } else {
                '-'
            },
    )
}

/// The runs of characters other than dashes, joined by single dashes.
pub open spec fn slug(s: Seq<char>) -> Seq<char>
    decreases s.len(),
{
    if s.len() == 0 {
        Seq::empty()
    } else {
        let init = s.drop_last();
        let c = s.last();
        if c == '-' {
            slug(init)
        } else if init.len() > 0 && init.last() == '-' && slug(init).len() > 0 {
            slug(init).push('-').push(c)
        } else {
            slug(init).push(c)
        }
    }
}

/// The branch name for a text in which dashes stand for everything that a
/// branch name cannot hold: `wb/` and the slug, or `wb/session` if the slug
/// is empty.
pub open spec fn branch_of(d: Seq<char>) -> Seq<char> {
    if slug(d).len() == 0 {
        "wb/"@ + "session"@
    } else {
        "wb/"@ + slug(d)
    }
}

/// A slug neither begins nor ends with a dash and holds no two dashes in a row.
pub proof fn lemma_slug_shape(s: Seq<char>)
    ensures
        slug(s).len() > 0 ==> slug(s)[0] != '-' && slug(s).last() != '-',
        forall|i: int|
            0 <= i < slug(s).len() - 1 ==> !(#[trigger] slug(s)[i] == '-' && slug(s)[i + 1] == '-'),
    decreases s.len(),
{
    if s.len() > 0 {
        lemma_slug_shape(s.drop_last());
    }
}

/// Branch name for a text already lowercased and dashed.
pub fn branch_from_dashed(d: &Vec<char>) -> (r: String)
    ensures
        r@ == branch_of(d@),
{
    let mut out: Vec<char> = Vec::new();
    let mut i: usize = 0;
    while i < d.len()
        invariant
            i <= d.len(),
            out@ == slug(d@.subrange(0, i as int)),
        decreases d.len() - i,
    {
        let c = d[i];
        proof {
            let next = d@.subrange(0, i + 1);
            assert(next.drop_last() == d@.subrange(0, i as int));
            assert(next.last() == c);
        }
        if c != '-' {
            if i > 0 && d[i - 1] == '-' && out.len() > 0 {
                out.push('-');
            }
            out.push(c);
        }
        i += 1;
    }
    assert(d@.subrange(0, d.len() as int) == d@);
    let mut r = String::from_str("wb/");
    if out.len() == 0 {
        r.append("session");
    } else {
        let body = string_of(&out);
        r.append(body.as_str());
    }
    r
}

/// Turns a session name into a branch name: lowercased, every run of
/// characters that are not alphanumeric turned into one dash, no dash at
/// either end, behind the prefix `wb/`.
pub fn sanitize_branch_name(session_name: &str) -> (r: String)
    ensures
        r@ == branch_of(dashed(lowercase_of(session_name@))),
{
    let lower = to_lowercase(session_name);
    let chars = chars_of(lower.as_str());
    let mut d: Vec<char> = Vec::new();
    let mut i: usize = 0;
    while i < chars.len()
        invariant
            i <= chars.len(),
            d@ == dashed(chars@).subrange(0, i as int),
        decreases chars.len() - i,
    {
        let c = chars[i];
        if is_alphanumeric(c) {
            d.push(c);
        } else {
            d.push('-');
        }
        assert(d@ == dashed(chars@).subrange(0, i + 1));
        i += 1;
    }
    assert(d@ == dashed(chars@));
    branch_from_dashed(&d)
}

/// The branch name without the prefix `wb/`, if it has it.
pub open spec fn branch_suffix(b: Seq<char>) -> Seq<char> {
    if is_prefix("wb/"@, b) {
        b.subrange("wb/"@.len() as int, b.len() as int)
    } else {
        b
    }
}

/// The path of the worktree for a branch: the repository's path, a dash,
/// and the branch name without its `wb/` prefix.
pub fn generate_worktree_path(repo_path: &str, branch_name: &str) -> (r: String)
    ensures
        r@ == repo_path@ + "-"@ + branch_suffix(branch_name@),
{
    let branch = chars_of(branch_name);
    let prefix = chars_of("wb/");
    let mut r = String::from_str(repo_path);
    r.append("-");
    if starts_with(&branch, &prefix) {
        let rest = string_of_range(&branch, prefix.len(), branch.len());
        r.append(rest.as_str());
    } else {
        r.append(branch_name);
    }
    r
}

/// Whether a line of a status report is too short to describe an entry: its
/// UTF-8 encoding has fewer than two bytes.
pub open spec fn too_short(line: Seq<char>) -> bool {
    line.len() == 0 || (line.len() == 1 && (line[0] as u32) < 0x80)
}

/// The second status character of a line, a space where there is none.
pub open spec fn worktree_mark(line: Seq<char>) -> char {
    if line.len() >= 2 {
        line[1]
    } else {
        ' '
    }
}

/// The line reports a change recorded in the index.
pub open spec fn is_staged(line: Seq<char>) -> bool {
    !too_short(line) && line[0] != ' ' && line[0] != '?'
}

/// The line reports a change in the worktree that the index lacks.
pub open spec fn is_unstaged(line: Seq<char>) -> bool {
    !too_short(line) && worktree_mark(line) != ' ' && worktree_mark(line) != '?'
}

/// The line reports a file that is not tracked.
pub open spec fn is_untracked(line: Seq<char>) -> bool {
    !too_short(line) && line[0] == '?'
}

/// How many of the lines satisfy `p`.
pub open spec fn count_lines(ls: Seq<Seq<char>>, p: spec_fn(Seq<char>) -> bool) -> nat
    decreases ls.len(),
{
    if ls.len() == 0 {
        0
    } else {
        count_lines(ls.drop_last(), p) + if p(ls.last()) {
            1nat
        } else {
            0nat
        }
    }
}

/// No more lines satisfy a predicate than there are lines.
pub proof fn lemma_count_lines_bound(ls: Seq<Seq<char>>, p: spec_fn(Seq<char>) -> bool)
    ensures
        count_lines(ls, p) <= ls.len(),
    decreases ls.len(),
{
    if ls.len() > 0 {
        lemma_count_lines_bound(ls.drop_last(), p);
    }
}

/// Reads the short-format status report of a worktree, one entry per line:
/// counts the entries with a change in the index, those with a change in the
/// worktree, and the untracked ones.
pub fn get_dirty_status(report: &str) -> (r: DirtyStatus)
    ensures
        r.staged == count_lines(lines_of(report@), |l: Seq<char>| is_staged(l)),
        r.unstaged == count_lines(lines_of(report@), |l: Seq<char>| is_unstaged(l)),
        r.untracked == count_lines(lines_of(report@), |l: Seq<char>| is_untracked(l)),
{
    let chars = chars_of(report);
    let ls = lines(&chars);
    let ghost all = lines_of(report@);
    let ghost staged_p = |l: Seq<char>| is_staged(l);
    let ghost unstaged_p = |l: Seq<char>| is_unstaged(l);
    let ghost untracked_p = |l: Seq<char>| is_untracked(l);
    let mut staged: usize = 0;
    let mut unstaged: usize = 0;
    let mut untracked: usize = 0;
    let mut i: usize = 0;
    while i < ls.len()
        invariant
            i <= ls.len(),
            ls.deep_view() == all,
            staged_p == (|l: Seq<char>| is_staged(l)),
            unstaged_p == (|l: Seq<char>| is_unstaged(l)),
            untracked_p == (|l: Seq<char>| is_untracked(l)),
            staged == count_lines(all.subrange(0, i as int), staged_p),
            unstaged == count_lines(all.subrange(0, i as int), unstaged_p),
            untracked == count_lines(all.subrange(0, i as int), untracked_p),
        decreases ls.len() - i,
    {
        let line = &ls[i];
        proof {
            let next = all.subrange(0, i + 1);
            assert(next.drop_last() == all.subrange(0, i as int));
            assert(next.last() =~= line@);
            lemma_count_lines_bound(next, staged_p);
            lemma_count_lines_bound(next, unstaged_p);
            lemma_count_lines_bound(next, untracked_p);
        }
        let short = line.len() == 0 || (line.len() == 1 && (line[0] as u32) < 0x80);
        if !short {
            let index_mark = line[0];
            let tree_mark = if line.len() >= 2 {
                line[1]
            } else {
                ' '
            };
            if index_mark != ' ' && index_mark != '?' {
                staged += 1;
            }
            if tree_mark != ' ' && tree_mark != '?' {
                unstaged += 1;
            }
            if index_mark == '?' {
                untracked += 1;
            }
        }
        i += 1;
    }
    assert(all.subrange(0, ls.len() as int) == all);
    DirtyStatus { staged, unstaged, untracked }
}

/// Arguments that make the version control work in a directory.
fn in_directory(path: &str) -> (r: Vec<String>)
    ensures
        r.deep_view() == seq!["-C"@, path@],
{
    let mut v: Vec<String> = Vec::new();
    push_text(&mut v, "-C");
    push_text(&mut v, path);
    assert(v.deep_view() =~= seq!["-C"@, path@]);
    v
}

/// Arguments that print the root of the repository that holds a path.
pub fn repo_root_args(path: &str) -> (r: Vec<String>)
    ensures
        r.deep_view() == seq!["-C"@, path@, "rev-parse"@, "--show-toplevel"@],
{
    let mut v = in_directory(path);
    push_text(&mut v, "rev-parse");
    push_text(&mut v, "--show-toplevel");
    assert(v.deep_view() =~= seq!["-C"@, path@, "rev-parse"@, "--show-toplevel"@]);
    v
}

/// Arguments that print the branch checked out in a directory.
pub fn current_branch_args(directory: &str) -> (r: Vec<String>)
    ensures
        r.deep_view() == seq!["-C"@, directory@, "rev-parse"@, "--abbrev-ref"@, "HEAD"@],
{
    let mut v = in_directory(directory);
    push_text(&mut v, "rev-parse");
    push_text(&mut v, "--abbrev-ref");
    push_text(&mut v, "HEAD");
    assert(v.deep_view() =~= seq!["-C"@, directory@, "rev-parse"@, "--abbrev-ref"@, "HEAD"@]);
    v
}

/// Arguments that ask whether a branch exists in a repository.
pub fn branch_exists_args(repo_path: &str, branch_name: &str) -> (r: Vec<String>)
    ensures
        r.deep_view() == seq![
            "-C"@,
            repo_path@,
            "show-ref"@,
            "--verify"@,
            "--quiet"@,
            "refs/heads/"@ + branch_name@,
        ],
{
    let mut v = in_directory(repo_path);
    push_text(&mut v, "show-ref");
    push_text(&mut v, "--verify");
    push_text(&mut v, "--quiet");
    let mut reference = String::from_str("refs/heads/");
    reference.append(branch_name);
    push_text(&mut v, reference.as_str());
    assert(v.deep_view() =~= seq![
        "-C"@,
        repo_path@,
        "show-ref"@,
        "--verify"@,
        "--quiet"@,
        "refs/heads/"@ + branch_name@,
    ]);
    v
}

/// Arguments that print the short-format status report of a worktree.
pub fn status_args(path: &str) -> (r: Vec<String>)
    ensures
        r.deep_view() == seq!["-C"@, path@, "status"@, "--porcelain"@],
{
    let mut v = in_directory(path);
    push_text(&mut v, "status");
    push_text(&mut v, "--porcelain");
    assert(v.deep_view() =~= seq!["-C"@, path@, "status"@, "--porcelain"@]);
    v
}

/// The arguments that add a worktree: for a branch that exists the branch is
/// checked out there, else it is made there.
pub open spec fn worktree_add(
    repo_path: Seq<char>,
    branch_name: Seq<char>,
    worktree_path: Seq<char>,
    branch_exists: bool,
) -> Seq<Seq<char>> {
    if branch_exists {
        seq!["-C"@, repo_path, "worktree"@, "add"@, worktree_path, branch_name]
    } else {
        seq!["-C"@, repo_path, "worktree"@, "add"@, "-b"@, branch_name, worktree_path]
    }
}

/// Plans the making of a worktree from what was found out: whether
/// something is at the path already, and whether the branch exists. A path
/// that is taken is refused, with a message.
pub fn create_worktree(
    repo_path: &str,
    branch_name: &str,
    worktree_path: &str,
    path_exists: bool,
    branch_exists: bool,
) -> (r: Result<Vec<String>, String>)
    ensures
        match r {
            Ok(args) => !path_exists && args.deep_view() == worktree_add(
                repo_path@,
                branch_name@,
                worktree_path@,
                branch_exists,
            ),
            Err(message) => path_exists && message@ == "Worktree path already exists: "@
                + worktree_path@,
        },
{
    if path_exists {
        let mut message = String::from_str("Worktree path already exists: ");
        message.append(worktree_path);
        return Err(message);
    }
    let mut v = in_directory(repo_path);
    push_text(&mut v, "worktree");
    push_text(&mut v, "add");
    if branch_exists {
        push_text(&mut v, worktree_path);
        push_text(&mut v, branch_name);
    } else {
        push_text(&mut v, "-b");
        push_text(&mut v, branch_name);
        push_text(&mut v, worktree_path);
    }
    assert(v.deep_view() =~= worktree_add(
        repo_path@,
        branch_name@,
        worktree_path@,
        branch_exists,
    ));
    Ok(v)
}

/// Arguments that remove a worktree, by force if asked.
pub fn remove_worktree_args(repo_path: &str, worktree_path: &str, force: bool) -> (r: Vec<String>)
    ensures
        r.deep_view() == if force {
            seq!["-C"@, repo_path@, "worktree"@, "remove"@, "--force"@, worktree_path@]
        } else {
            seq!["-C"@, repo_path@, "worktree"@, "remove"@, worktree_path@]
        },
{
    let mut v = in_directory(repo_path);
    push_text(&mut v, "worktree");
    push_text(&mut v, "remove");
    if force {
        push_text(&mut v, "--force");
    }
    push_text(&mut v, worktree_path);
    assert(v.deep_view() =~= if force {
        seq!["-C"@, repo_path@, "worktree"@, "remove"@, "--force"@, worktree_path@]
    } else {
        seq!["-C"@, repo_path@, "worktree"@, "remove"@, worktree_path@]
    });
    v
}

/// The root of a repository, from what the version control printed for it:
/// the text without the whitespace around it, or `None` if nothing is left.
pub fn get_repo_root(output: &str) -> (r: Option<String>)
    ensures
        match r {
            Some(s) => nonempty_trimmed(output@) == Some(s@),
            None => nonempty_trimmed(output@) is None,
        },
{
    trimmed_output(output)
}

} // verus!
