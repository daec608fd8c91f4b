//! Terminal sessions: how they are named, found in a listing and classified.

use crate::text::{
    chars_of, contains, contains_chars, decimal_i64, decimal_u64, int_decimal, is_prefix, joined,
    lines, lines_of, nonempty_trimmed, push_text, starts_with, string_of, trimmed_output,
};
use vstd::prelude::*;
use vstd::string::*;

verus! {

/// The name of the terminal session of a work session.
pub open spec fn session_name_of(project_id: int, session_id: int) -> Seq<char> {
    "workbench-"@ + int_decimal(project_id) + "-"@ + int_decimal(session_id)
}

/// What the names of all terminal sessions of a project begin with.
pub open spec fn project_prefix_of(project_id: int) -> Seq<char> {
    "workbench-"@ + int_decimal(project_id) + "-"@
}

/// The name of the terminal session of a work session:
/// `workbench-{project_id}-{session_id}`.
pub fn session_name(project_id: i64, session_id: i64) -> (r: String)
    ensures
        r@ == session_name_of(project_id as int, session_id as int),
{
    let mut r = project_prefix(project_id);
    let s = decimal_i64(session_id);
    r.append(s.as_str());
    r
}

/// What the names of all terminal sessions of a project begin with:
/// `workbench-{project_id}-`.
pub fn project_prefix(project_id: i64) -> (r: String)
    ensures
        r@ == project_prefix_of(project_id as int),
{
    let mut r = String::from_str("workbench-");
    let p = decimal_i64(project_id);
    r.append(p.as_str());
    r.append("-");
    r
}

/// The name to use when the regular name is taken: the regular name, a dash
/// and the time in seconds.
pub fn suffixed_name(base_name: &str, seconds: u64) -> (r: String)
    ensures
        r@ == base_name@ + "-"@ + int_decimal(seconds as int),
{
    let mut r = joined(base_name, "-");
    let t = decimal_u64(seconds);
    r.append(t.as_str());
    r
}

/// The lines that begin with `prefix`, in their order.
pub open spec fn with_prefix(ls: Seq<Seq<char>>, prefix: Seq<char>) -> Seq<Seq<char>>
    decreases ls.len(),
{
    if ls.len() == 0 {
        Seq::empty()
    } else if is_prefix(prefix, ls.last()) {
        with_prefix(ls.drop_last(), prefix).push(ls.last())
    } else {
        with_prefix(ls.drop_last(), prefix)
    }
}

/// The names in a listing of terminal sessions, one per line, that begin
/// with `prefix`.
pub fn sessions_with_prefix(listing: &str, prefix: &str) -> (r: Vec<String>)
    ensures
        r.deep_view() == with_prefix(lines_of(listing@), prefix@),
{
    let chars = chars_of(listing);
    let ls = lines(&chars);
    let p = chars_of(prefix);
    let ghost all = lines_of(listing@);
    let mut out: Vec<String> = Vec::new();
    let mut i: usize = 0;
    while i < ls.len()
        invariant
            i <= ls.len(),
            ls.deep_view() == all,
            p@ == prefix@,
            out.deep_view() == with_prefix(all.subrange(0, i as int), prefix@),
        decreases ls.len() - i,
    {
        let line = &ls[i];
        proof {
            let next = all.subrange(0, i + 1);
            assert(next.drop_last() == all.subrange(0, i as int));
            assert(next.last() =~= line@);
        }
        if starts_with(line, &p) {
            let ghost before = out.deep_view();
            let name = string_of(line);
            out.push(name);
            assert(out.deep_view() =~= before.push(line@));
        }
        i += 1;
    }
    assert(all.subrange(0, ls.len() as int) == all);
    out
}

/// The terminal sessions of this tool among those of a listing, one name
/// per line: the names that begin with `workbench-`.
pub fn list_workbench_sessions(listing: &str) -> (r: Vec<String>)
    ensures
        r.deep_view() == with_prefix(lines_of(listing@), "workbench-"@),
{
    sessions_with_prefix(listing, "workbench-")
}

/// The terminal sessions of one project among those of a listing, one name
/// per line: the names that begin with `workbench-{project_id}-`.
pub fn list_project_sessions(listing: &str, project_id: i64) -> (r: Vec<String>)
    ensures
        r.deep_view() == with_prefix(lines_of(listing@), project_prefix_of(project_id as int)),
{
    let prefix = project_prefix(project_id);
    sessions_with_prefix(listing, prefix.as_str())
}

/// The phrases that show a prompt waiting for an answer.
pub open spec fn prompt_phrases() -> Seq<Seq<char>> {
    seq![
        "Enter to select"@,
        "Do you want to"@,
        "yes/yes to all/no"@,
        "Allow once"@,
        "Allow always"@,
        "(y/n)"@,
        "[Y/n]"@,
        "[y/N]"@,
    ]
}

/// The line holds one of the prompt phrases.
pub open spec fn is_prompt_line(line: Seq<char>) -> bool {
    exists|k: int| 0 <= k < prompt_phrases().len() && contains(line, #[trigger] prompt_phrases()[k])
}

/// The last `n` lines, or all of them if there are fewer.
pub open spec fn last_lines(ls: Seq<Seq<char>>, n: int) -> Seq<Seq<char>> {
    if ls.len() <= n {
        ls
    } else {
        ls.subrange(ls.len() - n, ls.len() as int)
    }
}

/// The text of a pane shows a prompt: one of its last five lines holds one
/// of the prompt phrases.
pub open spec fn shows_prompt(content: Seq<char>) -> bool {
    let tail = last_lines(lines_of(content), 5);
    exists|j: int| 0 <= j < tail.len() && is_prompt_line(#[trigger] tail[j])
}

/// Only the last five lines count: two texts with the same last five lines
/// show a prompt or show none together, whatever stands before those lines.
pub proof fn lemma_only_the_tail_counts(a: Seq<char>, b: Seq<char>)
    requires
        last_lines(lines_of(a), 5) == last_lines(lines_of(b), 5),
    ensures
        shows_prompt(a) == shows_prompt(b),
{
}

/// A prompt phrase in one of the last five lines shows a prompt.
pub proof fn lemma_phrase_in_tail_shows(content: Seq<char>, j: int, k: int)
    requires
        0 <= j < last_lines(lines_of(content), 5).len(),
        0 <= k < prompt_phrases().len(),
        contains(last_lines(lines_of(content), 5)[j], prompt_phrases()[k]),
    ensures
        shows_prompt(content),
{
    let tail = last_lines(lines_of(content), 5);
    assert(is_prompt_line(tail[j]));
}

/// The phrases that show a prompt waiting for an answer.
fn phrases() -> (r: Vec<Vec<char>>)
    ensures
        r.deep_view() == prompt_phrases(),
{
    let mut r: Vec<Vec<char>> = Vec::new();
    r.push(chars_of("Enter to select"));
    r.push(chars_of("Do you want to"));
    r.push(chars_of("yes/yes to all/no"));
    r.push(chars_of("Allow once"));
    r.push(chars_of("Allow always"));
    r.push(chars_of("(y/n)"));
    r.push(chars_of("[Y/n]"));
    r.push(chars_of("[y/N]"));
    assert(r.deep_view() =~~= prompt_phrases());
    r
}

/// Whether the line holds one of the prompt phrases.
fn line_has_prompt(line: &Vec<char>, ps: &Vec<Vec<char>>) -> (r: bool)
    requires
        ps.deep_view() == prompt_phrases(),
    ensures
        r == is_prompt_line(line@),
{
    let mut k: usize = 0;
    while k < ps.len()
        invariant
            k <= ps.len(),
            ps.deep_view() == prompt_phrases(),
            forall|m: int| 0 <= m < k ==> !contains(line@, #[trigger] prompt_phrases()[m]),
        decreases ps.len() - k,
    {
        assert(ps.deep_view()[k as int] =~= ps[k as int]@);
        if contains_chars(line, &ps[k]) {
            return true;
        }
        k += 1;
    }
    false
}

/// Whether the text captured from a pane shows a prompt that waits for the
/// user: whether one of its last five lines holds one of the prompt phrases.
pub fn is_waiting_for_input(content: &str) -> (r: bool)
    ensures
        r == shows_prompt(content@),
{
    let chars = chars_of(content);
    let ls = lines(&chars);
    let ps = phrases();
    let ghost tail = last_lines(lines_of(content@), 5);
    let first: usize = if ls.len() <= 5 {
        0
    } else {
        ls.len() - 5
    };
    let mut i: usize = first;
    while i < ls.len()
        invariant
            first <= i <= ls.len(),
            first == if ls.len() <= 5 { 0 } else { ls.len() - 5 },
            ls.deep_view() == lines_of(content@),
            tail == last_lines(lines_of(content@), 5),
            ps.deep_view() == prompt_phrases(),
            forall|j: int| 0 <= j < i - first ==> !is_prompt_line(#[trigger] tail[j]),
        decreases ls.len() - i,
    {
        assert(tail[i - first] =~= ls[i as int]@);
        if line_has_prompt(&ls[i], &ps) {
            return true;
        }
        i += 1;
    }
    false
}

/// The working directory of a pane, from what the terminal multiplexer
/// printed for it: the text without the whitespace around it, or `None` if
/// nothing is left.
pub fn get_pane_cwd(output: &str) -> (r: Option<String>)
    ensures
        match r {
            Some(s) => nonempty_trimmed(output@) == Some(s@),
            None => nonempty_trimmed(output@) is None,
        },
{
    trimmed_output(output)
}

/// The branch checked out in a directory, from what the version control
/// printed for it: the text without the whitespace around it, or `None` if
/// nothing is left.
pub fn get_git_branch(output: &str) -> (r: Option<String>)
    ensures
        match r {
            Some(s) => nonempty_trimmed(output@) == Some(s@),
            None => nonempty_trimmed(output@) is None,
        },
{
    trimmed_output(output)
}

/// Whether the controller runs inside a terminal multiplexer session, given
/// the indicator variable of the environment: it is set and not empty.
pub fn is_inside_tmux(indicator: &Option<String>) -> (r: bool)
    ensures
        r == match *indicator {
            Some(v) => v@.len() > 0,
            None => false,
        },
{
    match indicator {
        Some(v) => !v.as_str().is_empty(),
        None => false,
    }
}

/// How to open the terminal of a session.
#[derive(Debug, Clone)]
pub enum TerminalPlan {
    /// The terminal multiplexer is not there: do nothing.
    Unavailable,
    /// Attach to the named terminal session, which lives.
    Attach(String),
    /// Make a terminal session of this name, record it and attach to it.
    Create(String),
}

/// How to open the terminal of a session, over plain values.
pub enum TerminalPlanView {
    Unavailable,
    Attach(Seq<char>),
    Create(Seq<char>),
}

impl View for TerminalPlan {
    type V = TerminalPlanView;

    open spec fn view(&self) -> TerminalPlanView {
        match *self {
            TerminalPlan::Unavailable => TerminalPlanView::Unavailable,
            TerminalPlan::Attach(name) => TerminalPlanView::Attach(name@),
            TerminalPlan::Create(name) => TerminalPlanView::Create(name@),
        }
    }
}

/// The plan for opening a terminal: nothing without the multiplexer; the
/// session on record if it lives; else a new one under the regular name,
/// or, where that name is taken, under the name with the time behind it.
pub open spec fn terminal_plan(
    available: bool,
    stored: Option<Seq<char>>,
    stored_exists: bool,
    base_name: Seq<char>,
    base_exists: bool,
    seconds: int,
) -> TerminalPlanView {
    if !available {
        TerminalPlanView::Unavailable
    } else if stored is Some && stored_exists {
        TerminalPlanView::Attach(stored->Some_0)
    } else if base_exists {
        TerminalPlanView::Create(base_name + "-"@ + int_decimal(seconds))
    } else {
        TerminalPlanView::Create(base_name)
    }
}

/// Decides how to open the terminal of a session from what was found out:
/// whether the terminal multiplexer is there, the terminal session on record
/// and whether it lives, the regular name and whether it is taken, and the
/// time in seconds since the epoch.
pub fn plan_terminal(
    available: bool,
    stored: &Option<String>,
    stored_exists: bool,
    base_name: &str,
    base_exists: bool,
    seconds: u64,
) -> (r: TerminalPlan)
    ensures
        r@ == terminal_plan(
            available,
            crate::db::opt_text(*stored),
            stored_exists,
            base_name@,
            base_exists,
            seconds as int,
        ),
{
    if !available {
        return TerminalPlan::Unavailable;
    }
    match stored {
        Some(name) => {
            if stored_exists {
                return TerminalPlan::Attach(name.clone());
            }
        },
        None => {},
    }
    if base_exists {
        TerminalPlan::Create(suffixed_name(base_name, seconds))
    } else {
        TerminalPlan::Create(String::from_str(base_name))
    }
}

/// Arguments that ask the terminal multiplexer for its version, to see
/// whether it is there.
pub fn version_args() -> (r: Vec<String>)
    ensures
        r.deep_view() == seq!["-V"@],
{
    let mut v: Vec<String> = Vec::new();
    push_text(&mut v, "-V");
    assert(v.deep_view() =~= seq!["-V"@]);
    v
}

/// Arguments of a command aimed at the session of a name.
fn targeted(command: &str, name: &str) -> (r: Vec<String>)
    ensures
        r.deep_view() == seq![command@, "-t"@, name@],
{
    let mut v: Vec<String> = Vec::new();
    push_text(&mut v, command);
    push_text(&mut v, "-t");
    push_text(&mut v, name);
    assert(v.deep_view() =~= seq![command@, "-t"@, name@]);
    v
}

/// Arguments that ask whether a session of the name lives.
pub fn has_session_args(name: &str) -> (r: Vec<String>)
    ensures
        r.deep_view() == seq!["has-session"@, "-t"@, name@],
{
    targeted("has-session", name)
}

/// Arguments that make a detached session of the name in a working
/// directory.
pub fn new_session_args(name: &str, working_dir: &str) -> (r: Vec<String>)
    ensures
        r.deep_view() == seq!["new-session"@, "-d"@, "-s"@, name@, "-c"@, working_dir@],
{
    let mut v: Vec<String> = Vec::new();
    push_text(&mut v, "new-session");
    push_text(&mut v, "-d");
    push_text(&mut v, "-s");
    push_text(&mut v, name);
    push_text(&mut v, "-c");
    push_text(&mut v, working_dir);
    assert(v.deep_view() =~= seq!["new-session"@, "-d"@, "-s"@, name@, "-c"@, working_dir@]);
    v
}

/// Arguments that hand the terminal to a session: inside a session of the
/// terminal multiplexer the client is switched over, which returns at once;
/// outside, the session is attached, which lasts until the user detaches.
pub fn attach_args(name: &str, inside_tmux: bool) -> (r: Vec<String>)
    ensures
        r.deep_view() == if inside_tmux {
            seq!["switch-client"@, "-t"@, name@]
        } else {
            seq!["attach-session"@, "-t"@, name@]
        },
{
    if inside_tmux {
        targeted("switch-client", name)
    } else {
        targeted("attach-session", name)
    }
}

/// Arguments that list the names of the live sessions, one per line.
pub fn list_sessions_args() -> (r: Vec<String>)
    ensures
        r.deep_view() == seq!["list-sessions"@, "-F"@, "#{session_name}"@],
{
    let mut v: Vec<String> = Vec::new();
    push_text(&mut v, "list-sessions");
    push_text(&mut v, "-F");
    push_text(&mut v, "#{session_name}");
    assert(v.deep_view() =~= seq!["list-sessions"@, "-F"@, "#{session_name}"@]);
    v
}

/// Arguments that end a session.
pub fn kill_session_args(name: &str) -> (r: Vec<String>)
    ensures
        r.deep_view() == seq!["kill-session"@, "-t"@, name@],
{
    targeted("kill-session", name)
}

/// Arguments that print the visible text of a session's pane.
pub fn capture_pane_args(name: &str) -> (r: Vec<String>)
    ensures
        r.deep_view() == seq!["capture-pane"@, "-t"@, name@, "-p"@],
{
    let mut v = targeted("capture-pane", name);
    push_text(&mut v, "-p");
    assert(v.deep_view() =~= seq!["capture-pane"@, "-t"@, name@, "-p"@]);
    v
}

/// Arguments that print the working directory of a session's pane.
pub fn pane_cwd_args(name: &str) -> (r: Vec<String>)
    ensures
        r.deep_view() == seq![
            "display-message"@,
            "-t"@,
            name@,
            "-p"@,
            "#{pane_current_path}"@,
        ],
{
    let mut v = targeted("display-message", name);
    push_text(&mut v, "-p");
    push_text(&mut v, "#{pane_current_path}");
    assert(v.deep_view() =~= seq![
        "display-message"@,
        "-t"@,
        name@,
        "-p"@,
        "#{pane_current_path}"@,
    ]);
    v
}

} // verus!
