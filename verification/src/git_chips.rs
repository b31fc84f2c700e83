//! Click-action payload encoding and filtering for the branch and worktree
//! chips of the prompt toolbar.
//!
//! The branch chip lists branches from `git branch` output, dropping entries
//! checked out in a linked worktree (marked `+`) and keeping the current
//! branch (marked `*`) first. The worktree chip lists every worktree from
//! `git worktree list --porcelain`, in the order git prints them.

use vstd::prelude::*;
use crate::text::{
    chars_of, find_char, find_char_from, has_prefix_at, is_whitespace, is_ws, lemma_find_char_is,
    lemma_find_char_none, opt_view, push_char, push_str, range_eq, rfind_char, rfind_char_before,
    starts_with, string_from, trim, trim_bounds, views, lemma_trim_fixed, trim_start,
};

verus! {

/// Separates the fields of an encoded click value.
pub const ENCODED_VALUE_SEPARATOR: char = '\u{1f}';

/// Tag written before the branch name in an encoded worktree value.
pub const WORKTREE_BRANCH_TAG: &'static str = "branch";

/// Prefix of the ref that `git worktree list --porcelain` prints for a branch.
pub const GIT_BRANCH_REF_PREFIX: &'static str = "refs/heads/";

/// The text before the first separator of `s` (all of `s` when it has none).
pub open spec fn before_separator(s: Seq<char>) -> Seq<char> {
    let k = find_char_from(s, ENCODED_VALUE_SEPARATOR, 0);
    if k == -1 {
        s
    } else {
        s.take(k)
    }
}

/// Encoded form of a branch click value.
pub open spec fn branch_encode_spec(name: Seq<char>) -> Seq<char> {
    name
}

/// Branch name decoded from a click value: the text before the first
/// separator (later fields come from older payloads and are dropped).
pub open spec fn branch_decode_spec(value: Seq<char>) -> Seq<char> {
    before_separator(value)
}

/// Encoded form of a worktree click value.
pub open spec fn worktree_encode_spec(path: Seq<char>, branch: Option<Seq<char>>) -> Seq<char> {
    match branch {
        Some(b) => path.push(ENCODED_VALUE_SEPARATOR) + WORKTREE_BRANCH_TAG@ + seq![
            ENCODED_VALUE_SEPARATOR,
        ] + b,
        None => path,
    }
}

/// Path decoded from a worktree click value.
pub open spec fn worktree_decode_path_spec(value: Seq<char>) -> Seq<char> {
    before_separator(value)
}

/// Branch decoded from a worktree click value: present when the second field
/// is the branch tag and a non-empty third field follows it.
pub open spec fn worktree_decode_branch_spec(value: Seq<char>) -> Option<Seq<char>> {
    let i = find_char_from(value, ENCODED_VALUE_SEPARATOR, 0);
    if i == -1 {
        None
    } else {
        let j = find_char_from(value, ENCODED_VALUE_SEPARATOR, i + 1);
        if j == -1 {
            None
        } else if value.subrange(i + 1, j) == WORKTREE_BRANCH_TAG@ && j + 1 < value.len() {
            Some(value.skip(j + 1))
        } else {
            None
        }
    }
}

/// `s` without its trailing `c` characters.
pub open spec fn trim_end_char(s: Seq<char>, c: char) -> Seq<char>
    decreases s.len(),
{
    if s.len() > 0 && s.last() == c {
        trim_end_char(s.drop_last(), c)
    } else {
        s
    }
}

/// Last `/`-separated segment of the path without trailing slashes, or the
/// whole path when that segment is empty.
pub open spec fn display_name_spec(path: Seq<char>) -> Seq<char> {
    let h = trim_end_char(path, '/').len() as int;
    let k = rfind_char_before(path, '/', h);
    let seg = path.subrange(k + 1, h);
    if seg.len() > 0 {
        seg
    } else {
        path
    }
}

/// Click value of the branch chip.
#[derive(Clone, Debug, PartialEq, Eq)]
pub struct GitBranchOnClickValue {
    pub branch_name: String,
}

impl GitBranchOnClickValue {
    pub fn new(branch_name: String) -> (r: Self)
        ensures
            r.branch_name == branch_name,
    {
        GitBranchOnClickValue { branch_name }
    }

    pub fn encode(&self) -> (r: String)
        ensures
            r@ == branch_encode_spec(self.branch_name@),
    {
        self.branch_name.clone()
    }

    /// Decodes a payload, dropping anything after the first separator.
    pub fn decode(value: &str) -> (r: Self)
        ensures
            r.branch_name@ == branch_decode_spec(value@),
    {
        let v = chars_of(value);
        let k = find_char(&v, 0, v.len(), ENCODED_VALUE_SEPARATOR);
        let name = string_from(&v, 0, k);
        proof {
            if k == v.len() {
                assert(v@.subrange(0, k as int) =~= v@);
            } else {
                assert(v@.subrange(0, k as int) =~= v@.take(k as int));
            }
        }
        GitBranchOnClickValue::new(name)
    }
}

/// Click value of the worktree chip: the path that `cd` targets and the
/// branch checked out there, if any.
#[derive(Clone, Debug, PartialEq, Eq)]
pub struct GitWorktreeOnClickValue {
    pub path: String,
    pub branch_name: Option<String>,
}

impl GitWorktreeOnClickValue {
    pub fn new(path: String, branch_name: Option<String>) -> (r: Self)
        ensures
            r.path == path,
            r.branch_name == branch_name,
    {
        GitWorktreeOnClickValue { path, branch_name }
    }

    /// Last segment of the worktree path (or the full path if it has none).
    pub fn display_name(&self) -> (r: &str)
        ensures
            r@ == display_name_spec(self.path@),
    {
        let v = chars_of(self.path.as_str());
        let mut h = v.len();
        proof {
            assert(v@.take(h as int) =~= v@);
        }
        while h > 0 && v[h - 1] == '/'
            invariant
                h <= v@.len(),
                v@ == self.path@,
                trim_end_char(v@, '/') == trim_end_char(v@.take(h as int), '/'),
            decreases h,
        {
            proof {
                assert(v@.take(h as int).drop_last() =~= v@.take(h - 1));
            }
            h -= 1;
        }
        proof {
            if h == v.len() {
                assert(v@.take(h as int) =~= v@);
            }
            assert(trim_end_char(v@.take(h as int), '/') == v@.take(h as int));
        }
        let k = rfind_char(&v, h, '/');
        let start = match k {
            Some(k) => k + 1,
            None => 0,
        };
        if start < h {
            self.path.as_str().substring_char(start, h)
        } else {
            self.path.as_str()
        }
    }

    pub fn encode(&self) -> (r: String)
        ensures
            r@ == worktree_encode_spec(self.path@, opt_view(self.branch_name)),
    {
        match &self.branch_name {
            Some(branch) => {
                let mut r = self.path.clone();
                push_char(&mut r, ENCODED_VALUE_SEPARATOR);
                push_str(&mut r, WORKTREE_BRANCH_TAG);
                push_char(&mut r, ENCODED_VALUE_SEPARATOR);
                push_str(&mut r, branch.as_str());
                proof {
                    assert(r@ =~= worktree_encode_spec(self.path@, opt_view(self.branch_name)));
                }
                r
            },
            None => self.path.clone(),
        }
    }

    pub fn decode(value: &str) -> (r: Self)
        ensures
            r.path@ == worktree_decode_path_spec(value@),
            opt_view(r.branch_name) == worktree_decode_branch_spec(value@),
    {
        let v = chars_of(value);
        let n = v.len();
        let i = find_char(&v, 0, n, ENCODED_VALUE_SEPARATOR);
        let path = string_from(&v, 0, i);
        proof {
            if i == n {
                assert(v@.subrange(0, i as int) =~= v@);
            } else {
                assert(v@.subrange(0, i as int) =~= v@.take(i as int));
            }
        }
        if i == n {
            return GitWorktreeOnClickValue::new(path, None);
        }
        let j = find_char(&v, i + 1, n, ENCODED_VALUE_SEPARATOR);
        if j == n {
            return GitWorktreeOnClickValue::new(path, None);
        }
        let tag = chars_of(WORKTREE_BRANCH_TAG);
        let branch = if range_eq(&v, i + 1, j, &tag) && j + 1 < n {
            let b = string_from(&v, j + 1, n);
            proof {
                assert(v@.subrange(j + 1, n as int) =~= v@.skip(j + 1));
            }
            Some(b)
        } else {
            None
        };
        GitWorktreeOnClickValue::new(path, branch)
    }
}

/// Decoding the encoding of a branch name gives the name back, for any name
/// without the separator character.
pub proof fn lemma_branch_value_round_trip(name: Seq<char>)
    requires
        !name.contains(ENCODED_VALUE_SEPARATOR),
    ensures
        branch_decode_spec(branch_encode_spec(name)) == name,
{
    assert forall|j: int| 0 <= j < name.len() implies name[j] != ENCODED_VALUE_SEPARATOR by {
        if name[j] == ENCODED_VALUE_SEPARATOR {
            assert(name.contains(ENCODED_VALUE_SEPARATOR));
        }
    }
    lemma_find_char_none(name, ENCODED_VALUE_SEPARATOR, 0);
}

/// Decoding the encoding of a worktree value gives the path and branch back,
/// for any path without the separator and any branch that is non-empty.
pub proof fn lemma_worktree_value_round_trip(path: Seq<char>, branch: Option<Seq<char>>)
    requires
        !path.contains(ENCODED_VALUE_SEPARATOR),
        branch matches Some(b) ==> b.len() > 0,
    ensures
        worktree_decode_path_spec(worktree_encode_spec(path, branch)) == path,
        worktree_decode_branch_spec(worktree_encode_spec(path, branch)) == branch,
{
    reveal_strlit("branch");
    let sep = ENCODED_VALUE_SEPARATOR;
    assert forall|j: int| 0 <= j < path.len() implies path[j] != sep by {
        if path[j] == sep {
            assert(path.contains(sep));
        }
    }
    let e = worktree_encode_spec(path, branch);
    match branch {
        None => {
            lemma_find_char_none(path, sep, 0);
        },
        Some(b) => {
            let tag = WORKTREE_BRANCH_TAG@;
            assert(tag.len() == 6);
            let p = path.len() as int;
            assert(e.len() == p + 8 + b.len());
            assert forall|j: int| 0 <= j < p implies e[j] != sep by {
                assert(e[j] == path[j]);
            }
            assert(e[p] == sep);
            lemma_find_char_is(e, sep, 0, p);
            assert(e.take(p) =~= path);
            assert forall|j: int| p + 1 <= j < p + 7 implies e[j] != sep by {
                assert(e[j] == tag[j - p - 1]);
            }
            assert(e[p + 7] == sep);
            lemma_find_char_is(e, sep, p + 1, p + 7);
            assert(e.subrange(p + 1, p + 7) =~= tag);
            assert(e.skip(p + 8) =~= b);
        },
    }
}

/// A parsed line of `git branch` output.
pub struct ParsedGitBranchLine {
    pub branch_name: String,
    pub is_current: bool,
    pub is_linked_worktree: bool,
}

/// The status marker of a trimmed `git branch` line: `*` or `+` followed by
/// whitespace.
pub open spec fn branch_marker(t: Seq<char>) -> Option<char> {
    if t.len() >= 2 && t[0] == '*' && is_ws(t[1]) {
        Some('*')
    } else if t.len() >= 2 && t[0] == '+' && is_ws(t[1]) {
        Some('+')
    } else {
        None
    }
}

/// A `git branch` line as (name, is current, is linked worktree), or `None`
/// for a line with no name.
pub open spec fn parse_branch_line_spec(line: Seq<char>) -> Option<(Seq<char>, bool, bool)> {
    let t = trim(line);
    let marker = branch_marker(t);
    let name = if marker is Some {
        trim(t.drop_first())
    } else {
        t
    };
    if t.len() == 0 || name.len() == 0 {
        None
    } else {
        Some((name, marker == Some('*'), marker == Some('+')))
    }
}

/// Parses one line of `git branch` output.
pub fn parse_git_branch_line(line: &str) -> (r: Option<ParsedGitBranchLine>)
    ensures
        match r {
            Some(p) => parse_branch_line_spec(line@) == Some(
                (p.branch_name@, p.is_current, p.is_linked_worktree),
            ),
            None => parse_branch_line_spec(line@) is None,
        },
{
    let v = chars_of(line);
    let (a, b) = trim_bounds(&v, 0, v.len());
    proof {
        assert(v@.subrange(0, v@.len() as int) =~= v@);
    }
    if a == b {
        return None;
    }
    let ghost t = v@.subrange(a as int, b as int);
    let star = b - a >= 2 && v[a] == '*' && is_whitespace(v[a + 1]);
    let plus = !star && b - a >= 2 && v[a] == '+' && is_whitespace(v[a + 1]);
    proof {
        if b - a >= 2 {
            assert(t[0] == v@[a as int]);
            assert(t[1] == v@[a + 1]);
        }
        assert(star == (branch_marker(t) == Some('*')));
        assert(plus == (branch_marker(t) == Some('+')));
    }
    let (na, nb) = if star || plus {
        proof {
            assert(t.drop_first() =~= v@.subrange(a + 1, b as int));
        }
        trim_bounds(&v, a + 1, b)
    } else {
        (a, b)
    };
    if na == nb {
        return None;
    }
    Some(
        ParsedGitBranchLine {
            branch_name: string_from(&v, na, nb),
            is_current: star,
            is_linked_worktree: plus,
        },
    )
}

/// Non-linked branches of `git branch` output as (name, is current), in order.
pub open spec fn branch_entries(lines: Seq<Seq<char>>) -> Seq<(Seq<char>, bool)>
    decreases lines.len(),
{
    if lines.len() == 0 {
        seq![]
    } else {
        let prev = branch_entries(lines.drop_last());
        match parse_branch_line_spec(lines.last()) {
            Some((name, current, linked)) => if linked {
                prev
            } else {
                prev.push((name, current))
            },
            None => prev,
        }
    }
}

/// Names of the entries whose current flag equals `current`, in order.
pub open spec fn entry_names(es: Seq<(Seq<char>, bool)>, current: bool) -> Seq<Seq<char>>
    decreases es.len(),
{
    if es.len() == 0 {
        seq![]
    } else {
        let prev = entry_names(es.drop_last(), current);
        if es.last().1 == current {
            prev.push(es.last().0)
        } else {
            prev
        }
    }
}

/// The branch chip's encoded values: current branch(es) first, then the
/// others, each group in the order git printed them; linked worktrees and
/// blank lines dropped.
pub open spec fn branch_values_spec(lines: Seq<Seq<char>>) -> Seq<Seq<char>> {
    let es = branch_entries(lines);
    entry_names(es, true).map_values(|n: Seq<char>| branch_encode_spec(n)) + entry_names(
        es,
        false,
    ).map_values(|n: Seq<char>| branch_encode_spec(n))
}

/// Filters `git branch` output into the encoded values of the branch chip.
pub fn filter_git_branch_on_click_values(values_opt: Option<Vec<String>>) -> (r: Option<
    Vec<String>,
>)
    ensures
        match values_opt {
            None => r is None,
            Some(values) => r matches Some(out) && views(out@) == branch_values_spec(
                views(values@),
            ),
        },
{
    let values = match values_opt {
        None => return None,
        Some(values) => values,
    };
    let ghost lines = views(values@);
    let mut current: Vec<String> = Vec::new();
    let mut others: Vec<String> = Vec::new();
    let mut i: usize = 0;
    while i < values.len()
        invariant
            i <= values@.len(),
            lines == views(values@),
            views(current@) == entry_names(branch_entries(lines.take(i as int)), true),
            views(others@) == entry_names(branch_entries(lines.take(i as int)), false),
        decreases values.len() - i,
    {
        let parsed = parse_git_branch_line(values[i].as_str());
        proof {
            let t = lines.take(i + 1);
            assert(t.drop_last() =~= lines.take(i as int));
            assert(t.last() == values@[i as int]@);
        }
        match parsed {
            Some(p) => {
                if !p.is_linked_worktree {
                    let ghost es = branch_entries(lines.take(i as int));
                    let ghost e = (p.branch_name@, p.is_current);
                    proof {
                        assert(es.push(e).drop_last() =~= es);
                    }
                    if p.is_current {
                        current.push(p.branch_name);
                        proof {
                            assert(views(current@) =~= entry_names(es, true).push(e.0));
                        }
                    } else {
                        others.push(p.branch_name);
                        proof {
                            assert(views(others@) =~= entry_names(es, false).push(e.0));
                        }
                    }
                }
            },
            None => {},
        }
        i += 1;
    }
    proof {
        assert(lines.take(values@.len() as int) =~= lines);
    }
    let ghost c = current@;
    let ghost o = others@;
    current.append(&mut others);
    proof {
        let es = branch_entries(lines);
        assert(entry_names(es, true).map_values(|n: Seq<char>| branch_encode_spec(n)) =~= entry_names(es, true));
        assert(entry_names(es, false).map_values(|n: Seq<char>| branch_encode_spec(n)) =~= entry_names(es, false));
        assert(views(current@) =~= views(c) + views(o));
    }
    Some(current)
}

/// State of the porcelain scan: finished entries, then the path and branch
/// of the record being read.
pub type WorktreeScan = (Seq<(Seq<char>, Option<Seq<char>>)>, Option<Seq<char>>, Option<Seq<char>>);

/// Ends the record being read: it becomes an entry when it has a path.
pub open spec fn worktree_flush(st: WorktreeScan) -> WorktreeScan {
    match st.1 {
        Some(p) => (st.0.push((p, st.2)), None, None),
        None => (st.0, None, None),
    }
}

/// One line of porcelain output: a blank line ends a record, `worktree <path>`
/// starts one, `branch refs/heads/<name>` sets its branch (another ref clears
/// it), and other attributes are ignored.
pub open spec fn worktree_scan_line(st: WorktreeScan, line: Seq<char>) -> WorktreeScan {
    let t = trim(line);
    if t.len() == 0 {
        worktree_flush(st)
    } else if starts_with(t, "worktree "@) {
        let f = worktree_flush(st);
        (f.0, Some(t.skip("worktree "@.len() as int)), f.2)
    } else if starts_with(t, "branch "@) {
        let r = t.skip("branch "@.len() as int);
        let b = if starts_with(r, GIT_BRANCH_REF_PREFIX@) {
            Some(r.skip(GIT_BRANCH_REF_PREFIX@.len() as int))
        } else {
            None
        };
        (st.0, st.1, b)
    } else {
        st
    }
}

/// The scan state after reading `lines`.
pub open spec fn worktree_scan(lines: Seq<Seq<char>>) -> WorktreeScan
    decreases lines.len(),
{
    if lines.len() == 0 {
        (seq![], None, None)
    } else {
        worktree_scan_line(worktree_scan(lines.drop_last()), lines.last())
    }
}

/// The worktree chip's encoded values, one per worktree record.
pub open spec fn worktree_values_spec(lines: Seq<Seq<char>>) -> Seq<Seq<char>> {
    worktree_flush(worktree_scan(lines)).0.map_values(
        |e: (Seq<char>, Option<Seq<char>>)| worktree_encode_spec(e.0, e.1),
    )
}

/// The (path, branch) view of worktree values.
pub open spec fn worktree_views(v: Seq<GitWorktreeOnClickValue>) -> Seq<
    (Seq<char>, Option<Seq<char>>),
> {
    v.map_values(|w: GitWorktreeOnClickValue| (w.path@, opt_view(w.branch_name)))
}

fn flush_worktree(
    entries: &mut Vec<GitWorktreeOnClickValue>,
    path: &mut Option<String>,
    branch: &mut Option<String>,
)
    ensures
        ({
            let f = worktree_flush((worktree_views(old(entries)@), opt_view(*old(path)), opt_view(*old(branch))));
            &&& worktree_views(final(entries)@) == f.0
            &&& *final(path) is None
            &&& *final(branch) is None
        }),
{
    let p = path.take();
    let b = branch.take();
    match p {
        Some(p) => {
            let ghost old_entries = entries@;
            entries.push(GitWorktreeOnClickValue::new(p, b));
            proof {
                assert(worktree_views(entries@) =~= worktree_views(old_entries).push(
                    (p@, opt_view(b)),
                ));
            }
        },
        None => {},
    }
}

/// Filters `git worktree list --porcelain` output into the encoded values of
/// the worktree chip, in the order git prints the worktrees.
pub fn filter_git_worktree_on_click_values(values_opt: Option<Vec<String>>) -> (r: Option<
    Vec<String>,
>)
    ensures
        match values_opt {
            None => r is None,
            Some(values) => r matches Some(out) && views(out@) == worktree_values_spec(
                views(values@),
            ),
        },
{
    let values = match values_opt {
        None => return None,
        Some(values) => values,
    };
    let ghost lines = views(values@);
    let mut entries: Vec<GitWorktreeOnClickValue> = Vec::new();
    let mut current_path: Option<String> = None;
    let mut current_branch: Option<String> = None;
    let worktree_tag = chars_of("worktree ");
    let branch_tag = chars_of("branch ");
    let ref_prefix = chars_of(GIT_BRANCH_REF_PREFIX);
    let mut i: usize = 0;
    while i < values.len()
        invariant
            i <= values@.len(),
            lines == views(values@),
            worktree_tag@ == "worktree "@,
            branch_tag@ == "branch "@,
            ref_prefix@ == GIT_BRANCH_REF_PREFIX@,
            worktree_scan(lines.take(i as int)) == (
                worktree_views(entries@),
                opt_view(current_path),
                opt_view(current_branch),
            ),
        decreases values.len() - i,
    {
        let ghost st = worktree_scan(lines.take(i as int));
        proof {
            let t = lines.take(i + 1);
            assert(t.drop_last() =~= lines.take(i as int));
            assert(t.last() == values@[i as int]@);
        }
        let v = chars_of(values[i].as_str());
        let (a, b) = trim_bounds(&v, 0, v.len());
        let ghost t = v@.subrange(a as int, b as int);
        proof {
            assert(v@.subrange(0, v@.len() as int) =~= v@);
            assert(t == trim(values@[i as int]@));
        }
        if a == b {
            flush_worktree(&mut entries, &mut current_path, &mut current_branch);
        } else if has_prefix_at(&v, a, &worktree_tag) && a + worktree_tag.len() <= b {
            proof {
                assert(t.take(worktree_tag@.len() as int) =~= v@.subrange(a as int, a + worktree_tag@.len()));
            }
            flush_worktree(&mut entries, &mut current_path, &mut current_branch);
            current_path = Some(string_from(&v, a + worktree_tag.len(), b));
            proof {
                assert(t.skip(worktree_tag@.len() as int) =~= v@.subrange(a + worktree_tag@.len(), b as int));
            }
        } else if has_prefix_at(&v, a, &branch_tag) && a + branch_tag.len() <= b {
            proof {
                assert(!starts_with(t, "worktree "@)) by {
                    if starts_with(t, "worktree "@) {
                        assert(t.take(worktree_tag@.len() as int) =~= v@.subrange(a as int, a + worktree_tag@.len()));
                    }
                }
                assert(t.take(branch_tag@.len() as int) =~= v@.subrange(a as int, a + branch_tag@.len()));
            }
            let s = a + branch_tag.len();
            let ghost r = t.skip(branch_tag@.len() as int);
            proof {
                assert(r =~= v@.subrange(s as int, b as int));
            }
            if has_prefix_at(&v, s, &ref_prefix) && s + ref_prefix.len() <= b {
                proof {
                    assert(r.take(ref_prefix@.len() as int) =~= v@.subrange(s as int, s + ref_prefix@.len()));
                    assert(r.skip(ref_prefix@.len() as int) =~= v@.subrange(s + ref_prefix@.len(), b as int));
                }
                current_branch = Some(string_from(&v, s + ref_prefix.len(), b));
            } else {
                proof {
                    if starts_with(r, GIT_BRANCH_REF_PREFIX@) {
                        assert(r.take(ref_prefix@.len() as int) =~= v@.subrange(s as int, s + ref_prefix@.len()));
                    }
                }
                current_branch = None;
            }
        } else {
            proof {
                if starts_with(t, "worktree "@) {
                    assert(t.take(worktree_tag@.len() as int) =~= v@.subrange(a as int, a + worktree_tag@.len()));
                }
                if starts_with(t, "branch "@) {
                    assert(t.take(branch_tag@.len() as int) =~= v@.subrange(a as int, a + branch_tag@.len()));
                }
            }
        }
        i += 1;
    }
    proof {
        assert(lines.take(values@.len() as int) =~= lines);
    }
    flush_worktree(&mut entries, &mut current_path, &mut current_branch);
    let mut out: Vec<String> = Vec::new();
    let mut k: usize = 0;
    while k < entries.len()
        invariant
            k <= entries@.len(),
            views(out@) == worktree_views(entries@).take(k as int).map_values(
                |e: (Seq<char>, Option<Seq<char>>)| worktree_encode_spec(e.0, e.1),
            ),
        decreases entries.len() - k,
    {
        let enc = entries[k].encode();
        let ghost old_out = out@;
        out.push(enc);
        proof {
            assert(views(out@) =~= views(old_out).push(enc@));
            assert(worktree_views(entries@).take(k + 1) =~= worktree_views(entries@).take(
                k as int,
            ).push(worktree_views(entries@)[k as int]));
            assert(views(out@) =~= worktree_views(entries@).take(k + 1).map_values(
                |e: (Seq<char>, Option<Seq<char>>)| worktree_encode_spec(e.0, e.1),
            ));
        }
        k += 1;
    }
    proof {
        assert(worktree_views(entries@).take(entries@.len() as int) =~= worktree_views(entries@));
    }
    Some(out)
}

/// Whether `name` looks like a branch name `git checkout -b` could create:
/// after trimming it is non-empty, does not start with `-` and holds no
/// whitespace.
pub open spec fn plausible_branch_name_spec(name: Seq<char>) -> bool {
    let t = trim(name);
    t.len() > 0 && t[0] != '-' && !(exists|i: int| 0 <= i < t.len() && is_ws(#[trigger] t[i]))
}

/// Returns `true` when `name` looks like a plausible new git branch name.
pub fn is_plausible_new_branch_name(name: &str) -> (b: bool)
    ensures
        b == plausible_branch_name_spec(name@),
{
    let v = chars_of(name);
    let (a, e) = trim_bounds(&v, 0, v.len());
    let ghost t = v@.subrange(a as int, e as int);
    proof {
        assert(v@.subrange(0, v@.len() as int) =~= v@);
    }
    if a == e {
        return false;
    }
    if v[a] == '-' {
        proof {
            assert(t[0] == v@[a as int]);
        }
        return false;
    }
    let mut i = a;
    while i < e
        invariant
            a <= i <= e <= v@.len(),
            t == v@.subrange(a as int, e as int),
            t == trim(name@),
            forall|j: int| a <= j < i ==> !is_ws(#[trigger] v@[j]),
        decreases e - i,
    {
        if is_whitespace(v[i]) {
            proof {
                assert(t[i - a] == v@[i as int]);
                assert(is_ws(t[i - a]));
            }
            return false;
        }
        i += 1;
    }
    proof {
        assert(t[0] == v@[a as int]);
        assert forall|j: int| 0 <= j < t.len() implies !is_ws(#[trigger] t[j]) by {
            assert(t[j] == v@[a + j]);
        }
    }
    true
}

/// A name is offered as a new branch exactly when, once trimmed, it is not
/// empty, does not start with `-` and holds no whitespace; anything else
/// (a leading digit, a slash, a dot, ...) is accepted.
pub proof fn lemma_plausible_branch_name(name: Seq<char>)
    ensures
        plausible_branch_name_spec(name) <==> {
            let t = trim(name);
            &&& t.len() > 0
            &&& t[0] != '-'
            &&& forall|i: int| 0 <= i < t.len() ==> !is_ws(#[trigger] t[i])
        },
{
}

/// A porcelain record `worktree <path>`, `HEAD <hash>`, `branch
/// refs/heads/<name>`, followed by a blank line, becomes one click value:
/// the path, the branch tag and the whole branch name (slashes included),
/// joined by the separator.
pub proof fn lemma_worktree_record_value(p: Seq<char>, h: Seq<char>, n: Seq<char>)
    requires
        p.len() > 0,
        !is_ws(p.last()),
        h.len() > 0,
        !is_ws(h.last()),
        n.len() == 0 || !is_ws(n.last()),
    ensures
        worktree_values_spec(
            seq!["worktree "@ + p, "HEAD "@ + h, "branch refs/heads/"@ + n, seq![]],
        ) == seq![p + seq![ENCODED_VALUE_SEPARATOR] + "branch"@ + seq![ENCODED_VALUE_SEPARATOR] + n],
{
    reveal_strlit("worktree ");
    reveal_strlit("HEAD ");
    reveal_strlit("branch refs/heads/");
    reveal_strlit("branch ");
    reveal_strlit("refs/heads/");
    reveal_strlit("branch");
    let l0 = "worktree "@ + p;
    let l1 = "HEAD "@ + h;
    let l2 = "branch refs/heads/"@ + n;
    let l3 = Seq::<char>::empty();
    let lines = seq![l0, l1, l2, l3];
    // The lines are already trimmed.
    assert(l0[0] == 'w' && l0.last() == p.last());
    lemma_trim_fixed(l0);
    assert(l1[0] == 'H' && l1.last() == h.last());
    lemma_trim_fixed(l1);
    assert(l2[0] == 'b');
    if n.len() > 0 {
        assert(l2.last() == n.last());
    } else {
        assert(l2.last() == '/');
    }
    lemma_trim_fixed(l2);
    // What each line says.
    assert(l0.take(9) =~= "worktree "@);
    assert(l0.skip(9) =~= p);
    assert(!starts_with(l1, "worktree "@)) by {
        if l1.len() >= 9 {
            assert(l1.take(9)[0] == 'H');
        }
    }
    assert(!starts_with(l1, "branch "@)) by {
        if l1.len() >= 7 {
            assert(l1.take(7)[0] == 'H');
        }
    }
    assert(!starts_with(l2, "worktree "@)) by {
        assert(l2.take(9)[0] == 'b');
    }
    assert(l2.take(7) =~= "branch "@);
    let r = l2.skip(7);
    assert(r =~= "refs/heads/"@ + n);
    assert(r.take(11) =~= "refs/heads/"@);
    assert(r.skip(11) =~= n);
    let s0: WorktreeScan = (seq![], None, None);
    assert(lines.drop_last() =~= seq![l0, l1, l2]);
    assert(seq![l0, l1, l2].drop_last() =~= seq![l0, l1]);
    assert(seq![l0, l1].drop_last() =~= seq![l0]);
    assert(seq![l0].drop_last() =~= Seq::<Seq<char>>::empty());
    assert(worktree_scan(Seq::<Seq<char>>::empty()) == s0);
    assert(seq![l0].last() == l0);
    assert(worktree_scan(seq![l0]) == worktree_scan_line(s0, l0));
    assert(worktree_scan(seq![l0]) == (Seq::<(Seq<char>, Option<Seq<char>>)>::empty(), Some(p), None::<Seq<char>>));
    assert(worktree_scan(seq![l0, l1]) == worktree_scan(seq![l0]));
    assert(worktree_scan(seq![l0, l1, l2]) == (Seq::<(Seq<char>, Option<Seq<char>>)>::empty(), Some(p), Some(n)));
    assert(worktree_scan(lines) == (seq![(p, Some(n))], None::<Seq<char>>, None::<Seq<char>>));
    assert(worktree_encode_spec(p, Some(n)) =~= p + seq![ENCODED_VALUE_SEPARATOR] + "branch"@ + seq![ENCODED_VALUE_SEPARATOR] + n);
    assert(worktree_values_spec(lines) =~= seq![worktree_encode_spec(p, Some(n))]);
}

/// A porcelain record without a `branch` line (a detached HEAD) becomes the
/// bare path, with no branch.
pub proof fn lemma_worktree_detached_value(p: Seq<char>, h: Seq<char>)
    requires
        p.len() > 0,
        !is_ws(p.last()),
        h.len() > 0,
        !is_ws(h.last()),
    ensures
        worktree_values_spec(seq!["worktree "@ + p, "HEAD "@ + h, "detached"@, seq![]]) == seq![p],
{
    reveal_strlit("worktree ");
    reveal_strlit("HEAD ");
    reveal_strlit("detached");
    reveal_strlit("branch ");
    let l0 = "worktree "@ + p;
    let l1 = "HEAD "@ + h;
    let l2 = "detached"@;
    let l3 = Seq::<char>::empty();
    let lines = seq![l0, l1, l2, l3];
    assert(l0[0] == 'w' && l0.last() == p.last());
    lemma_trim_fixed(l0);
    assert(l1[0] == 'H' && l1.last() == h.last());
    lemma_trim_fixed(l1);
    assert(l2[0] == 'd' && l2.last() == 'd');
    lemma_trim_fixed(l2);
    assert(l0.take(9) =~= "worktree "@);
    assert(l0.skip(9) =~= p);
    assert(!starts_with(l1, "worktree "@)) by {
        if l1.len() >= 9 {
            assert(l1.take(9)[0] == 'H');
        }
    }
    assert(!starts_with(l1, "branch "@)) by {
        if l1.len() >= 7 {
            assert(l1.take(7)[0] == 'H');
        }
    }
    assert(!starts_with(l2, "worktree "@));
    assert(!starts_with(l2, "branch "@)) by {
        assert(l2.take(7)[0] == 'd');
    }
    let s0: WorktreeScan = (seq![], None, None);
    assert(lines.drop_last() =~= seq![l0, l1, l2]);
    assert(seq![l0, l1, l2].drop_last() =~= seq![l0, l1]);
    assert(seq![l0, l1].drop_last() =~= seq![l0]);
    assert(seq![l0].drop_last() =~= Seq::<Seq<char>>::empty());
    assert(worktree_scan(Seq::<Seq<char>>::empty()) == s0);
    assert(seq![l0].last() == l0);
    assert(worktree_scan(seq![l0]) == worktree_scan_line(s0, l0));
    assert(worktree_scan(seq![l0]) == (Seq::<(Seq<char>, Option<Seq<char>>)>::empty(), Some(p), None::<Seq<char>>));
    assert(worktree_scan(seq![l0, l1]) == worktree_scan(seq![l0]));
    assert(worktree_scan(seq![l0, l1, l2]) == worktree_scan(seq![l0]));
    assert(worktree_scan(lines) == (seq![(p, None::<Seq<char>>)], None::<Seq<char>>, None::<Seq<char>>));
    assert(worktree_values_spec(lines) =~= seq![worktree_encode_spec(p, None)]);
}

/// The status marker of a `git branch` line: `* <name>` is the current
/// branch, `+ <name>` a branch checked out in another worktree, and a line
/// with no marker a plain branch; the name is what follows the marker.
pub proof fn lemma_branch_line_markers(n: Seq<char>)
    requires
        n.len() > 0,
        !is_ws(n[0]),
        !is_ws(n.last()),
    ensures
        parse_branch_line_spec(seq!['*', ' '] + n) == Some((n, true, false)),
        parse_branch_line_spec(seq!['+', ' '] + n) == Some((n, false, true)),
        (n[0] != '*' && n[0] != '+') ==> parse_branch_line_spec(n) == Some((n, false, false)),
{
    let a = seq!['*', ' '] + n;
    let b = seq!['+', ' '] + n;
    assert(a[0] == '*' && a.last() == n.last());
    assert(b[0] == '+' && b.last() == n.last());
    lemma_trim_fixed(a);
    lemma_trim_fixed(b);
    lemma_trim_fixed(n);
    assert(a[1] == ' ');
    assert(b[1] == ' ');
    let ad = a.drop_first();
    assert(ad[0] == ' ');
    assert(ad.drop_first() =~= n);
    assert(trim_start(ad) == trim_start(n)) by {
        assert(ad.len() > 0 && is_ws(ad[0]));
    }
    assert(trim_start(n) == n);
    assert(trim(ad) == n);
    let bd = b.drop_first();
    assert(bd[0] == ' ');
    assert(bd.drop_first() =~= n);
    assert(trim_start(bd) == trim_start(n)) by {
        assert(bd.len() > 0 && is_ws(bd[0]));
    }
    assert(trim(bd) == n);
}

} // verus!
