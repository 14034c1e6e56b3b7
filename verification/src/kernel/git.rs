//! A snapshot of a git workspace, read from the output of the git commands: the branch, the
//! modified files, the number of files git knows, and the commit hash. A command that failed
//! (`None` output) leaves its part at its default.
use vstd::prelude::*;

use crate::agent::prompt::{copy_str, opt_view, strings_of};
use crate::text::{chars_of, lines, lines_seq, seqs, slice, string_of, trim, trim_seq};

verus! {

/// The git state of a workspace.
#[derive(Debug, Clone)]
pub struct GitSnapshot {
    pub branch: Option<String>,
    pub status: Option<String>,
    pub modified_files: Vec<String>,
    pub tracked_files: usize,
    pub working_tree_dirty: bool,
    pub context_hash: Option<String>,
}

impl GitSnapshot {
    /// The snapshot of no repository: nothing known, nothing modified.
    pub fn empty() -> (r: GitSnapshot)
        ensures
            r.branch is None,
            r.status is None,
            r.modified_files@.len() == 0,
            r.tracked_files == 0,
            !r.working_tree_dirty,
            r.context_hash is None,
    {
        GitSnapshot {
            branch: None,
            status: None,
            modified_files: Vec::new(),
            tracked_files: 0,
            working_tree_dirty: false,
            context_hash: None,
        }
    }
}

pub open spec fn is_hex_digit(c: char) -> bool {
    ('0' <= c && c <= '9') || ('a' <= c && c <= 'f') || ('A' <= c && c <= 'F')
}

/// The branch that `git rev-parse --abbrev-ref HEAD` printed: its trimmed output, unless that is
/// empty or all hexadecimal (a detached head prints a hash).
pub open spec fn branch_spec(out: Seq<char>) -> Option<Seq<char>> {
    let b = trim_seq(out);
    if b.len() == 0 || (forall|i: int| 0 <= i < b.len() ==> is_hex_digit(#[trigger] b[i])) {
        None
    } else {
        Some(b)
    }
}

/// Read the branch name.
pub fn parse_branch(out: &str) -> (r: Option<String>)
    ensures
        opt_view(r) == branch_spec(out@),
{
    let b = trim(&chars_of(out));
    if b.len() == 0 {
        return None;
    }
    let mut i: usize = 0;
    while i < b.len()
        invariant
            i <= b.len(),
            b@ == trim_seq(out@),
            forall|k: int| 0 <= k < i ==> is_hex_digit(#[trigger] b@[k]),
        decreases b.len() - i,
    {
        let c = b[i];
        if !(('0' <= c && c <= '9') || ('a' <= c && c <= 'f') || ('A' <= c && c <= 'F')) {
            assert(!is_hex_digit(b@[i as int]));
            return Some(string_of(&b));
        }
        i = i + 1;
    }
    None
}

/// The commit that `git rev-parse HEAD` printed: its trimmed output, unless empty.
pub open spec fn head_spec(out: Seq<char>) -> Option<Seq<char>> {
    if trim_seq(out).len() == 0 {
        None
    } else {
        Some(trim_seq(out))
    }
}

/// Read the commit hash.
pub fn parse_head(out: &str) -> (r: Option<String>)
    ensures
        opt_view(r) == head_spec(out@),
{
    let h = trim(&chars_of(out));
    if h.len() == 0 {
        None
    } else {
        Some(string_of(&h))
    }
}

/// The number of non-empty lines.
pub open spec fn nonempty_count(ls: Seq<Seq<char>>) -> nat
    decreases ls.len(),
{
    if ls.len() == 0 {
        0
    } else {
        nonempty_count(ls.drop_last()) + if ls.last().len() > 0 { 1nat } else { 0nat }
    }
}

/// Count the files that `git ls-files` listed.
pub fn count_listed(out: &str) -> (r: usize)
    ensures
        r == nonempty_count(lines_seq(out@)),
{
    let c = chars_of(out);
    let ls = lines(&c);
    let ghost lv = seqs(ls@);
    assert(lv =~= lines_seq(out@));
    let mut n: usize = 0;
    let mut i: usize = 0;
    assert(lv.take(0) =~= seq![]);
    while i < ls.len()
        invariant
            i <= ls.len(),
            n <= i,
            lv == seqs(ls@),
            n == nonempty_count(lv.take(i as int)),
        decreases ls.len() - i,
    {
        assert(lv.take(i + 1).drop_last() =~= lv.take(i as int));
        if ls[i].len() > 0 {
            n = n + 1;
        }
        i = i + 1;
    }
    assert(lv.take(ls.len() as int) =~= lv);
    n
}

/// The number of bytes that `c` takes in UTF-8.
pub open spec fn utf8_len(c: char) -> nat {
    if (c as u32) < 0x80 {
        1
    } else if (c as u32) < 0x800 {
        2
    } else if (c as u32) < 0x10000 {
        3
    } else {
        4
    }
}

/// The number of UTF-8 bytes of the first `k` characters of `s`.
pub open spec fn prefix_bytes(s: Seq<char>, k: int) -> nat
    decreases k,
{
    if k <= 0 || s.len() == 0 {
        0
    } else if k > s.len() {
        prefix_bytes(s, s.len() as int)
    } else {
        prefix_bytes(s, k - 1) + utf8_len(s[k - 1])
    }
}

/// A status line: `XY path`. It names a changed file when it has at least three bytes and its
/// two status columns are not both blank.
pub open spec fn changed_line(line: Seq<char>) -> bool {
    prefix_bytes(line, line.len() as int) >= 3 && !(line.len() >= 2 && line[0] == ' ' && line[1] == ' ')
}

/// A line whose path starts at a character boundary three bytes in.
pub open spec fn path_start(line: Seq<char>) -> Option<int> {
    if exists|k: int| 0 <= k <= line.len() && prefix_bytes(line, k) == 3 {
        Some(choose|k: int| 0 <= k <= line.len() && prefix_bytes(line, k) == 3)
    } else {
        None
    }
}

/// Whether every changed line of the status output can be cut three bytes in, at a character
/// boundary.
pub open spec fn porcelain_readable(out: Seq<char>) -> bool {
    forall|i: int|
        0 <= i < lines_seq(out).len() && #[trigger] changed_line(lines_seq(out)[i]) ==> path_start(
            lines_seq(out)[i],
        ) is Some
}

/// The modified files that `git status --porcelain` lists: the trimmed, non-empty paths of its
/// changed lines, in order.
pub open spec fn modified_from(ls: Seq<Seq<char>>) -> Seq<Seq<char>>
    decreases ls.len(),
{
    if ls.len() == 0 {
        seq![]
    } else {
        let rest = modified_from(ls.drop_last());
        let l = ls.last();
        if l.len() > 0 && changed_line(l) && path_start(l) is Some {
            let p = trim_seq(l.subrange(path_start(l)->0, l.len() as int));
            if p.len() > 0 {
                rest.push(p)
            } else {
                rest
            }
        } else {
            rest
        }
    }
}

proof fn lemma_modified_nonempty(ls: Seq<Seq<char>>)
    ensures
        forall|i: int| 0 <= i < modified_from(ls).len() ==> #[trigger] modified_from(ls)[i].len() > 0,
    decreases ls.len(),
{
    if ls.len() > 0 {
        lemma_modified_nonempty(ls.drop_last());
        let rest = modified_from(ls.drop_last());
        assert forall|i: int| 0 <= i < modified_from(ls).len() implies #[trigger] modified_from(
            ls,
        )[i].len() > 0 by {
            if i < rest.len() {
                assert(modified_from(ls)[i] == rest[i]);
            }
        }
    }
}

/// What git printed is read without inventing anything: no modified file is named by an empty
/// path, a branch is never empty nor a bare hexadecimal hash (a detached head has none), and a
/// commit hash is never empty.
pub proof fn law_snapshot_fields(branch_out: Seq<char>, status_out: Seq<char>, head_out: Seq<char>)
    ensures
        forall|i: int|
            0 <= i < modified_from(lines_seq(status_out)).len() ==> #[trigger] modified_from(
                lines_seq(status_out),
            )[i].len() > 0,
        branch_spec(branch_out) matches Some(b) ==> b.len() > 0 && exists|i: int|
            0 <= i < b.len() && !is_hex_digit(#[trigger] b[i]),
        head_spec(head_out) matches Some(h) ==> h.len() > 0,
{
    lemma_modified_nonempty(lines_seq(status_out));
    let b = trim_seq(branch_out);
    if branch_spec(branch_out) is Some {
        assert(!(forall|i: int| 0 <= i < b.len() ==> is_hex_digit(#[trigger] b[i])));
        let k = choose|i: int| !(0 <= i < b.len() ==> is_hex_digit(#[trigger] b[i]));
        assert(0 <= k < b.len() && !is_hex_digit(b[k]));
    }
}

proof fn lemma_prefix_bytes_mono(s: Seq<char>, k: int)
    requires
        0 <= k < s.len(),
    ensures
        prefix_bytes(s, k + 1) == prefix_bytes(s, k) + utf8_len(s[k]),
        utf8_len(s[k]) >= 1,
{
}

proof fn lemma_prefix_unique(s: Seq<char>, a: int, b: int)
    requires
        0 <= a <= b <= s.len(),
    ensures
        prefix_bytes(s, a) <= prefix_bytes(s, b),
        a < b ==> prefix_bytes(s, a) < prefix_bytes(s, b),
    decreases b - a,
{
    if a < b {
        lemma_prefix_unique(s, a, b - 1);
    }
}

fn utf8_len_exec(c: char) -> (r: usize)
    ensures
        r == utf8_len(c),
{
    let n = c as u32;
    if n < 0x80 {
        1
    } else if n < 0x800 {
        2
    } else if n < 0x10000 {
        3
    } else {
        4
    }
}

/// Where the path of a status line starts, as a character index, if three bytes in is a
/// character boundary.
fn path_start_exec(line: &Vec<char>) -> (r: Option<usize>)
    ensures
        match r {
            Some(k) => path_start(line@) == Some(k as int),
            None => path_start(line@) is None,
        },
{
    let mut k: usize = 0;
    let mut bytes: usize = 0;
    while k < line.len() && bytes < 3
        invariant
            k <= line.len(),
            bytes == prefix_bytes(line@, k as int),
            bytes <= 6,
            k > 0 ==> prefix_bytes(line@, k - 1) < 3,
        decreases line.len() - k,
    {
        proof {
            lemma_prefix_bytes_mono(line@, k as int);
        }
        bytes = bytes + utf8_len_exec(line[k]);
        k = k + 1;
    }
    if bytes == 3 {
        proof {
            assert forall|j: int| 0 <= j <= line@.len() && prefix_bytes(line@, j) == 3 implies j == k by {
                if j < k {
                    lemma_prefix_unique(line@, j, k as int);
                } else if j > k {
                    lemma_prefix_unique(line@, k as int, j);
                }
            }
        }
        Some(k)
    } else {
        proof {
            assert forall|j: int| 0 <= j <= line@.len() implies prefix_bytes(line@, j) != 3 by {
                if j < k {
                    lemma_prefix_unique(line@, j, k as int);
                    lemma_prefix_unique(line@, j, (k - 1) as int);
                } else if j > k {
                    lemma_prefix_unique(line@, k as int, j);
                }
            }
        }
        None
    }
}

/// Whether the status output can be read (see `porcelain_readable`).
pub fn porcelain_readable_exec(out: &str) -> (r: bool)
    ensures
        r == porcelain_readable(out@),
{
    let c = chars_of(out);
    let ls = lines(&c);
    let ghost lv = seqs(ls@);
    assert(lv =~= lines_seq(out@));
    let mut i: usize = 0;
    while i < ls.len()
        invariant
            i <= ls.len(),
            lv == seqs(ls@),
            lv == lines_seq(out@),
            forall|k: int| 0 <= k < i && #[trigger] changed_line(lv[k]) ==> path_start(lv[k]) is Some,
        decreases ls.len() - i,
    {
        let line = &ls[i];
        assert(lv[i as int] == line@);
        if changed_line_exec(line) && path_start_exec(line).is_none() {
            return false;
        }
        i = i + 1;
    }
    true
}

fn changed_line_exec(line: &Vec<char>) -> (r: bool)
    ensures
        r == changed_line(line@),
{
    let mut k: usize = 0;
    let mut bytes: usize = 0;
    while k < line.len() && bytes < 3
        invariant
            k <= line.len(),
            bytes == prefix_bytes(line@, k as int),
            bytes <= 6,
        decreases line.len() - k,
    {
        proof {
            lemma_prefix_bytes_mono(line@, k as int);
        }
        bytes = bytes + utf8_len_exec(line[k]);
        k = k + 1;
    }
    proof {
        lemma_prefix_unique(line@, k as int, line@.len() as int);
    }
    let long = bytes >= 3;
    let blank = line.len() >= 2 && line[0] == ' ' && line[1] == ' ';
    long && !blank
}

/// The modified files from `git status --porcelain` output.
pub fn parse_porcelain(out: &str) -> (r: Vec<String>)
    ensures
        strings_of(r@) == modified_from(lines_seq(out@)),
{
    let c = chars_of(out);
    let ls = lines(&c);
    let ghost lv = seqs(ls@);
    assert(lv =~= lines_seq(out@));
    let mut r: Vec<String> = Vec::new();
    let mut i: usize = 0;
    assert(lv.take(0) =~= seq![]);
    assert(strings_of(r@) =~= seq![]);
    while i < ls.len()
        invariant
            i <= ls.len(),
            lv == seqs(ls@),
            strings_of(r@) == modified_from(lv.take(i as int)),
        decreases ls.len() - i,
    {
        let line = &ls[i];
        let ghost t = lv.take(i + 1);
        assert(t.drop_last() =~= lv.take(i as int));
        assert(t.last() == line@);
        if line.len() > 0 && changed_line_exec(line) {
            match path_start_exec(line) {
                Some(k) => {
                    let p = trim(&slice(line, k, line.len()));
                    if p.len() > 0 {
                        let ghost before = strings_of(r@);
                        r.push(string_of(&p));
                        assert(strings_of(r@) =~= before.push(p@));
                    }
                },
                None => {},
            }
        }
        i = i + 1;
    }
    assert(lv.take(ls.len() as int) =~= lv);
    r
}

/// The snapshot from the git commands' outputs (`None` where a command failed): the branch, the
/// modified files and whether there are any, the number of listed files, the commit hash. When
/// the status command failed the status is unknown (`None`), as every field is its default then.
pub fn snapshot(
    branch_out: Option<&str>,
    status_out: Option<&str>,
    ls_out: Option<&str>,
    head_out: Option<&str>,
) -> (r: GitSnapshot)
    requires
        status_out matches Some(s) ==> porcelain_readable(s@),
    ensures
        opt_view(r.branch) == match branch_out {
            Some(b) => branch_spec(b@),
            None => None,
        },
        strings_of(r.modified_files@) == match status_out {
            Some(s) => modified_from(lines_seq(s@)),
            None => seq![],
        },
        r.working_tree_dirty == (r.modified_files@.len() > 0),
        status_out is Some ==> opt_view(r.status) == Some(
            if r.working_tree_dirty { "dirty"@ } else { "clean"@ },
        ),
        status_out is None ==> r.status is None,
        r.tracked_files == match (status_out, ls_out) {
            (Some(_), Some(l)) => nonempty_count(lines_seq(l@)) as usize,
            _ => 0,
        },
        opt_view(r.context_hash) == match head_out {
            Some(h) => head_spec(h@),
            None => None,
        },
{
    let branch = match branch_out {
        Some(b) => parse_branch(b),
        None => None,
    };
    let (modified_files, tracked_files) = match status_out {
        Some(s) => {
            let m = parse_porcelain(s);
            let t = match ls_out {
                Some(l) => count_listed(l),
                None => 0,
            };
            (m, t)
        },
        None => {
            let m: Vec<String> = Vec::new();
            assert(strings_of(m@) =~= seq![]);
            (m, 0)
        },
    };
    let dirty = modified_files.len() > 0;
    let status = match status_out {
        Some(_) => Some(if dirty { copy_str("dirty") } else { copy_str("clean") }),
        None => None,
    };
    let context_hash = match head_out {
        Some(h) => parse_head(h),
        None => None,
    };
    GitSnapshot {
        branch,
        status,
        modified_files,
        tracked_files,
        working_tree_dirty: dirty,
        context_hash,
    }
}

} // verus!
