//! The status token: a compact rendering of the version-control status, and
//! its shortening to a budget of columns.

use crate::text::{
    chars_of, decimal, find_from, holds_char, is_least, least, lemma_least_exists,
    lemma_least_is, position_from, push_all, push_decimal, push_range, same_text, string_of,
    text_of,
};
use crate::vcs::{counts_of, ActiveOperation, VcsFacts, VcsInfo, VcsType};
use vstd::prelude::*;

verus! {

/// The glyph that stands for a version-control system.
pub open spec fn vcs_glyph(vcs: VcsType) -> Seq<char> {
    seq!['g']
}

/// The letter that stands for an operation in progress; nothing where none
/// is.
pub open spec fn operation_letter(op: ActiveOperation) -> Seq<char> {
    match op {
        ActiveOperation::Idle => Seq::empty(),
        ActiveOperation::Merge => seq!['m'],
        ActiveOperation::Revert => seq!['v'],
        ActiveOperation::CherryPick => seq!['c'],
        ActiveOperation::Bisect => seq!['b'],
        ActiveOperation::Rebase => seq!['r'],
    }
}

/// One mark for each kind of change: `*` modified, `+` staged, `?` untracked.
pub open spec fn flag_marks(modified: bool, staged: bool, untracked: bool) -> Seq<char> {
    (if modified {
        seq!['*']
    } else {
        Seq::empty()
    }) + (if staged {
        seq!['+']
    } else {
        Seq::empty()
    }) + (if untracked {
        seq!['?']
    } else {
        Seq::empty()
    })
}

/// The name of the branch that is not shown.
pub open spec fn default_branch() -> Seq<char> {
    "master"@
}

/// The branch as it is shown: `???` where it is unknown, nothing for the
/// default branch, the name otherwise.
pub open spec fn branch_text(branch: Option<Seq<char>>) -> Seq<char> {
    match branch {
        None => seq!['?', '?', '?'],
        Some(name) => if name == default_branch() {
            Seq::empty()
        } else {
            name
        },
    }
}

/// The branch with its separator; nothing where no branch text is shown.
pub open spec fn branch_part(branch: Option<Seq<char>>) -> Seq<char> {
    if branch_text(branch).len() > 0 {
        seq![':'] + branch_text(branch)
    } else {
        Seq::empty()
    }
}

/// The divergence from the remote counterpart: `:-` where it is unknown,
/// nothing where there is none, else a separator, `+` and the commits ahead
/// where there are any, `-` and the commits behind where there are any.
pub open spec fn diff_part(diff: Option<(nat, nat)>) -> Seq<char> {
    match diff {
        None => seq![':', '-'],
        Some((local, remote)) => (if local > 0 || remote > 0 {
            seq![':']
        } else {
            Seq::empty()
        }) + (if local > 0 {
            seq!['+'] + decimal(local)
        } else {
            Seq::empty()
        }) + (if remote > 0 {
            seq!['-'] + decimal(remote)
        } else {
            Seq::empty()
        }),
    }
}

/// The operation in progress, in parentheses; nothing where none is.
pub open spec fn operation_part(op: ActiveOperation) -> Seq<char> {
    if op == ActiveOperation::Idle {
        Seq::empty()
    } else {
        seq!['('] + operation_letter(op) + seq![')']
    }
}

/// The status token: the glyph of the system, the marks of the changes, and
/// then either `!` for a repository without commits, or the branch, the
/// divergence and the operation in progress.
pub open spec fn vcs_token(f: VcsFacts) -> Seq<char> {
    let head = vcs_glyph(f.vcs) + flag_marks(f.modified, f.staged, f.untracked);
    if !f.commits {
        head + seq!['!']
    } else {
        head + branch_part(f.branch) + diff_part(f.diff) + operation_part(f.operation)
    }
}

/// The token of an optional status.
pub open spec fn vcs_token_of(f: Option<VcsFacts>) -> Option<Seq<char>> {
    match f {
        Some(f) => Some(vcs_token(f)),
        None => None,
    }
}

/// The key of the colour of a token: `vcs_error` for a repository in
/// error, else `vcs_dirty` for a dirty working copy, else `default`.
pub open spec fn status_color_key(error: bool, dirty: bool) -> Seq<char> {
    if error {
        "vcs_error"@
    } else if dirty {
        "vcs_dirty"@
    } else {
        "default"@
    }
}

/// The key of the colour in which the token is shown; where there is no
/// status, that of an error.
pub open spec fn vcs_color_key(f: Option<VcsFacts>) -> Seq<char> {
    match f {
        Some(f) => status_color_key(f.is_error(), f.is_dirty()),
        None => status_color_key(true, false),
    }
}

/// The facts behind an optional source of status.
pub open spec fn facts_of<V: VcsInfo>(vcs_info: Option<&V>) -> Option<VcsFacts> {
    match vcs_info {
        Some(v) => Some(v.facts()),
        None => None,
    }
}

/// The position of the first colon of `t`, or its length.
pub open spec fn first_colon(t: Seq<char>) -> int {
    position_from(t, ':', 0)
}

/// The predicate "this position holds the last colon of `t`".
pub open spec fn holds_last_colon(t: Seq<char>) -> spec_fn(int) -> bool {
    |k: int| 0 <= k < t.len() && t[k] == ':' && forall|m: int| k < m < t.len() ==> t[m] != ':'
}

/// The position of the last colon of `t`, or its length.
pub open spec fn last_colon(t: Seq<char>) -> int {
    least(0, t.len() as int, holds_last_colon(t))
}

/// A token has a prefix where a colon follows at least one other character.
pub open spec fn has_prefix(t: Seq<char>) -> bool {
    1 <= first_colon(t) < t.len()
}

/// Where the suffix of `t` starts: at its last colon, where that is not also
/// its first and something follows it; at the end of `t` otherwise.
pub open spec fn suffix_start(t: Seq<char>) -> int {
    if first_colon(t) < last_colon(t) && last_colon(t) + 1 < t.len() {
        last_colon(t)
    } else {
        t.len() as int
    }
}

/// The columns that a shortened token cannot do without: the prefix with its
/// colon, the suffix, the three dots and the three characters before the
/// suffix.
pub open spec fn fixed_len(t: Seq<char>) -> int {
    first_colon(t) + 1 + (t.len() - suffix_start(t)) + 6
}

/// A token can be shortened to `budget` columns where it is longer than
/// that, has a prefix, and its fixed parts fit.
pub open spec fn shortens(t: Seq<char>, budget: nat) -> bool {
    t.len() > budget && has_prefix(t) && fixed_len(t) <= budget
}

/// The token in `budget` columns: unchanged where it cannot be shortened,
/// else with the middle of what stands between prefix and suffix replaced by
/// three dots.
pub open spec fn compressed_token(t: Seq<char>, budget: nat) -> Seq<char> {
    if shortens(t, budget) {
        t.take(first_colon(t) + 1 + (budget - fixed_len(t))) + seq!['.', '.', '.'] + t.skip(
            suffix_start(t) - 3,
        )
    } else {
        t
    }
}

/// The first colon is a colon, nothing before it is, and the suffix starts
/// after it.
pub proof fn lemma_token_shape(t: Seq<char>)
    ensures
        0 <= first_colon(t) <= t.len(),
        first_colon(t) < t.len() ==> t[first_colon(t)] == ':',
        forall|k: int| 0 <= k < first_colon(t) ==> t[k] != ':',
        first_colon(t) < suffix_start(t) <= t.len() || first_colon(t) == t.len(),
        suffix_start(t) <= t.len(),
{
    lemma_least_exists(0, t.len() as int, holds_char(t, ':'));
    let p = first_colon(t);
    assert(is_least(0, t.len() as int, holds_char(t, ':'), p));
    assert forall|k: int| 0 <= k < p implies t[k] != ':' by {
        assert(!holds_char(t, ':')(k));
    }
    lemma_least_exists(0, t.len() as int, holds_last_colon(t));
}

/// A shortened token takes exactly its budget of columns, keeps the prefix
/// with its colon at the front and the suffix at the end.
pub proof fn lemma_compressed_token_len(t: Seq<char>, budget: nat)
    requires
        shortens(t, budget),
    ensures
        compressed_token(t, budget).len() == budget,
        compressed_token(t, budget).take(first_colon(t) + 1) == t.take(first_colon(t) + 1),
        compressed_token(t, budget).skip(budget - (t.len() - suffix_start(t))) == t.skip(
            suffix_start(t),
        ),
{
    lemma_token_shape(t);
    let r = compressed_token(t, budget);
    let p = first_colon(t);
    let q = suffix_start(t);
    assert(r.take(p + 1) =~= t.take(p + 1));
    assert(r.skip(budget - (t.len() - q)) =~= t.skip(q));
}

/// Shortening never makes a token longer, and what it returns fits the
/// budget exactly where the token could be shortened or fitted already.
pub proof fn lemma_compressed_token_fits(t: Seq<char>, budget: nat)
    ensures
        compressed_token(t, budget).len() <= t.len(),
        compressed_token(t, budget).len() <= budget <==> (t.len() <= budget || shortens(
            t,
            budget,
        )),
{
    if shortens(t, budget) {
        lemma_compressed_token_len(t, budget);
    }
}

/// Shortening again, to the same budget or to a larger one, changes
/// nothing. The one case left out: a token whose fixed parts did not fit the
/// first budget, do fit the second, and which is longer than the second.
pub proof fn lemma_compressed_token_idempotent(t: Seq<char>, budget: nat, again: nat)
    requires
        budget <= again,
        !(has_prefix(t) && budget < fixed_len(t) <= again < t.len()),
    ensures
        compressed_token(compressed_token(t, budget), again) == compressed_token(t, budget),
{
    if shortens(t, budget) {
        lemma_compressed_token_len(t, budget);
    }
}

/// The glyph that stands for a version-control system.
pub fn vcs_id(vcs: VcsType) -> (s: String)
    ensures
        s@ == vcs_glyph(vcs),
{
    let mut id: Vec<char> = Vec::new();
    id.push('g');
    assert(id@ =~= vcs_glyph(vcs));
    string_of(&id)
}

/// The letter that stands for an operation in progress.
pub fn active_operation_id(op: ActiveOperation) -> (s: String)
    ensures
        s@ == operation_letter(op),
{
    let mut id: Vec<char> = Vec::new();
    match op {
        ActiveOperation::Idle => {},
        ActiveOperation::Merge => id.push('m'),
        ActiveOperation::Revert => id.push('v'),
        ActiveOperation::CherryPick => id.push('c'),
        ActiveOperation::Bisect => id.push('b'),
        ActiveOperation::Rebase => id.push('r'),
    }
    assert(id@ =~= operation_letter(op));
    string_of(&id)
}

fn flag_marks_of(modified: bool, staged: bool, untracked: bool) -> (v: Vec<char>)
    ensures
        v@ == flag_marks(modified, staged, untracked),
{
    let mut v: Vec<char> = Vec::new();
    if modified {
        v.push('*');
    }
    if staged {
        v.push('+');
    }
    if untracked {
        v.push('?');
    }
    assert(v@ =~= flag_marks(modified, staged, untracked));
    v
}

fn branch_part_of(branch: &Option<String>) -> (v: Vec<char>)
    ensures
        v@ == branch_part(text_of(*branch)),
{
    let mut text: Vec<char> = Vec::new();
    match branch {
        Some(name) => {
            let name = chars_of(name.as_str());
            let hidden = chars_of("master");
            if !same_text(&name, &hidden) {
                text = name;
            }
        },
        None => {
            text.push('?');
            text.push('?');
            text.push('?');
        },
    }
    assert(text@ =~= branch_text(text_of(*branch)));
    let mut v: Vec<char> = Vec::new();
    if text.len() > 0 {
        v.push(':');
        push_all(&mut v, &text);
    }
    assert(v@ =~= branch_part(text_of(*branch)));
    v
}

fn diff_part_of(diff: Option<(usize, usize)>) -> (v: Vec<char>)
    ensures
        v@ == diff_part(counts_of(diff)),
{
    let mut v: Vec<char> = Vec::new();
    match diff {
        Some((local, remote)) => {
            if local > 0 || remote > 0 {
                v.push(':');
            }
            if local > 0 {
                v.push('+');
                push_decimal(&mut v, local as u128);
            }
            if remote > 0 {
                v.push('-');
                push_decimal(&mut v, remote as u128);
            }
        },
        None => {
            v.push(':');
            v.push('-');
        },
    }
    assert(v@ =~= diff_part(counts_of(diff)));
    v
}

fn operation_part_of(op: ActiveOperation) -> (v: Vec<char>)
    ensures
        v@ == operation_part(op),
{
    let mut v: Vec<char> = Vec::new();
    match op {
        ActiveOperation::Idle => {},
        op => {
            v.push('(');
            let letter = active_operation_id(op);
            let letter = chars_of(letter.as_str());
            push_all(&mut v, &letter);
            v.push(')');
        },
    }
    assert(v@ =~= operation_part(op));
    v
}

/// The status token for the given facts.
pub fn status_token(
    vcs: VcsType,
    modified: bool,
    staged: bool,
    untracked: bool,
    commits: bool,
    operation: ActiveOperation,
    branch: &Option<String>,
    diff: Option<(usize, usize)>,
) -> (s: String)
    ensures
        s@ == vcs_token(
            VcsFacts {
                vcs,
                modified,
                staged,
                untracked,
                commits,
                operation,
                branch: text_of(*branch),
                diff: counts_of(diff),
            },
        ),
{
    let id = vcs_id(vcs);
    let mut token = chars_of(id.as_str());
    let marks = flag_marks_of(modified, staged, untracked);
    push_all(&mut token, &marks);
    if !commits {
        token.push('!');
        return string_of(&token);
    }
    let branch = branch_part_of(branch);
    push_all(&mut token, &branch);
    let diff = diff_part_of(diff);
    push_all(&mut token, &diff);
    let operation = operation_part_of(operation);
    push_all(&mut token, &operation);
    string_of(&token)
}

/// The key of the colour of a token: `vcs_error` for a repository in
/// error, else `vcs_dirty` for a dirty working copy, else `default`.
pub fn status_color(error: bool, dirty: bool) -> (key: String)
    ensures
        key@ == status_color_key(error, dirty),
{
    if error {
        string_of(&chars_of("vcs_error"))
    } else if dirty {
        string_of(&chars_of("vcs_dirty"))
    } else {
        string_of(&chars_of("default"))
    }
}

/// The status token of the working copy; none where there is no working
/// copy.
pub fn format_vcs<V: VcsInfo>(vcs_info: Option<&V>) -> (r: Option<String>)
    ensures
        text_of(r) == vcs_token_of(facts_of(vcs_info)),
{
    match vcs_info {
        Some(vcs_info) => {
            let vcs = vcs_info.vcs();
            let modified = vcs_info.has_modified_files();
            let staged = vcs_info.has_staged_files();
            let untracked = vcs_info.has_new_files();
            if !vcs_info.has_commits() {
                return Some(
                    status_token(
                        vcs,
                        modified,
                        staged,
                        untracked,
                        false,
                        ActiveOperation::Idle,
                        &None,
                        None,
                    ),
                );
            }
            let branch = vcs_info.branch();
            let diff = vcs_info.remote_branch_diff();
            let operation = vcs_info.active_operation();
            Some(status_token(vcs, modified, staged, untracked, true, operation, &branch, diff))
        },
        None => None,
    }
}

/// The key of the colour in which the token is shown: `vcs_error` for a
/// repository without commits and where there is no status, `vcs_dirty` for
/// a dirty working copy, `default` otherwise.
pub fn vcs_color<V: VcsInfo>(vcs_info: Option<&V>) -> (s: String)
    ensures
        s@ == vcs_color_key(facts_of(vcs_info)),
{
    match vcs_info {
        Some(vcs_info) => {
            let error = vcs_info.is_error();
            let dirty = !error && vcs_info.is_dirty();
            status_color(error, dirty)
        },
        None => status_color(true, false),
    }
}

/// The position of the last colon of `t`, which holds one.
fn find_last_colon(t: &Vec<char>, first: usize) -> (q: usize)
    requires
        first < t.len(),
        t@[first as int] == ':',
    ensures
        q == last_colon(t@),
        first <= q < t.len(),
{
    let mut q: usize = t.len() - 1;
    while t[q] != ':'
        invariant
            first <= q < t.len(),
            t@[first as int] == ':',
            forall|m: int| q < m < t.len() ==> t@[m] != ':',
        decreases q,
    {
        q -= 1;
    }
    proof {
        let p = holds_last_colon(t@);
        assert(p(q as int));
        assert forall|k: int| 0 <= k < q implies !#[trigger] p(k) by {
            assert(t@[q as int] == ':');
        }
        assert(is_least(0, t.len() as int, p, q as int));
        lemma_least_is(0, t.len() as int, p, q as int);
    }
    q
}

/// The token in `len` columns: unchanged where it fits or cannot be
/// shortened, else with the middle of what stands between prefix and suffix
/// replaced by three dots.
pub fn compress_vcs(vcs: &str, len: usize) -> (s: String)
    ensures
        s@ == compressed_token(vcs@, len as nat),
{
    let t = chars_of(vcs);
    if t.len() <= len {
        return string_of(&t);
    }
    let p = find_from(&t, ':', 0);
    if p == 0 || p == t.len() {
        return string_of(&t);
    }
    let q = find_last_colon(&t, p);
    let start = if p < q && q + 1 < t.len() {
        q
    } else {
        t.len()
    };
    let suffix_len = t.len() - start;
    if len < 6 || len - 6 < p + 1 || len - 6 - (p + 1) < suffix_len {
        return string_of(&t);
    }
    let keep = len - 6 - (p + 1) - suffix_len;
    let mut out: Vec<char> = Vec::new();
    push_range(&mut out, &t, 0, p + 1 + keep);
    out.push('.');
    out.push('.');
    out.push('.');
    push_range(&mut out, &t, start - 3, t.len());
    assert(out@ =~= compressed_token(vcs@, len as nat));
    string_of(&out)
}

} // verus!
