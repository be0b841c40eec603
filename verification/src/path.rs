//! The working directory, shortened to a budget of columns.

use crate::text::{
    chars_of, find_from, is_least, least, lemma_least_exists, lemma_least_is,
    lemma_position_from, lemma_position_is, position_from, push_range, slice_text, starts_with,
    string_of,
};
use vstd::prelude::*;

verus! {

/// What is shown where the working directory is not known.
pub open spec fn unknown_path() -> Seq<char> {
    seq!['?', '?', '?']
}

/// The three dots that stand for what was cut out.
pub open spec fn ellipsis() -> Seq<char> {
    seq!['.', '.', '.']
}

/// The smallest budget to which a path is cut: three dots and the last three
/// characters.
pub open spec fn min_cut() -> nat {
    6
}

/// The path with the home directory at its front, where it is there,
/// replaced by `~`.
pub open spec fn with_home(path: Seq<char>, home: Option<Seq<char>>) -> Seq<char> {
    match home {
        Some(home) => if home.is_prefix_of(path) {
            seq!['~'] + path.skip(home.len() as int)
        } else {
            path
        },
        None => path,
    }
}

/// The predicate "this position holds a slash that opens a component of two
/// characters or more, which another slash closes".
pub open spec fn opens_long_component(s: Seq<char>) -> spec_fn(int) -> bool {
    |i: int|
        0 <= i && i + 3 <= s.len() && s[i] == '/' && s[i + 1] != '/' && s[i + 2] != '/'
            && position_from(s, '/', i + 3) < s.len()
}

/// The position of the slash before the first component at or after `from`
/// that can be abbreviated, or the length of `s` where there is none.
pub open spec fn next_long_component(s: Seq<char>, from: int) -> int {
    least(from, s.len() as int, opens_long_component(s))
}

/// What one pass makes of `s` from position `from` on: every component of
/// two characters or more that a slash closes is cut down to its first
/// character. The components are taken from the left, and the slash that
/// closes one is not the slash that opens the next.
pub open spec fn abbreviated_from(s: Seq<char>, from: int) -> Seq<char>
    decreases s.len() - from,
{
    let i = next_long_component(s, from);
    let j = position_from(s, '/', i + 3);
    if 0 <= from <= i && i + 3 <= j < s.len() {
        s.subrange(from, i + 2) + seq!['/'] + abbreviated_from(s, j + 1)
    } else {
        s.skip(from)
    }
}

/// What one pass makes of `s`: each component that the pass can abbreviate
/// is cut down to its first character.
pub open spec fn abbreviated_pass(s: Seq<char>) -> Seq<char> {
    abbreviated_from(s, 0)
}

/// `s` after as many passes as it takes until it fits the budget or a pass
/// changes nothing.
pub open spec fn abbreviated(s: Seq<char>, budget: nat) -> Seq<char>
    decreases s.len(),
{
    if s.len() <= budget {
        s
    } else {
        let t = abbreviated_pass(s);
        if t.len() < s.len() {
            abbreviated(t, budget)
        } else {
            s
        }
    }
}

/// `s` cut to the budget: the front of it, three dots, and its last three
/// characters. A text that fits is left alone, and so is every text where
/// the budget is below the smallest cut.
pub open spec fn clipped(s: Seq<char>, budget: nat) -> Seq<char> {
    if s.len() <= budget || budget < min_cut() {
        s
    } else {
        s.take(budget - min_cut()) + ellipsis() + s.skip(s.len() - 3)
    }
}

/// The working directory as it is shown in `budget` columns.
pub open spec fn compressed_path(
    path: Option<Seq<char>>,
    home: Option<Seq<char>>,
    budget: nat,
) -> Seq<char> {
    match path {
        Some(path) => clipped(abbreviated(with_home(path, home), budget), budget),
        None => unknown_path(),
    }
}

/// A pass from `from` on makes the rest of the text shorter where there is a
/// component to abbreviate, and leaves it alone where there is none.
pub proof fn lemma_abbreviated_from(s: Seq<char>, from: int)
    requires
        0 <= from <= s.len(),
    ensures
        abbreviated_from(s, from).len() <= s.len() - from,
        next_long_component(s, from) < s.len() ==> abbreviated_from(s, from).len() < s.len()
            - from,
        next_long_component(s, from) >= s.len() ==> abbreviated_from(s, from) == s.skip(from),
    decreases s.len() - from,
{
    lemma_least_exists(from, s.len() as int, opens_long_component(s));
    let i = next_long_component(s, from);
    if i < s.len() {
        assert(opens_long_component(s)(i));
        lemma_position_from(s, '/', i + 3);
        lemma_abbreviated_from(s, position_from(s, '/', i + 3) + 1);
    }
}

/// A pass makes the text shorter where there is a component to abbreviate,
/// and leaves it alone where there is none.
pub proof fn lemma_abbreviated_pass(s: Seq<char>)
    ensures
        abbreviated_pass(s).len() <= s.len(),
        next_long_component(s, 0) < s.len() ==> abbreviated_pass(s).len() < s.len(),
        next_long_component(s, 0) >= s.len() <==> abbreviated_pass(s) == s,
{
    lemma_abbreviated_from(s, 0);
    assert(s.skip(0) =~= s);
}

/// Abbreviation never makes a text longer, and ends on a text that fits or
/// on one in which nothing is left to abbreviate.
pub proof fn lemma_abbreviated(s: Seq<char>, budget: nat)
    ensures
        abbreviated(s, budget).len() <= s.len(),
        abbreviated(s, budget).len() <= budget || abbreviated_pass(abbreviated(s, budget)).len()
            >= abbreviated(s, budget).len(),
        s.len() <= budget ==> abbreviated(s, budget) == s,
    decreases s.len(),
{
    if s.len() > budget {
        let t = abbreviated_pass(s);
        if t.len() < s.len() {
            lemma_abbreviated(t, budget);
        }
    }
}

/// Abbreviating to a smaller budget goes on from where the larger one
/// stopped.
pub proof fn lemma_abbreviated_continues(s: Seq<char>, small: nat, large: nat)
    requires
        small <= large,
    ensures
        abbreviated(s, small) == abbreviated(abbreviated(s, large), small),
    decreases s.len(),
{
    if s.len() > large {
        let t = abbreviated_pass(s);
        if t.len() < s.len() {
            lemma_abbreviated_continues(t, small, large);
        }
    }
}

/// A text that was abbreviated to a budget is not changed by abbreviating it
/// again, whatever the budget.
pub proof fn lemma_abbreviated_settled(s: Seq<char>, budget: nat, again: nat)
    requires
        budget <= again,
    ensures
        abbreviated(abbreviated(s, budget), again) == abbreviated(s, budget),
{
    lemma_abbreviated(s, budget);
}

/// Cutting never makes a text longer; from the smallest cut on, what it
/// returns fits the budget, and a text that was cut fills the budget and
/// ends on the last three characters that it had.
pub proof fn lemma_clipped(s: Seq<char>, budget: nat)
    ensures
        clipped(s, budget).len() <= s.len(),
        budget >= min_cut() ==> clipped(s, budget).len() <= budget,
        budget >= min_cut() && s.len() > budget ==> {
            &&& clipped(s, budget).len() == budget
            &&& clipped(s, budget).skip(budget - 3) == s.skip(s.len() - 3)
            &&& clipped(s, budget).take(budget - min_cut()) == s.take(budget - min_cut())
        },
{
    if budget >= min_cut() && s.len() > budget {
        let r = clipped(s, budget);
        assert(r.skip(budget - 3) =~= s.skip(s.len() - 3));
        assert(r.take(budget - min_cut()) =~= s.take(budget - min_cut()));
    }
}

/// From the smallest cut on, the path that is shown fits its budget.
pub proof fn lemma_compressed_path_fits(
    path: Option<Seq<char>>,
    home: Option<Seq<char>>,
    budget: nat,
)
    requires
        budget >= min_cut(),
    ensures
        compressed_path(path, home, budget).len() <= budget,
{
    if let Some(p) = path {
        lemma_clipped(abbreviated(with_home(p, home), budget), budget);
    }
}

/// From the smallest cut on, a smaller budget never gives a longer path.
pub proof fn lemma_compressed_path_monotonic(
    path: Option<Seq<char>>,
    home: Option<Seq<char>>,
    small: nat,
    large: nat,
)
    requires
        min_cut() <= small <= large,
    ensures
        compressed_path(path, home, small).len() <= compressed_path(path, home, large).len(),
{
    if let Some(p) = path {
        let s = with_home(p, home);
        let wide = abbreviated(s, large);
        let narrow = abbreviated(s, small);
        lemma_abbreviated_continues(s, small, large);
        lemma_abbreviated(wide, small);
        lemma_clipped(wide, large);
        lemma_clipped(narrow, small);
    }
}

/// Compressing a path that was compressed already, to the same budget or to
/// a larger one, changes nothing, where there is no home directory left to
/// replace at its front. The one case left out: a first budget below the
/// smallest cut that left the path longer than the second budget, which is
/// not below it.
pub proof fn lemma_compressed_path_idempotent(
    path: Seq<char>,
    home: Option<Seq<char>>,
    budget: nat,
    again_home: Option<Seq<char>>,
    again: nat,
)
    requires
        budget <= again,
        with_home(compressed_path(Some(path), home, budget), again_home) == compressed_path(
            Some(path),
            home,
            budget,
        ),
        !(budget < min_cut() <= again < compressed_path(Some(path), home, budget).len()),
    ensures
        compressed_path(Some(compressed_path(Some(path), home, budget)), again_home, again)
            == compressed_path(Some(path), home, budget),
{
    let s = with_home(path, home);
    let r = abbreviated(s, budget);
    lemma_abbreviated(s, budget);
    lemma_clipped(r, budget);
    let out = clipped(r, budget);
    if budget >= min_cut() {
        lemma_abbreviated(out, again);
    } else {
        lemma_abbreviated_settled(s, budget, again);
    }
}

/// The path with the home directory at its front replaced by `~`.
fn with_home_of(path: &str, home: &Option<&str>) -> (v: Vec<char>)
    ensures
        v@ == with_home(path@, slice_text(*home)),
{
    let path = chars_of(path);
    match home {
        Some(home) => {
            let home = chars_of(home);
            if starts_with(&path, &home) {
                let mut v: Vec<char> = Vec::new();
                v.push('~');
                push_range(&mut v, &path, home.len(), path.len());
                assert(v@ =~= seq!['~'] + path@.skip(home@.len() as int));
                v
            } else {
                path
            }
        },
        None => path,
    }
}

/// The slash before the first component at or after `from` that can be
/// abbreviated and the slash that closes that component; the length of `s`,
/// twice, where there is no such component.
fn find_long_component(s: &Vec<char>, from: usize) -> (r: (usize, usize))
    requires
        from <= s.len(),
    ensures
        r.0 == next_long_component(s@, from as int),
        from <= r.0 <= s.len(),
        r.0 < s.len() ==> r.1 == position_from(s@, '/', r.0 + 3) && r.0 + 3 <= r.1 < s.len(),
{
    let ghost p = opens_long_component(s@);
    let mut i: usize = find_from(s, '/', from);
    while i < s.len()
        invariant
            from <= i <= s.len(),
            i < s.len() ==> s@[i as int] == '/',
            p == opens_long_component(s@),
            forall|k: int| from <= k < i ==> !#[trigger] p(k),
        decreases s.len() - i,
    {
        let j = find_from(s, '/', i + 1);
        if j < s.len() && j - i >= 3 {
            proof {
                lemma_position_is(s@, '/', i + 3, j as int);
                assert(p(i as int));
                assert(is_least(from as int, s.len() as int, p, i as int));
                lemma_least_is(from as int, s.len() as int, p, i as int);
            }
            return (i, j);
        }
        proof {
            assert forall|k: int| i <= k < j implies !#[trigger] p(k) by {
                if k == i && p(k) {
                    lemma_position_from(s@, '/', k + 3);
                }
            }
        }
        i = j;
    }
    proof {
        assert(is_least(from as int, s.len() as int, p, s.len() as int));
        lemma_least_is(from as int, s.len() as int, p, s.len() as int);
    }
    (s.len(), s.len())
}

/// One pass over `s`: each component that the pass can abbreviate is cut
/// down to its first character.
fn abbreviate_pass(s: &Vec<char>) -> (t: Vec<char>)
    ensures
        t@ == abbreviated_pass(s@),
{
    let mut out: Vec<char> = Vec::new();
    let mut from: usize = 0;
    assert(out@ + abbreviated_from(s@, 0) =~= abbreviated_from(s@, 0));
    loop
        invariant_except_break
            out@ + abbreviated_from(s@, from as int) == abbreviated_from(s@, 0),
        invariant
            from <= s.len(),
        ensures
            out@ == abbreviated_from(s@, 0),
        decreases s.len() - from,
    {
        let (i, j) = find_long_component(s, from);
        let ghost before = out@;
        if i >= s.len() {
            push_range(&mut out, s, from, s.len());
            assert(abbreviated_from(s@, from as int) =~= s@.subrange(from as int, s.len() as int));
            break;
        }
        push_range(&mut out, s, from, i + 2);
        out.push('/');
        assert(out@ + abbreviated_from(s@, j + 1) =~= before + (s@.subrange(from as int, i + 2)
            + seq!['/'] + abbreviated_from(s@, j + 1)));
        from = j + 1;
    }
    out
}

/// The working directory as it is shown in `len` columns.
///
/// An unknown path is shown as `???`. Otherwise the home directory at the
/// front of the path becomes `~`. Then, as long as the path is too long, a
/// pass cuts every component that has more than one character and is not
/// the last down to its first character; components that share a slash
/// take turns, the left one first. A path that is still too long when a
/// pass changes nothing is cut to the front of it, three dots and its last
/// three characters.
pub fn compress_path(path: &Option<&str>, home: &Option<&str>, len: usize) -> (s: String)
    ensures
        s@ == compressed_path(slice_text(*path), slice_text(*home), len as nat),
{
    match path {
        Some(path) => {
            let mut path_str = with_home_of(path, home);
            let ghost start = path_str@;
            loop
                invariant
                    abbreviated(path_str@, len as nat) == abbreviated(start, len as nat),
                ensures
                    path_str@ == abbreviated(start, len as nat),
                decreases path_str.len(),
            {
                if path_str.len() <= len {
                    break;
                }
                let next = abbreviate_pass(&path_str);
                if next.len() >= path_str.len() {
                    break;
                }
                path_str = next;
            }
            if path_str.len() > len && len >= 6 {
                let mut cut: Vec<char> = Vec::new();
                push_range(&mut cut, &path_str, 0, len - 6);
                cut.push('.');
                cut.push('.');
                cut.push('.');
                push_range(&mut cut, &path_str, path_str.len() - 3, path_str.len());
                assert(cut@ =~= clipped(path_str@, len as nat));
                path_str = cut;
            }
            string_of(&path_str)
        },
        None => {
            let mut unknown: Vec<char> = Vec::new();
            unknown.push('?');
            unknown.push('?');
            unknown.push('?');
            assert(unknown@ =~= unknown_path());
            string_of(&unknown)
        },
    }
}

} // verus!
