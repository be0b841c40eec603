//! What the prompt needs to know of a version-control working copy.

use crate::text::text_of;
use vstd::prelude::*;

pub mod git;

verus! {

/// The version-control systems that can be reported on.
#[derive(Debug, Copy, Clone, PartialEq, Eq, Structural)]
pub enum VcsType {
    Git,
}

/// A multi-step operation that the working copy is in the middle of.
#[derive(Debug, Copy, Clone, PartialEq, Eq, Structural)]
pub enum ActiveOperation {
    /// Nothing is in progress.
    Idle,
    Merge,
    Revert,
    CherryPick,
    Bisect,
    Rebase,
}

/// The mathematical content of a working copy's status.
pub struct VcsFacts {
    pub vcs: VcsType,
    /// Tracked files differ from the index.
    pub modified: bool,
    /// The index differs from the last commit.
    pub staged: bool,
    /// There are files that are not tracked.
    pub untracked: bool,
    /// The repository has at least one commit.
    pub commits: bool,
    pub operation: ActiveOperation,
    /// The name of what is checked out, where it is known.
    pub branch: Option<Seq<char>>,
    /// Commits that only the local branch has, and commits that only its
    /// remote counterpart has, where both are known.
    pub diff: Option<(nat, nat)>,
}

impl VcsFacts {
    /// Something in the working copy is not yet safely upstream: a changed,
    /// staged or untracked file, an unknown divergence, or a divergence that
    /// is not zero on both sides.
    pub open spec fn is_dirty(self) -> bool {
        ||| self.modified
        ||| self.staged
        ||| self.untracked
        ||| self.diff is None
        ||| (self.diff matches Some(d) && (d.0 > 0 || d.1 > 0))
    }

    /// The repository has no history.
    pub open spec fn is_error(self) -> bool {
        !self.commits
    }
}

/// An optional pair of counts as natural numbers.
pub open spec fn counts_of(d: Option<(usize, usize)>) -> Option<(nat, nat)> {
    match d {
        Some(d) => Some((d.0 as nat, d.1 as nat)),
        None => None,
    }
}

/// A source of version-control status.
///
/// An implementation fixes the facts it stands for with `facts`, and each
/// accessor hands out one of them.
pub trait VcsInfo {
    /// The status that this value reports. An implementation says what it
    /// is; one that does not leaves it open.
    open spec fn facts(&self) -> VcsFacts {
        arbitrary()
    }

    fn vcs(&self) -> (r: VcsType)
        ensures
            r == self.facts().vcs,
    ;

    fn has_modified_files(&self) -> (r: bool)
        ensures
            r == self.facts().modified,
    ;

    fn has_staged_files(&self) -> (r: bool)
        ensures
            r == self.facts().staged,
    ;

    fn has_new_files(&self) -> (r: bool)
        ensures
            r == self.facts().untracked,
    ;

    fn has_commits(&self) -> (r: bool)
        ensures
            r == self.facts().commits,
    ;

    fn active_operation(&self) -> (r: ActiveOperation)
        ensures
            r == self.facts().operation,
    ;

    fn branch(&self) -> (r: Option<String>)
        ensures
            text_of(r) == self.facts().branch,
    ;

    fn remote_branch_diff(&self) -> (r: Option<(usize, usize)>)
        ensures
            counts_of(r) == self.facts().diff,
    ;

    fn is_dirty(&self) -> (r: bool)
        ensures
            r == self.facts().is_dirty(),
    {
        let diff = self.remote_branch_diff();
        let diverged = match diff {
            Some((local, remote)) => local > 0 || remote > 0,
            None => true,
        };
        self.has_modified_files() || self.has_staged_files() || self.has_new_files() || diverged
    }

    fn is_error(&self) -> (r: bool)
        ensures
            r == self.facts().is_error(),
    {
        !self.has_commits()
    }
}

/// The status of the working copy, from the first system that has one.
pub fn detect(git: Option<&git::GitSnapshot>) -> (r: Option<git::GitInfo>)
    ensures
        r is Some == git is Some,
        r matches Some(info) ==> info.facts() == git::git_facts(*git.unwrap()),
{
    git::detect(git)
}

} // verus!
