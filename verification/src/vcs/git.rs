//! Status of a Git working copy, from a snapshot of what the repository says.

use crate::text::{chars_of, push_all, string_of, text_of};
use crate::vcs::{counts_of, ActiveOperation, VcsFacts, VcsInfo, VcsType};
use vstd::prelude::*;

verus! {

/// How one file stands in the index and in the working tree.
#[derive(Debug, Copy, Clone, PartialEq, Eq, Structural)]
pub struct FileStatus {
    pub index_new: bool,
    pub index_modified: bool,
    pub index_deleted: bool,
    pub index_renamed: bool,
    pub index_typechange: bool,
    pub wt_new: bool,
    pub wt_modified: bool,
    pub wt_deleted: bool,
    pub wt_typechange: bool,
    pub wt_renamed: bool,
    pub conflicted: bool,
}

impl FileStatus {
    /// The working tree's copy differs from the index, or is in conflict.
    pub open spec fn is_modified(self) -> bool {
        self.wt_deleted || self.wt_modified || self.wt_renamed || self.wt_typechange
            || self.conflicted
    }

    /// The index differs from the last commit.
    pub open spec fn is_staged(self) -> bool {
        self.index_deleted || self.index_modified || self.index_new || self.index_renamed
            || self.index_typechange
    }

    /// The file is in the working tree and not tracked.
    pub open spec fn is_new(self) -> bool {
        self.wt_new
    }

    /// Whether the working tree's copy differs from the index.
    pub fn modified(&self) -> (r: bool)
        ensures
            r == self.is_modified(),
    {
        self.wt_deleted || self.wt_modified || self.wt_renamed || self.wt_typechange
            || self.conflicted
    }

    /// Whether the index differs from the last commit.
    pub fn staged(&self) -> (r: bool)
        ensures
            r == self.is_staged(),
    {
        self.index_deleted || self.index_modified || self.index_new || self.index_renamed
            || self.index_typechange
    }

    /// Whether the file is not tracked.
    pub fn untracked(&self) -> (r: bool)
        ensures
            r == self.is_new(),
    {
        self.wt_new
    }
}

/// What the repository is in the middle of.
#[derive(Debug, Copy, Clone, PartialEq, Eq, Structural)]
pub enum RepositoryState {
    Clean,
    Merge,
    Revert,
    RevertSequence,
    CherryPick,
    CherryPickSequence,
    Bisect,
    Rebase,
    RebaseInteractive,
    RebaseMerge,
    ApplyMailbox,
    ApplyMailboxOrRebase,
}

/// The operation that is shown for a repository state.
pub open spec fn operation_of(state: RepositoryState) -> ActiveOperation {
    match state {
        RepositoryState::Merge => ActiveOperation::Merge,
        RepositoryState::Revert | RepositoryState::RevertSequence => ActiveOperation::Revert,
        RepositoryState::CherryPick | RepositoryState::CherryPickSequence => {
            ActiveOperation::CherryPick
        },
        RepositoryState::Bisect => ActiveOperation::Bisect,
        RepositoryState::Rebase
        | RepositoryState::RebaseInteractive
        | RepositoryState::RebaseMerge => ActiveOperation::Rebase,
        _ => ActiveOperation::Idle,
    }
}

impl RepositoryState {
    /// The operation that is shown for this state.
    pub fn active_operation(&self) -> (r: ActiveOperation)
        ensures
            r == operation_of(*self),
    {
        match self {
            RepositoryState::Merge => ActiveOperation::Merge,
            RepositoryState::Revert | RepositoryState::RevertSequence => ActiveOperation::Revert,
            RepositoryState::CherryPick | RepositoryState::CherryPickSequence => {
                ActiveOperation::CherryPick
            },
            RepositoryState::Bisect => ActiveOperation::Bisect,
            RepositoryState::Rebase
            | RepositoryState::RebaseInteractive
            | RepositoryState::RebaseMerge => ActiveOperation::Rebase,
            _ => ActiveOperation::Idle,
        }
    }
}

/// What `HEAD` points at.
pub struct Head {
    /// `HEAD` is a local branch.
    pub is_branch: bool,
    /// The short name of the reference, where it has one.
    pub shorthand: Option<String>,
    /// The bytes of the object id that the reference resolves to, where it
    /// resolves.
    pub target: Option<Vec<u8>>,
}

/// Everything that is read from the repository.
pub struct GitSnapshot {
    /// The status of each file that has one.
    pub files: Vec<FileStatus>,
    /// `HEAD`, where the repository has one: an empty repository has none.
    pub head: Option<Head>,
    pub state: RepositoryState,
    /// Commits ahead of and behind the remote counterpart of the branch,
    /// where `upstream_ref` named one and it was found.
    pub divergence: Option<(usize, usize)>,
}

/// The lower-case hexadecimal digit for `d`, for `0 <= d < 16`.
pub open spec fn hex_digit(d: int) -> char {
    if d < 10 {
        crate::text::digit(d)
    } else if d == 10 {
        'a'
    } else if d == 11 {
        'b'
    } else if d == 12 {
        'c'
    } else if d == 13 {
        'd'
    } else if d == 14 {
        'e'
    } else {
        'f'
    }
}

/// The bytes in lower-case hexadecimal, two digits each.
pub open spec fn hex(bytes: Seq<u8>) -> Seq<char>
    decreases bytes.len(),
{
    if bytes.len() == 0 {
        Seq::empty()
    } else {
        hex(bytes.drop_last()).push(hex_digit(bytes.last() as int / 16)).push(
            hex_digit(bytes.last() as int % 16),
        )
    }
}

/// The first seven hexadecimal digits of an object id.
pub open spec fn short_id(id: Seq<u8>) -> Seq<char> {
    if hex(id).len() > 7 {
        hex(id).take(7)
    } else {
        hex(id)
    }
}

/// The name shown for `HEAD`: the branch's short name, or the short id of
/// the commit where `HEAD` is detached.
pub open spec fn branch_name(head: Head) -> Option<Seq<char>> {
    if head.is_branch {
        text_of(head.shorthand)
    } else {
        match head.target {
            Some(id) => Some(short_id(id@)),
            None => None,
        }
    }
}

/// The prefix of the references that follow the remote `origin`.
pub open spec fn origin_prefix() -> Seq<char> {
    "refs/remotes/origin/"@
}

/// The reference that holds the remote counterpart of `HEAD`: there is one
/// where `HEAD` is a branch with a name that resolves to a commit.
pub open spec fn upstream_of(head: Option<Head>) -> Option<Seq<char>> {
    match head {
        Some(head) => if head.is_branch && head.target is Some && head.shorthand is Some {
            Some(origin_prefix() + head.shorthand.unwrap()@)
        } else {
            None
        },
        None => None,
    }
}

/// The status that a snapshot amounts to.
pub open spec fn git_facts(git: GitSnapshot) -> VcsFacts {
    VcsFacts {
        vcs: VcsType::Git,
        modified: exists|i: int| 0 <= i < git.files@.len() && (#[trigger] git.files@[i]).is_modified(),
        staged: exists|i: int| 0 <= i < git.files@.len() && (#[trigger] git.files@[i]).is_staged(),
        untracked: exists|i: int| 0 <= i < git.files@.len() && (#[trigger] git.files@[i]).is_new(),
        commits: git.head is Some,
        operation: operation_of(git.state),
        branch: match git.head {
            Some(head) => branch_name(head),
            None => None,
        },
        diff: if upstream_of(git.head) is Some {
            counts_of(git.divergence)
        } else {
            None
        },
    }
}

/// The status of a Git working copy.
#[derive(Debug)]
pub struct GitInfo {
    modified_files: bool,
    staged_files: bool,
    new_files: bool,
    commits: bool,
    active_operation: ActiveOperation,
    branch: Option<String>,
    remote_branch_diff: Option<(usize, usize)>,
}

/// The lower-case hexadecimal digit of `d`.
fn hex_digit_of(d: u8) -> (c: char)
    requires
        d < 16,
    ensures
        c == hex_digit(d as int),
{
    if d < 10 {
        crate::text::digit_of(d)
    } else if d == 10 {
        'a'
    } else if d == 11 {
        'b'
    } else if d == 12 {
        'c'
    } else if d == 13 {
        'd'
    } else if d == 14 {
        'e'
    } else {
        'f'
    }
}

/// The first seven hexadecimal digits of an object id.
pub fn short_id_of(id: &Vec<u8>) -> (s: String)
    ensures
        s@ == short_id(id@),
{
    let mut sha: Vec<char> = Vec::new();
    let mut i: usize = 0;
    while i < id.len()
        invariant
            i <= id.len(),
            sha@ == hex(id@.take(i as int)),
        decreases id.len() - i,
    {
        proof {
            assert(id@.take(i + 1).drop_last() =~= id@.take(i as int));
        }
        sha.push(hex_digit_of(id[i] / 16));
        sha.push(hex_digit_of(id[i] % 16));
        i += 1;
    }
    assert(id@.take(i as int) =~= id@);
    sha.truncate(7);
    string_of(&sha)
}

/// A copy of an optional string.
fn copy_text(s: &Option<String>) -> (r: Option<String>)
    ensures
        text_of(r) == text_of(*s),
{
    match s {
        Some(s) => Some(s.clone()),
        None => None,
    }
}

impl Head {
    /// The name shown for this `HEAD`.
    pub fn name(&self) -> (r: Option<String>)
        ensures
            text_of(r) == branch_name(*self),
    {
        if self.is_branch {
            copy_text(&self.shorthand)
        } else {
            match &self.target {
                Some(id) => Some(short_id_of(id)),
                None => None,
            }
        }
    }
}

impl GitSnapshot {
    /// The reference to compare `HEAD` with, where there is one: the
    /// divergence is to be looked up for that reference and for no other.
    pub fn upstream_ref(head: &Option<Head>) -> (r: Option<String>)
        ensures
            text_of(r) == upstream_of(*head),
    {
        match head {
            Some(head) => {
                if head.is_branch && head.target.is_some() {
                    match &head.shorthand {
                        Some(name) => {
                            let mut full = chars_of("refs/remotes/origin/");
                            let name = chars_of(name.as_str());
                            push_all(&mut full, &name);
                            Some(string_of(&full))
                        },
                        None => None,
                    }
                } else {
                    None
                }
            },
            None => None,
        }
    }
}

impl GitInfo {
    /// The status that the snapshot amounts to.
    pub fn new(git: &GitSnapshot) -> (info: GitInfo)
        ensures
            info.facts() == git_facts(*git),
    {
        let mut modified_files = false;
        let mut staged_files = false;
        let mut new_files = false;
        let mut i: usize = 0;
        while i < git.files.len()
            invariant
                i <= git.files.len(),
                modified_files == exists|k: int|
                    0 <= k < i && (#[trigger] git.files@[k]).is_modified(),
                staged_files == exists|k: int| 0 <= k < i && (#[trigger] git.files@[k]).is_staged(),
                new_files == exists|k: int| 0 <= k < i && (#[trigger] git.files@[k]).is_new(),
            decreases git.files.len() - i,
        {
            let file = &git.files[i];
            if file.modified() {
                modified_files = true;
            }
            if file.staged() {
                staged_files = true;
            }
            if file.untracked() {
                new_files = true;
            }
            i += 1;
        }
        let commits = git.head.is_some();
        let branch = match &git.head {
            Some(head) => head.name(),
            None => None,
        };
        let active_operation = git.state.active_operation();
        let remote_branch_diff = if GitSnapshot::upstream_ref(&git.head).is_some() {
            git.divergence
        } else {
            None
        };
        GitInfo {
            modified_files,
            staged_files,
            new_files,
            commits,
            active_operation,
            branch,
            remote_branch_diff,
        }
    }
}

impl VcsInfo for GitInfo {
    closed spec fn facts(&self) -> VcsFacts {
        VcsFacts {
            vcs: VcsType::Git,
            modified: self.modified_files,
            staged: self.staged_files,
            untracked: self.new_files,
            commits: self.commits,
            operation: self.active_operation,
            branch: text_of(self.branch),
            diff: counts_of(self.remote_branch_diff),
        }
    }

    fn vcs(&self) -> VcsType {
        VcsType::Git
    }

    fn has_modified_files(&self) -> bool {
        self.modified_files
    }

    fn has_staged_files(&self) -> bool {
        self.staged_files
    }

    fn has_new_files(&self) -> bool {
        self.new_files
    }

    fn has_commits(&self) -> bool {
        self.commits
    }

    fn active_operation(&self) -> ActiveOperation {
        self.active_operation
    }

    fn branch(&self) -> Option<String> {
        copy_text(&self.branch)
    }

    fn remote_branch_diff(&self) -> Option<(usize, usize)> {
        self.remote_branch_diff
    }
}

/// The status of the Git working copy, where there is one.
pub fn detect(git: Option<&GitSnapshot>) -> (r: Option<GitInfo>)
    ensures
        r is Some == git is Some,
        r matches Some(info) ==> info.facts() == git_facts(*git.unwrap()),
{
    match git {
        Some(git) => Some(GitInfo::new(git)),
        None => None,
    }
}

} // verus!
