//! What the file system lets the user do with a path.

use vstd::prelude::*;

verus! {

/// Whether the user may write to a path.
#[derive(Debug, Clone, Copy, PartialEq, Eq, Structural)]
pub enum PathWritability {
    Writable,
    NotWritable,
    NotExist,
}

/// The owner, the group and the permission bits of a file.
#[derive(Debug, Clone, Copy, PartialEq, Eq, Structural)]
pub struct FileStat {
    pub uid: u32,
    pub gid: u32,
    pub mode: u32,
}

/// The permission bit that lets the owner write.
pub const OWNER_WRITE: u32 = 0o200;

/// The permission bit that lets the group write.
pub const GROUP_WRITE: u32 = 0o020;

/// The permission bit that lets everybody write.
pub const OTHER_WRITE: u32 = 0o002;

/// Whether the user `euid` of the group `egid` may write to a file: the
/// superuser may; the owner, the group and everybody else may where their
/// permission bit is set. A path without a file does not exist.
pub open spec fn writability(stat: Option<FileStat>, euid: u32, egid: u32) -> PathWritability {
    match stat {
        Some(stat) => if euid == 0 || (stat.uid == euid && stat.mode & OWNER_WRITE != 0) || (
        stat.gid == egid && stat.mode & GROUP_WRITE != 0) || (stat.mode & OTHER_WRITE != 0) {
            PathWritability::Writable
        } else {
            PathWritability::NotWritable
        },
        None => PathWritability::NotExist,
    }
}

/// Whether the user `euid` of the group `egid` may write to the file that
/// `stat` describes.
pub fn path_writable(stat: Option<FileStat>, euid: u32, egid: u32) -> (r: PathWritability)
    ensures
        r == writability(stat, euid, egid),
{
    match stat {
        Some(stat) => {
            if euid == 0 || (stat.uid == euid && stat.mode & OWNER_WRITE != 0) || (stat.gid == egid
                && stat.mode & GROUP_WRITE != 0) || (stat.mode & OTHER_WRITE != 0) {
                PathWritability::Writable
            } else {
                PathWritability::NotWritable
            }
        },
        None => PathWritability::NotExist,
    }
}

} // verus!
