//! The snapshot of facts that one prompt is drawn from.

use crate::args::CommandLineOptions;
use crate::colors::ShellType;
use crate::power::{PowerInfo, PowerSupplyInfo};
use crate::sys::{path_writable, writability, FileStat, PathWritability};
use crate::text::{
    chars_of, find_from, position_from, push_range, slice_text, string_of, text_of,
};
use crate::vcs::VcsInfo;
use vstd::prelude::*;

verus! {

/// A time of day.
#[derive(Debug, Clone, Copy, PartialEq, Eq, Structural)]
pub struct ClockTime {
    pub hour: u8,
    pub minute: u8,
    pub second: u8,
}

impl ClockTime {
    /// The time is one that a clock shows.
    pub open spec fn is_valid(self) -> bool {
        self.hour < 24 && self.minute < 60 && self.second < 60
    }
}

/// Everything that is known when the prompt is drawn.
pub struct PromptData<V: VcsInfo> {
    pub shell: ShellType,
    /// The exit code of the command that ran last.
    pub error_code: u8,
    pub hostname: Option<String>,
    pub terminal_cols: Option<usize>,
    /// The working directory.
    pub pwd: Option<String>,
    /// Whether the user may write to the working directory.
    pub pwd_writability: PathWritability,
    /// The home directory.
    pub home: Option<String>,
    pub user: Option<String>,
    pub is_root: bool,
    pub time: ClockTime,
    pub power_info: PowerInfo,
    pub vcs_info: Option<V>,
    /// Overrides of the colour theme, as `key=colour,key=colour,...`.
    pub colors: Option<String>,
}

/// The facts as the system hands them out.
pub struct SystemFacts<V: VcsInfo> {
    /// The full name of the host.
    pub hostname: Option<String>,
    pub terminal_cols: Option<usize>,
    pub pwd: Option<String>,
    /// Owner and permissions of the working directory, where it exists.
    pub pwd_stat: Option<FileStat>,
    pub home: Option<String>,
    pub user: Option<String>,
    /// The user id of the process.
    pub uid: u32,
    /// The effective user id of the process.
    pub euid: u32,
    /// The effective group id of the process.
    pub egid: u32,
    pub time: ClockTime,
    pub power_supplies: Vec<PowerSupplyInfo>,
    pub vcs_info: Option<V>,
    pub colors: Option<String>,
}

/// The name of a host up to its first dot.
pub open spec fn short_name(name: Seq<char>) -> Seq<char> {
    name.take(position_from(name, '.', 0))
}

/// The short name of an optional host.
pub open spec fn short_name_of(name: Option<Seq<char>>) -> Option<Seq<char>> {
    match name {
        Some(name) => Some(short_name(name)),
        None => None,
    }
}

/// The name of the host up to its first dot.
pub fn hostname(name: Option<&str>) -> (r: Option<String>)
    ensures
        text_of(r) == short_name_of(slice_text(name)),
{
    match name {
        Some(name) => {
            let name = chars_of(name);
            let dot = find_from(&name, '.', 0);
            let mut short: Vec<char> = Vec::new();
            push_range(&mut short, &name, 0, dot);
            assert(short@ =~= short_name(name@));
            Some(string_of(&short))
        },
        None => None,
    }
}

/// The snapshot for one prompt: the options, the facts as they are, the
/// short name of the host, whether the user is the superuser, and whether
/// the working directory can be written to.
pub fn collect<V: VcsInfo>(opts: CommandLineOptions, facts: SystemFacts<V>) -> (data: PromptData<V>)
    ensures
        data.shell == opts.shell,
        data.error_code == opts.error_code,
        text_of(data.hostname) == short_name_of(text_of(facts.hostname)),
        data.terminal_cols == facts.terminal_cols,
        data.pwd == facts.pwd,
        data.pwd_writability == writability(facts.pwd_stat, facts.euid, facts.egid),
        data.home == facts.home,
        data.user == facts.user,
        data.is_root == (facts.uid == 0),
        data.time == facts.time,
        data.power_info@ == facts.power_supplies@,
        data.vcs_info == facts.vcs_info,
        data.colors == facts.colors,
{
    let hostname = match &facts.hostname {
        Some(name) => hostname(Some(name.as_str())),
        None => None,
    };
    PromptData {
        shell: opts.shell,
        error_code: opts.error_code,
        hostname,
        terminal_cols: facts.terminal_cols,
        pwd: facts.pwd,
        pwd_writability: path_writable(facts.pwd_stat, facts.euid, facts.egid),
        home: facts.home,
        user: facts.user,
        is_root: facts.uid == 0,
        time: facts.time,
        power_info: PowerInfo::new(facts.power_supplies),
        vcs_info: facts.vcs_info,
        colors: facts.colors,
    }
}

} // verus!
