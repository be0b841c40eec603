use fancy_prompt::args::CommandLineOptions;
use fancy_prompt::colors::ShellType;
use fancy_prompt::data::{collect, hostname, ClockTime, SystemFacts};
use fancy_prompt::power::{PowerInfo, PowerSupplyInfo, PowerSupplyType, Usage};
use fancy_prompt::sys::{path_writable, FileStat, PathWritability};
use fancy_prompt::text::{parse_number, trim};
use fancy_prompt::vcs::git::{
    short_id_of, FileStatus, GitInfo, GitSnapshot, Head, RepositoryState,
};
use fancy_prompt::vcs::{detect, ActiveOperation, VcsInfo, VcsType};

fn supply(ty: PowerSupplyType, now: Option<u64>, full: Option<u64>, online: Option<bool>) -> PowerSupplyInfo {
    PowerSupplyInfo { name: String::from("supply"), ty, energy_now: now, energy_full: full, online }
}

fn chars(s: &str) -> Vec<char> {
    s.chars().collect()
}

#[test]
fn power_supplies_are_known_by_name() {
    assert_eq!(PowerSupplyType::parse("Mains"), Some(PowerSupplyType::AC));
    assert_eq!(PowerSupplyType::parse("Battery"), Some(PowerSupplyType::Battery));
    assert_eq!(PowerSupplyType::parse("USB"), Some(PowerSupplyType::Other));
    assert_eq!(PowerSupplyType::parse("UPS"), None);
    assert_eq!(PowerSupplyType::parse("battery"), None);
    assert_eq!(PowerSupplyType::parse(""), None);
    assert_eq!(PowerSupplyType::from_str("Mains"), PowerSupplyType::AC);
    assert_eq!(PowerSupplyType::from_str("Battery"), PowerSupplyType::Battery);
    assert_eq!(PowerSupplyType::from_str("USB"), PowerSupplyType::Other);
}

#[test]
fn readings_are_trimmed_and_parsed() {
    let bat = PowerSupplyInfo::from_readings(
        "BAT0",
        "Battery\n",
        Some("41230000\n"),
        Some(" 57020000 "),
        None,
    )
    .unwrap();
    assert_eq!(bat.name, "BAT0");
    assert_eq!(bat.ty, PowerSupplyType::Battery);
    assert_eq!(bat.energy_now, Some(41230000));
    assert_eq!(bat.energy_full, Some(57020000));
    assert_eq!(bat.online, None);
    let ac = PowerSupplyInfo::from_readings("AC", "Mains\n", None, None, Some("1\n")).unwrap();
    assert_eq!(ac.ty, PowerSupplyType::AC);
    assert_eq!(ac.energy_now, None);
    assert_eq!(ac.online, Some(true));
    let off = PowerSupplyInfo::from_readings("AC", "Mains", None, None, Some("0")).unwrap();
    assert_eq!(off.online, Some(false));
    let usb = PowerSupplyInfo::from_readings("usb", "\tUSB\r\n", None, None, Some("255")).unwrap();
    assert_eq!(usb.ty, PowerSupplyType::Other);
    assert_eq!(usb.online, Some(true));
}

#[test]
fn readings_that_hold_no_number_are_no_readings() {
    let bat = PowerSupplyInfo::from_readings(
        "BAT0",
        "Battery",
        Some("lots"),
        Some("18446744073709551616"),
        Some("256"),
    )
    .unwrap();
    assert_eq!(bat.energy_now, None);
    assert_eq!(bat.energy_full, None);
    assert_eq!(bat.online, None);
    let bat = PowerSupplyInfo::from_readings(
        "BAT0",
        "Battery",
        Some(""),
        Some("18446744073709551615"),
        Some("-1"),
    )
    .unwrap();
    assert_eq!(bat.energy_now, None);
    assert_eq!(bat.energy_full, Some(u64::MAX));
    assert_eq!(bat.online, None);
}

#[test]
fn readings_of_an_unknown_kind_give_no_supply() {
    assert!(PowerSupplyInfo::from_readings("x", "Wireless", None, None, None).is_none());
    assert!(PowerSupplyInfo::from_readings("x", "", Some("1"), Some("2"), Some("1")).is_none());
    assert!(PowerSupplyInfo::from_readings("x", "Bat tery", None, None, None).is_none());
}

#[test]
fn usage_is_the_sum_of_what_the_batteries_hold() {
    let info = PowerInfo::new(vec![
        supply(PowerSupplyType::Battery, Some(30), Some(100), None),
        supply(PowerSupplyType::AC, Some(1000), Some(1), Some(true)),
        supply(PowerSupplyType::Battery, Some(50), Some(60), None),
        supply(PowerSupplyType::Other, None, None, None),
    ]);
    assert_eq!(info.battery_usage(), Some(Usage { now: 80, full: 160 }));
    assert!(info.has_batteries());
    assert!(info.charging());
}

#[test]
fn usage_does_not_overflow() {
    let info = PowerInfo::new(vec![
        supply(PowerSupplyType::Battery, Some(u64::MAX), Some(u64::MAX), None),
        supply(PowerSupplyType::Battery, Some(u64::MAX), Some(u64::MAX), None),
        supply(PowerSupplyType::Battery, Some(1), Some(u64::MAX), None),
    ]);
    assert_eq!(
        info.battery_usage(),
        Some(Usage { now: 2 * (u64::MAX as u128) + 1, full: 3 * (u64::MAX as u128) })
    );
}

#[test]
fn usage_is_unknown_without_readings_or_capacity() {
    assert_eq!(PowerInfo::new(vec![]).battery_usage(), None);
    assert!(!PowerInfo::new(vec![]).has_batteries());
    assert!(!PowerInfo::new(vec![]).charging());
    let info = PowerInfo::new(vec![
        supply(PowerSupplyType::Battery, Some(30), Some(100), None),
        supply(PowerSupplyType::Battery, None, Some(100), None),
    ]);
    assert_eq!(info.battery_usage(), None);
    assert!(info.has_batteries());
    let info = PowerInfo::new(vec![supply(PowerSupplyType::Battery, Some(30), None, None)]);
    assert_eq!(info.battery_usage(), None);
    let info = PowerInfo::new(vec![supply(PowerSupplyType::Battery, Some(0), Some(0), None)]);
    assert_eq!(info.battery_usage(), None);
    let info = PowerInfo::new(vec![supply(PowerSupplyType::AC, Some(3), Some(4), Some(true))]);
    assert_eq!(info.battery_usage(), None);
    assert!(!info.has_batteries());
}

#[test]
fn charging_needs_a_mains_adapter_that_is_online() {
    let info = PowerInfo::new(vec![
        supply(PowerSupplyType::AC, None, None, Some(false)),
        supply(PowerSupplyType::AC, None, None, None),
        supply(PowerSupplyType::Battery, Some(1), Some(2), Some(true)),
        supply(PowerSupplyType::Other, None, None, Some(true)),
    ]);
    assert!(!info.charging());
    let info = PowerInfo::new(vec![
        supply(PowerSupplyType::AC, None, None, Some(false)),
        supply(PowerSupplyType::AC, None, None, Some(true)),
    ]);
    assert!(info.charging());
}

#[test]
fn filled_cells_round_up() {
    assert_eq!(Usage { now: 0, full: 7 }.filled(10), 0);
    assert_eq!(Usage { now: 1, full: 7 }.filled(10), 2);
    assert_eq!(Usage { now: 7, full: 7 }.filled(10), 10);
    assert_eq!(Usage { now: 9, full: 7 }.filled(10), 10);
    assert_eq!(Usage { now: 7, full: 10 }.filled(10), 7);
    assert_eq!(Usage { now: 71, full: 100 }.filled(10), 8);
    assert_eq!(Usage { now: 1, full: 3 }.filled(0), 0);
    assert_eq!(Usage { now: 1, full: 3 }.filled(1), 1);
    assert_eq!(Usage { now: u128::MAX - 1, full: u128::MAX }.filled(1000), 1000);
    assert_eq!(Usage { now: u128::MAX / 2, full: u128::MAX }.filled(1000), 500);
    assert_eq!(Usage { now: u128::MAX / 2 + 1, full: u128::MAX }.filled(1000), 501);
}

#[test]
fn gauge_width_holds_for_every_charge_that_is_not_nothing() {
    for full in 1..40u128 {
        for now in 1..=full {
            for width in 1..25usize {
                let filled = Usage { now, full }.filled(width);
                let unfilled = width - filled;
                assert_eq!(unfilled + 1 + filled.saturating_sub(1), width);
            }
        }
    }
}

#[test]
fn writability_follows_owner_group_and_mode() {
    let stat = |uid, gid, mode| Some(FileStat { uid, gid, mode });
    assert_eq!(path_writable(None, 0, 0), PathWritability::NotExist);
    assert_eq!(path_writable(None, 1000, 1000), PathWritability::NotExist);
    assert_eq!(path_writable(stat(1, 1, 0o000), 0, 0), PathWritability::Writable);
    assert_eq!(path_writable(stat(1000, 100, 0o755), 1000, 100), PathWritability::Writable);
    assert_eq!(path_writable(stat(1000, 100, 0o555), 1000, 100), PathWritability::NotWritable);
    assert_eq!(path_writable(stat(1000, 100, 0o575), 1001, 100), PathWritability::Writable);
    assert_eq!(path_writable(stat(1000, 100, 0o755), 1001, 100), PathWritability::NotWritable);
    assert_eq!(path_writable(stat(1000, 100, 0o775), 1001, 101), PathWritability::NotWritable);
    assert_eq!(path_writable(stat(1000, 100, 0o557), 1001, 101), PathWritability::Writable);
    assert_eq!(path_writable(stat(1000, 100, 0o040777), 1001, 101), PathWritability::Writable);
    assert_eq!(path_writable(stat(1000, 100, 0o040555), 1000, 100), PathWritability::NotWritable);
}

#[test]
fn hostname_ends_at_its_first_dot() {
    assert_eq!(hostname(Some("hush.example.org")), Some(String::from("hush")));
    assert_eq!(hostname(Some("hush")), Some(String::from("hush")));
    assert_eq!(hostname(Some(".local")), Some(String::new()));
    assert_eq!(hostname(Some("a.")), Some(String::from("a")));
    assert_eq!(hostname(Some("")), Some(String::new()));
    assert_eq!(hostname(None), None);
}

#[test]
fn collect_derives_what_the_facts_imply() {
    let facts: SystemFacts<GitInfo> = SystemFacts {
        hostname: Some(String::from("lance.example.org")),
        terminal_cols: Some(132),
        pwd: Some(String::from("/srv")),
        pwd_stat: Some(FileStat { uid: 0, gid: 0, mode: 0o755 }),
        home: Some(String::from("/home/doy")),
        user: Some(String::from("doy")),
        uid: 1000,
        euid: 1000,
        egid: 1000,
        time: ClockTime { hour: 1, minute: 2, second: 3 },
        power_supplies: vec![supply(PowerSupplyType::Battery, Some(1), Some(2), None)],
        vcs_info: None,
        colors: Some(String::from("error=blue")),
    };
    let data = collect(CommandLineOptions { shell: ShellType::Zsh, error_code: 3 }, facts);
    assert_eq!(data.shell, ShellType::Zsh);
    assert_eq!(data.error_code, 3);
    assert_eq!(data.hostname, Some(String::from("lance")));
    assert_eq!(data.terminal_cols, Some(132));
    assert_eq!(data.pwd, Some(String::from("/srv")));
    assert_eq!(data.pwd_writability, PathWritability::NotWritable);
    assert_eq!(data.home, Some(String::from("/home/doy")));
    assert_eq!(data.user, Some(String::from("doy")));
    assert!(!data.is_root);
    assert_eq!(data.time, ClockTime { hour: 1, minute: 2, second: 3 });
    assert_eq!(data.power_info.battery_usage(), Some(Usage { now: 1, full: 2 }));
    assert!(data.vcs_info.is_none());
    assert_eq!(data.colors, Some(String::from("error=blue")));
}

#[test]
fn collect_knows_the_superuser_by_the_user_id() {
    let facts: SystemFacts<GitInfo> = SystemFacts {
        hostname: None,
        terminal_cols: None,
        pwd: None,
        pwd_stat: None,
        home: None,
        user: None,
        uid: 0,
        euid: 1000,
        egid: 1000,
        time: ClockTime { hour: 0, minute: 0, second: 0 },
        power_supplies: vec![],
        vcs_info: None,
        colors: None,
    };
    let data = collect(CommandLineOptions { shell: ShellType::Unknown, error_code: 0 }, facts);
    assert!(data.is_root);
    assert_eq!(data.hostname, None);
    assert_eq!(data.pwd_writability, PathWritability::NotExist);
}

#[test]
fn trim_removes_white_space_at_both_ends() {
    assert_eq!(trim(&chars("  a b \n")), chars("a b"));
    assert_eq!(trim(&chars("a")), chars("a"));
    assert_eq!(trim(&chars("")), chars(""));
    assert_eq!(trim(&chars(" \t\r\n\u{b}\u{c}")), chars(""));
    assert_eq!(trim(&chars("\u{85}\u{a0}\u{1680}x\u{2000}\u{200a}\u{2028}\u{2029}")), chars("x"));
    assert_eq!(trim(&chars("\u{202f}\u{205f}\u{3000}x y\u{3000}")), chars("x y"));
    assert_eq!(trim(&chars("\u{200b}x\u{feff}")), chars("\u{200b}x\u{feff}"));
    for text in ["  a b \n", "\u{85}x\u{2003}", "\u{1c}y\u{1f}", "\u{180e}z", ""] {
        assert_eq!(trim(&chars(text)), chars(text.trim()));
    }
}

#[test]
fn numbers_are_digits_with_an_optional_plus() {
    assert_eq!(parse_number(&chars("0"), 255), Some(0));
    assert_eq!(parse_number(&chars("255"), 255), Some(255));
    assert_eq!(parse_number(&chars("256"), 255), None);
    assert_eq!(parse_number(&chars("+255"), 255), Some(255));
    assert_eq!(parse_number(&chars("000000000000000000000000255"), 255), Some(255));
    assert_eq!(parse_number(&chars("18446744073709551615"), u64::MAX), Some(u64::MAX));
    assert_eq!(parse_number(&chars("18446744073709551616"), u64::MAX), None);
    assert_eq!(parse_number(&chars("99999999999999999999"), u64::MAX), None);
    assert_eq!(parse_number(&chars("0"), 0), Some(0));
    assert_eq!(parse_number(&chars("1"), 0), None);
    for text in ["", "+", "-1", "++1", "1+", "1 ", " 1", "0x10", "1_000", "١٢٣", "12a"] {
        assert_eq!(parse_number(&chars(text), u64::MAX), None);
    }
}

fn clean_file() -> FileStatus {
    FileStatus {
        index_new: false,
        index_modified: false,
        index_deleted: false,
        index_renamed: false,
        index_typechange: false,
        wt_new: false,
        wt_modified: false,
        wt_deleted: false,
        wt_typechange: false,
        wt_renamed: false,
        conflicted: false,
    }
}

fn branch_head(name: &str) -> Head {
    Head { is_branch: true, shorthand: Some(String::from(name)), target: Some(vec![0xab; 20]) }
}

fn snapshot(files: Vec<FileStatus>, head: Option<Head>) -> GitSnapshot {
    GitSnapshot { files, head, state: RepositoryState::Clean, divergence: Some((1, 2)) }
}

#[test]
fn file_statuses_fall_into_three_kinds() {
    let modified = [
        FileStatus { wt_deleted: true, ..clean_file() },
        FileStatus { wt_modified: true, ..clean_file() },
        FileStatus { wt_renamed: true, ..clean_file() },
        FileStatus { wt_typechange: true, ..clean_file() },
        FileStatus { conflicted: true, ..clean_file() },
    ];
    for file in modified {
        assert!(file.modified() && !file.staged() && !file.untracked());
        let info = GitInfo::new(&snapshot(vec![clean_file(), file], None));
        assert!(info.has_modified_files() && !info.has_staged_files() && !info.has_new_files());
    }
    let staged = [
        FileStatus { index_deleted: true, ..clean_file() },
        FileStatus { index_modified: true, ..clean_file() },
        FileStatus { index_new: true, ..clean_file() },
        FileStatus { index_renamed: true, ..clean_file() },
        FileStatus { index_typechange: true, ..clean_file() },
    ];
    for file in staged {
        assert!(!file.modified() && file.staged() && !file.untracked());
        let info = GitInfo::new(&snapshot(vec![file, clean_file()], None));
        assert!(!info.has_modified_files() && info.has_staged_files() && !info.has_new_files());
    }
    let new = FileStatus { wt_new: true, ..clean_file() };
    assert!(!new.modified() && !new.staged() && new.untracked());
    let info = GitInfo::new(&snapshot(vec![new], None));
    assert!(!info.has_modified_files() && !info.has_staged_files() && info.has_new_files());
    let info = GitInfo::new(&snapshot(vec![clean_file(), clean_file()], None));
    assert!(!info.has_modified_files() && !info.has_staged_files() && !info.has_new_files());
    let info = GitInfo::new(&snapshot(vec![], None));
    assert!(!info.has_modified_files() && !info.has_staged_files() && !info.has_new_files());
}

#[test]
fn git_status_collects_every_kind_of_change() {
    let files = vec![
        FileStatus { wt_new: true, ..clean_file() },
        FileStatus { wt_modified: true, index_modified: true, ..clean_file() },
    ];
    let info = GitInfo::new(&snapshot(files, Some(branch_head("dev"))));
    assert_eq!(info.vcs(), VcsType::Git);
    assert!(info.has_modified_files());
    assert!(info.has_staged_files());
    assert!(info.has_new_files());
    assert!(info.has_commits());
    assert!(info.is_dirty());
    assert!(!info.is_error());
    assert_eq!(info.branch(), Some(String::from("dev")));
    assert_eq!(info.remote_branch_diff(), Some((1, 2)));
    assert_eq!(info.active_operation(), ActiveOperation::Idle);
}

#[test]
fn git_status_of_an_empty_repository_is_an_error() {
    let info = GitInfo::new(&snapshot(vec![], None));
    assert!(!info.has_commits());
    assert!(info.is_error());
    assert!(info.is_dirty());
    assert_eq!(info.branch(), None);
    assert_eq!(info.remote_branch_diff(), None);
}

#[test]
fn git_status_names_a_detached_head_by_its_short_id() {
    let head = Head {
        is_branch: false,
        shorthand: Some(String::from("HEAD")),
        target: Some(vec![
            0x01, 0x23, 0x45, 0x67, 0x89, 0xab, 0xcd, 0xef, 0x00, 0xff, 0x10, 0x20, 0x30, 0x40,
            0x50, 0x60, 0x70, 0x80, 0x90, 0xa0,
        ]),
    };
    let info = GitInfo::new(&snapshot(vec![], Some(head)));
    assert_eq!(info.branch(), Some(String::from("0123456")));
    assert_eq!(info.remote_branch_diff(), None);
    assert!(info.has_commits());
    let lost = Head { is_branch: false, shorthand: Some(String::from("HEAD")), target: None };
    let info = GitInfo::new(&snapshot(vec![], Some(lost)));
    assert_eq!(info.branch(), None);
    assert!(info.has_commits());
}

#[test]
fn short_ids_are_seven_hexadecimal_digits() {
    assert_eq!(short_id_of(&vec![0xde, 0xad, 0xbe, 0xef, 0x01]), "deadbee");
    assert_eq!(short_id_of(&vec![0x0a, 0xb0, 0x0c, 0xd0]), "0ab00cd");
    assert_eq!(short_id_of(&vec![0xff, 0x00, 0x9a]), "ff009a");
    assert_eq!(short_id_of(&vec![0x0f]), "0f");
    assert_eq!(short_id_of(&vec![]), "");
}

#[test]
fn divergence_is_known_only_for_a_branch_with_a_name_and_a_commit() {
    assert_eq!(
        GitSnapshot::upstream_ref(&Some(branch_head("dev"))),
        Some(String::from("refs/remotes/origin/dev"))
    );
    assert_eq!(
        GitSnapshot::upstream_ref(&Some(branch_head("feature/x"))),
        Some(String::from("refs/remotes/origin/feature/x"))
    );
    assert_eq!(GitSnapshot::upstream_ref(&None), None);
    let detached = Head { is_branch: false, ..branch_head("dev") };
    assert_eq!(GitSnapshot::upstream_ref(&Some(detached)), None);
    let unborn = Head { target: None, ..branch_head("dev") };
    assert_eq!(GitSnapshot::upstream_ref(&Some(unborn)), None);
    let nameless = Head { shorthand: None, ..branch_head("dev") };
    assert_eq!(GitSnapshot::upstream_ref(&Some(nameless)), None);

    let with = |head: Head, divergence| {
        GitInfo::new(&GitSnapshot {
            files: vec![],
            head: Some(head),
            state: RepositoryState::Clean,
            divergence,
        })
        .remote_branch_diff()
    };
    assert_eq!(with(branch_head("dev"), Some((0, 0))), Some((0, 0)));
    assert_eq!(with(branch_head("dev"), None), None);
    assert_eq!(with(Head { is_branch: false, ..branch_head("dev") }, Some((3, 4))), None);
    assert_eq!(with(Head { target: None, ..branch_head("dev") }, Some((3, 4))), None);
    assert_eq!(with(Head { shorthand: None, ..branch_head("dev") }, Some((3, 4))), None);
}

#[test]
fn repository_states_map_to_operations() {
    let states = [
        (RepositoryState::Clean, ActiveOperation::Idle),
        (RepositoryState::Merge, ActiveOperation::Merge),
        (RepositoryState::Revert, ActiveOperation::Revert),
        (RepositoryState::RevertSequence, ActiveOperation::Revert),
        (RepositoryState::CherryPick, ActiveOperation::CherryPick),
        (RepositoryState::CherryPickSequence, ActiveOperation::CherryPick),
        (RepositoryState::Bisect, ActiveOperation::Bisect),
        (RepositoryState::Rebase, ActiveOperation::Rebase),
        (RepositoryState::RebaseInteractive, ActiveOperation::Rebase),
        (RepositoryState::RebaseMerge, ActiveOperation::Rebase),
        (RepositoryState::ApplyMailbox, ActiveOperation::Idle),
        (RepositoryState::ApplyMailboxOrRebase, ActiveOperation::Idle),
    ];
    for (state, operation) in states {
        assert_eq!(state.active_operation(), operation);
        let git = GitSnapshot { files: vec![], head: None, state, divergence: None };
        assert_eq!(GitInfo::new(&git).active_operation(), operation);
    }
}

#[test]
fn detect_finds_git_where_there_is_a_snapshot() {
    assert!(detect(None).is_none());
    assert!(fancy_prompt::vcs::git::detect(None).is_none());
    let git = snapshot(vec![], Some(branch_head("master")));
    let info = detect(Some(&git)).unwrap();
    assert_eq!(info.branch(), Some(String::from("master")));
    let info = fancy_prompt::vcs::git::detect(Some(&git)).unwrap();
    assert_eq!(info.remote_branch_diff(), Some((1, 2)));
}
