use fancy_prompt::colors::{Color, ShellType, TermOp};
use fancy_prompt::data::{ClockTime, PromptData};
use fancy_prompt::path::compress_path;
use fancy_prompt::power::{PowerInfo, PowerSupplyInfo, PowerSupplyType};
use fancy_prompt::prompt::{layout, path_color, Prompt, PromptError};
use fancy_prompt::sys::PathWritability;
use fancy_prompt::token::{
    active_operation_id, compress_vcs, format_vcs, status_color, status_token, vcs_color, vcs_id,
};
use fancy_prompt::vcs::{ActiveOperation, VcsInfo, VcsType};

#[derive(Clone)]
struct TestVcs {
    vcs: VcsType,
    has_modified_files: bool,
    has_staged_files: bool,
    has_new_files: bool,
    has_commits: bool,
    active_operation: ActiveOperation,
    branch: Option<String>,
    remote_branch_diff: Option<(usize, usize)>,
}

impl VcsInfo for TestVcs {
    fn vcs(&self) -> VcsType {
        self.vcs
    }
    fn has_modified_files(&self) -> bool {
        self.has_modified_files
    }
    fn has_staged_files(&self) -> bool {
        self.has_staged_files
    }
    fn has_new_files(&self) -> bool {
        self.has_new_files
    }
    fn has_commits(&self) -> bool {
        self.has_commits
    }
    fn active_operation(&self) -> ActiveOperation {
        self.active_operation
    }
    fn branch(&self) -> Option<String> {
        self.branch.clone()
    }
    fn remote_branch_diff(&self) -> Option<(usize, usize)> {
        self.remote_branch_diff
    }
}

fn clean_vcs() -> TestVcs {
    TestVcs {
        vcs: VcsType::Git,
        has_modified_files: false,
        has_staged_files: false,
        has_new_files: false,
        has_commits: true,
        active_operation: ActiveOperation::Idle,
        branch: Some(String::from("master")),
        remote_branch_diff: Some((0, 0)),
    }
}

fn visible(ops: &[TermOp]) -> String {
    let mut text = String::new();
    for op in ops {
        if let TermOp::Text(s) = op {
            text.push_str(s);
        }
    }
    text
}

fn snapshot(cols: Option<usize>) -> PromptData<TestVcs> {
    PromptData {
        shell: ShellType::Unknown,
        error_code: 0,
        hostname: Some(String::from("hush")),
        terminal_cols: cols,
        pwd: Some(String::from("/home/doy/coding/fancy-prompt")),
        pwd_writability: PathWritability::Writable,
        home: Some(String::from("/home/doy")),
        user: Some(String::from("doy")),
        is_root: false,
        time: ClockTime { hour: 17, minute: 35, second: 45 },
        power_info: PowerInfo::new(vec![]),
        vcs_info: None,
        colors: None,
    }
}

fn battery(now: u64, full: u64) -> PowerSupplyInfo {
    PowerSupplyInfo {
        name: String::from("BAT0"),
        ty: PowerSupplyType::Battery,
        energy_now: Some(now),
        energy_full: Some(full),
        online: None,
    }
}

fn mains(online: bool) -> PowerSupplyInfo {
    PowerSupplyInfo {
        name: String::from("AC"),
        ty: PowerSupplyType::AC,
        energy_now: None,
        energy_full: None,
        online: Some(online),
    }
}

#[test]
fn test_render() {
    let data = snapshot(Some(80));
    let ops = Prompt::new(data).unwrap().display();
    let text = visible(&ops);
    let rows: Vec<&str> = text.split('\n').collect();
    assert_eq!(rows.len(), 2);
    assert_eq!(
        rows[0],
        format!(" (~/coding/fancy-prompt) {} doy@hush [17:35:45] ", "-".repeat(34))
    );
    assert_eq!(rows[0].len(), 80);
    assert_eq!(rows[1], "000 $ ");
}

#[test]
fn test_compress_path() {
    {
        let home = &Some("/home/doy");
        let path = &Some("/home/doy/coding/fancy-prompt");
        let expecteds = vec![
            "~/coding/fancy-prompt", // 25
            "~/coding/fancy-prompt",
            "~/coding/fancy-prompt",
            "~/coding/fancy-prompt",
            "~/coding/fancy-prompt",
            "~/c/fancy-prompt", // 20
            "~/c/fancy-prompt",
            "~/c/fancy-prompt",
            "~/c/fancy-prompt",
            "~/c/fancy-prompt",
            "~/c/fancy...mpt", // 15
            "~/c/fanc...mpt",
            "~/c/fan...mpt",
            "~/c/fa...mpt",
            "~/c/f...mpt",
            "~/c/...mpt",
        ];
        for (i, &expected) in expecteds.iter().enumerate() {
            assert_eq!(compress_path(path, home, 25 - i), expected);
        }
    }
}

#[test]
fn test_compress_vcs() {
    {
        let vcs = "g:this-is-a-branch:-";
        let expecteds = vec![
            "g:this-is-a-branch:-", // 25
            "g:this-is-a-branch:-",
            "g:this-is-a-branch:-",
            "g:this-is-a-branch:-",
            "g:this-is-a-branch:-",
            "g:this-is-a-branch:-",
            "g:this-is-a...nch:-", // 19
            "g:this-is-...nch:-",
            "g:this-is...nch:-",
            "g:this-i...nch:-",
            "g:this-...nch:-",
            "g:this...nch:-",
            "g:thi...nch:-",
            "g:th...nch:-",
            "g:t...nch:-",
            "g:...nch:-",
        ];
        for (i, &expected) in expecteds.iter().enumerate() {
            assert_eq!(compress_vcs(vcs, 25 - i), expected);
        }
    }
    {
        let vcs = "g:this-is-a-branch";
        let expecteds = vec![
            "g:this-is-a-branch", // 23
            "g:this-is-a-branch",
            "g:this-is-a-branch",
            "g:this-is-a-branch",
            "g:this-is-a-branch",
            "g:this-is-a-branch",
            "g:this-is-a...nch", // 17
            "g:this-is-...nch",
            "g:this-is...nch",
            "g:this-i...nch",
            "g:this-...nch",
            "g:this...nch",
            "g:thi...nch",
            "g:th...nch",
            "g:t...nch",
            "g:...nch",
        ];
        for (i, &expected) in expecteds.iter().enumerate() {
            assert_eq!(compress_vcs(vcs, 23 - i), expected);
        }
    }
    {
        let vcs = "g*:this-is-a-branch:+1-14(m)";
        let expecteds = vec![
            "g*:this-is-a-branch:+1-14(m)", // 33
            "g*:this-is-a-branch:+1-14(m)",
            "g*:this-is-a-branch:+1-14(m)",
            "g*:this-is-a-branch:+1-14(m)",
            "g*:this-is-a-branch:+1-14(m)",
            "g*:this-is-a-branch:+1-14(m)",
            "g*:this-is-a...nch:+1-14(m)", // 27
            "g*:this-is-...nch:+1-14(m)",
            "g*:this-is...nch:+1-14(m)",
            "g*:this-i...nch:+1-14(m)",
            "g*:this-...nch:+1-14(m)",
            "g*:this...nch:+1-14(m)",
            "g*:thi...nch:+1-14(m)",
            "g*:th...nch:+1-14(m)",
            "g*:t...nch:+1-14(m)",
            "g*:...nch:+1-14(m)",
        ];
        for (i, &expected) in expecteds.iter().enumerate() {
            assert_eq!(compress_vcs(vcs, 33 - i), expected);
        }
    }
}

#[test]
fn test_format_vcs() {
    {
        assert_eq!(format_vcs::<TestVcs>(None), None)
    }
    {
        let test_vcs = TestVcs {
            vcs: VcsType::Git,
            has_modified_files: false,
            has_staged_files: false,
            has_new_files: false,
            has_commits: true,
            active_operation: ActiveOperation::Idle,
            branch: Some(String::from("master")),
            remote_branch_diff: Some((0, 0)),
        };

        assert_eq!(format_vcs(Some(&test_vcs)), Some(String::from("g")));
        assert_eq!(vcs_color(Some(&test_vcs)), String::from("default"));
    }
    {
        let test_vcs = TestVcs {
            vcs: VcsType::Git,
            has_modified_files: false,
            has_staged_files: false,
            has_new_files: false,
            has_commits: true,
            active_operation: ActiveOperation::Idle,
            branch: Some(String::from("dev")),
            remote_branch_diff: Some((0, 0)),
        };

        assert_eq!(format_vcs(Some(&test_vcs)), Some(String::from("g:dev")));
        assert_eq!(vcs_color(Some(&test_vcs)), String::from("default"));
    }
    {
        let test_vcs = TestVcs {
            vcs: VcsType::Git,
            has_modified_files: false,
            has_staged_files: false,
            has_new_files: false,
            has_commits: true,
            active_operation: ActiveOperation::Idle,
            branch: Some(String::from("master")),
            remote_branch_diff: None,
        };

        assert_eq!(format_vcs(Some(&test_vcs)), Some(String::from("g:-")));
        assert_eq!(vcs_color(Some(&test_vcs)), String::from("vcs_dirty"));
    }
    {
        let test_vcs = TestVcs {
            vcs: VcsType::Git,
            has_modified_files: false,
            has_staged_files: false,
            has_new_files: false,
            has_commits: true,
            active_operation: ActiveOperation::Idle,
            branch: Some(String::from("dev")),
            remote_branch_diff: None,
        };

        assert_eq!(format_vcs(Some(&test_vcs)), Some(String::from("g:dev:-")));
        assert_eq!(vcs_color(Some(&test_vcs)), String::from("vcs_dirty"));
    }
    {
        let test_vcs = TestVcs {
            vcs: VcsType::Git,
            has_modified_files: true,
            has_staged_files: true,
            has_new_files: true,
            has_commits: true,
            active_operation: ActiveOperation::Idle,
            branch: Some(String::from("master")),
            remote_branch_diff: None,
        };

        assert_eq!(format_vcs(Some(&test_vcs)), Some(String::from("g*+?:-")));
        assert_eq!(vcs_color(Some(&test_vcs)), String::from("vcs_dirty"));
    }
    {
        let test_vcs = TestVcs {
            vcs: VcsType::Git,
            has_modified_files: true,
            has_staged_files: true,
            has_new_files: true,
            has_commits: true,
            active_operation: ActiveOperation::Idle,
            branch: Some(String::from("dev")),
            remote_branch_diff: None,
        };

        assert_eq!(
            format_vcs(Some(&test_vcs)),
            Some(String::from("g*+?:dev:-"))
        );
        assert_eq!(vcs_color(Some(&test_vcs)), String::from("vcs_dirty"));
    }
    {
        let test_vcs = TestVcs {
            vcs: VcsType::Git,
            has_modified_files: false,
            has_staged_files: false,
            has_new_files: false,
            has_commits: false,
            active_operation: ActiveOperation::Idle,
            branch: None,
            remote_branch_diff: None,
        };

        assert_eq!(format_vcs(Some(&test_vcs)), Some(String::from("g!")));
        assert_eq!(vcs_color(Some(&test_vcs)), String::from("vcs_error"));
    }
    {
        let test_vcs = TestVcs {
            vcs: VcsType::Git,
            has_modified_files: false,
            has_staged_files: false,
            has_new_files: false,
            has_commits: true,
            active_operation: ActiveOperation::Idle,
            branch: Some(String::from("master")),
            remote_branch_diff: Some((2, 3)),
        };

        assert_eq!(format_vcs(Some(&test_vcs)), Some(String::from("g:+2-3")));
        assert_eq!(vcs_color(Some(&test_vcs)), String::from("vcs_dirty"));
    }
}

#[test]
fn format_vcs_shows_unknown_branch_and_operation() {
    let mut vcs = clean_vcs();
    vcs.branch = None;
    vcs.active_operation = ActiveOperation::Rebase;
    assert_eq!(format_vcs(Some(&vcs)), Some(String::from("g:???(r)")));
    vcs.branch = Some(String::new());
    vcs.active_operation = ActiveOperation::Merge;
    vcs.remote_branch_diff = Some((0, 12));
    assert_eq!(format_vcs(Some(&vcs)), Some(String::from("g:-12(m)")));
    vcs.remote_branch_diff = Some((105, 0));
    vcs.branch = Some(String::from("topic"));
    vcs.active_operation = ActiveOperation::CherryPick;
    assert_eq!(format_vcs(Some(&vcs)), Some(String::from("g:topic:+105(c)")));
}

#[test]
fn format_vcs_stops_after_the_mark_of_no_commits() {
    let mut vcs = clean_vcs();
    vcs.has_commits = false;
    vcs.has_modified_files = true;
    vcs.has_new_files = true;
    vcs.branch = Some(String::from("dev"));
    vcs.remote_branch_diff = Some((1, 1));
    vcs.active_operation = ActiveOperation::Bisect;
    assert_eq!(format_vcs(Some(&vcs)), Some(String::from("g*?!")));
    assert_eq!(vcs_color(Some(&vcs)), "vcs_error");
    assert_eq!(vcs_color::<TestVcs>(None), "vcs_error");
}

#[test]
fn dirty_and_error_follow_the_facts() {
    let mut vcs = clean_vcs();
    assert!(!vcs.is_dirty());
    assert!(!vcs.is_error());
    vcs.remote_branch_diff = Some((0, 1));
    assert!(vcs.is_dirty());
    vcs.remote_branch_diff = None;
    assert!(vcs.is_dirty());
    vcs.remote_branch_diff = Some((0, 0));
    vcs.has_staged_files = true;
    assert!(vcs.is_dirty());
    vcs.has_commits = false;
    assert!(vcs.is_error());
}

#[test]
fn operation_letters_and_glyph() {
    assert_eq!(vcs_id(VcsType::Git), "g");
    assert_eq!(active_operation_id(ActiveOperation::Idle), "");
    assert_eq!(active_operation_id(ActiveOperation::Merge), "m");
    assert_eq!(active_operation_id(ActiveOperation::Revert), "v");
    assert_eq!(active_operation_id(ActiveOperation::CherryPick), "c");
    assert_eq!(active_operation_id(ActiveOperation::Bisect), "b");
    assert_eq!(active_operation_id(ActiveOperation::Rebase), "r");
}

#[test]
fn compress_path_without_path_or_home() {
    assert_eq!(compress_path(&None, &Some("/home/doy"), 25), "???");
    assert_eq!(compress_path(&None, &None, 0), "???");
    assert_eq!(
        compress_path(&Some("/usr/local/share/doc"), &None, 30),
        "/usr/local/share/doc"
    );
    assert_eq!(
        compress_path(&Some("/usr/local/share/doc"), &Some("/home/doy"), 30),
        "/usr/local/share/doc"
    );
    assert_eq!(compress_path(&Some("/home/doy"), &Some("/home/doy"), 30), "~");
}

#[test]
fn compress_path_abbreviates_every_component_that_a_pass_can_reach() {
    let path = &Some("/usr/local/share/doc");
    assert_eq!(compress_path(path, &None, 20), "/usr/local/share/doc");
    assert_eq!(compress_path(path, &None, 19), "/u/local/s/doc");
    assert_eq!(compress_path(path, &None, 14), "/u/local/s/doc");
    assert_eq!(compress_path(path, &None, 13), "/u/l/s/doc");
    assert_eq!(compress_path(path, &None, 10), "/u/l/s/doc");
    assert_eq!(compress_path(path, &None, 9), "/u/...doc");
    assert_eq!(compress_path(path, &None, 6), "...doc");
}

#[test]
fn compress_path_lets_components_that_share_a_slash_take_turns() {
    let path = &Some("/aaa/bbb/ccc/ddd");
    assert_eq!(compress_path(path, &None, 16), "/aaa/bbb/ccc/ddd");
    assert_eq!(compress_path(path, &None, 15), "/a/bbb/c/ddd");
    assert_eq!(compress_path(path, &None, 14), "/a/bbb/c/ddd");
    assert_eq!(compress_path(path, &None, 12), "/a/bbb/c/ddd");
    assert_eq!(compress_path(path, &None, 11), "/a/b/c/ddd");
    assert_eq!(compress_path(path, &None, 10), "/a/b/c/ddd");
    assert_eq!(compress_path(path, &None, 9), "/a/...ddd");
    let path = &Some("/home/doy/src/project/crates/core/tests");
    let home = &Some("/home/doy");
    assert_eq!(compress_path(path, home, 31), "~/src/project/crates/core/tests");
    assert_eq!(compress_path(path, home, 30), "~/s/project/c/core/tests");
    assert_eq!(compress_path(path, home, 24), "~/s/project/c/core/tests");
    assert_eq!(compress_path(path, home, 23), "~/s/p/c/c/tests");
    assert_eq!(compress_path(path, home, 15), "~/s/p/c/c/tests");
    assert_eq!(compress_path(path, home, 14), "~/s/p/c/...sts");
}

#[test]
fn compress_path_leaves_short_components_and_the_last_one() {
    assert_eq!(compress_path(&Some("/a/b/c/defghij"), &None, 10), "/a/b...hij");
    assert_eq!(compress_path(&Some("//abc//defg/h"), &None, 0), "//a//d/h");
    assert_eq!(compress_path(&Some("abc/defg/"), &None, 0), "abc/d/");
    assert_eq!(compress_path(&Some("/abcdefgh"), &None, 0), "/abcdefgh");
}

#[test]
fn compress_path_below_the_smallest_cut_only_abbreviates() {
    assert_eq!(compress_path(&Some("/usr/local/share/doc"), &None, 5), "/u/l/s/doc");
    assert_eq!(compress_path(&Some("/usr/local/share/doc"), &None, 0), "/u/l/s/doc");
}

#[test]
fn compress_path_fits_every_budget_from_the_smallest_cut() {
    let home = &Some("/home/doy");
    let path = &Some("/home/doy/src/project/crates/core/tests");
    let mut longer = usize::MAX;
    for budget in (6..45).rev() {
        let shown = compress_path(path, home, budget);
        assert!(shown.chars().count() <= budget);
        assert!(shown.chars().count() <= longer);
        longer = shown.chars().count();
        if shown.contains("...") {
            assert!(shown.ends_with("sts"));
            assert_eq!(shown.chars().count(), budget);
        }
    }
}

#[test]
fn compress_path_is_idempotent() {
    let home = &Some("/home/doy");
    let path = &Some("/home/doy/src/project/crates/core/tests");
    for budget in 6..45 {
        let once = compress_path(path, home, budget);
        for again in budget..50 {
            assert_eq!(compress_path(&Some(once.as_str()), &None, again), once);
        }
    }
}

#[test]
fn compress_path_counts_characters() {
    assert_eq!(compress_path(&Some("/straße/größe/übung"), &None, 19), "/straße/größe/übung");
    assert_eq!(compress_path(&Some("/straße/größe/übung"), &None, 18), "/s/größe/übung");
    assert_eq!(compress_path(&Some("/straße/größe/übung"), &None, 9), "/s/...ung");
}

#[test]
fn compress_vcs_leaves_alone_what_it_cannot_shorten() {
    assert_eq!(compress_vcs("this-has-no-colon-at-all", 10), "this-has-no-colon-at-all");
    assert_eq!(compress_vcs(":starts-with-a-colon", 10), ":starts-with-a-colon");
    assert_eq!(compress_vcs("g:this-is-a-branch:-", 9), "g:this-is-a-branch:-");
    assert_eq!(compress_vcs("g:this-is-a-branch:-", 0), "g:this-is-a-branch:-");
    assert_eq!(compress_vcs("g:this-is-a-branch", 7), "g:this-is-a-branch");
    assert_eq!(compress_vcs("", 0), "");
}

#[test]
fn compress_vcs_keeps_prefix_suffix_and_budget() {
    let vcs = "g*+?:a-rather-long-branch-name:+12-7(r)";
    for budget in 20..vcs.len() {
        let shown = compress_vcs(vcs, budget);
        assert_eq!(shown.len(), budget);
        assert!(shown.starts_with("g*+?:"));
        assert!(shown.ends_with("ame:+12-7(r)"));
        assert!(shown.contains("..."));
    }
    assert_eq!(compress_vcs(vcs, 20), "g*+?:...ame:+12-7(r)");
    assert_eq!(compress_vcs(vcs, 19), vcs);
}

#[test]
fn compress_vcs_treats_a_trailing_colon_as_part_of_the_middle() {
    assert_eq!(compress_vcs("g:abcdefghijkl:", 12), "g:abcd...kl:");
    assert_eq!(compress_vcs("g:ab:cdefghij:kl", 14), "g:ab:...hij:kl");
}

#[test]
fn compress_vcs_is_idempotent() {
    let tokens = [
        ("g:this-is-a-branch:-", 10),
        ("g*:this-is-a-branch:+1-14(m)", 18),
        ("no-colon-in-this-token", 0),
    ];
    for (vcs, fixed) in tokens {
        for budget in fixed..30 {
            let once = compress_vcs(vcs, budget);
            for again in budget..35 {
                assert_eq!(compress_vcs(&once, again), once);
            }
        }
        for budget in 0..30 {
            let once = compress_vcs(vcs, budget);
            assert_eq!(compress_vcs(&once, budget), once);
        }
    }
}

#[test]
fn compress_vcs_shortens_later_what_did_not_fit_before() {
    let stuck = compress_vcs("g:this-is-a-branch:-", 9);
    assert_eq!(stuck, "g:this-is-a-branch:-");
    assert_eq!(compress_vcs(&stuck, 9), stuck);
    assert_eq!(compress_vcs(&stuck, 12), "g:th...nch:-");
    assert_eq!(compress_vcs(&stuck, 20), stuck);
}

#[test]
fn layout_leaves_the_rest_to_the_path() {
    assert_eq!(layout(80, 3, 4, None, false), Ok(54));
    assert_eq!(layout(80, 3, 4, Some(6), false), Ok(47));
    assert_eq!(layout(80, 3, 4, Some(6), true), Ok(34));
    assert_eq!(layout(80, 3, 4, None, true), Ok(41));
    assert_eq!(layout(36, 3, 4, None, false), Ok(10));
}

#[test]
fn layout_refuses_a_terminal_that_is_too_narrow() {
    assert_eq!(
        layout(9, 3, 4, None, false),
        Err(PromptError::TerminalTooSmall { needed: 36 })
    );
    assert_eq!(
        layout(35, 3, 4, None, false),
        Err(PromptError::TerminalTooSmall { needed: 36 })
    );
    assert_eq!(
        layout(0, 3, 4, Some(20), true),
        Err(PromptError::TerminalTooSmall { needed: 70 })
    );
    assert_eq!(
        layout(usize::MAX, usize::MAX, 1, None, false),
        Err(PromptError::TerminalTooSmall { needed: usize::MAX as u128 + 30 })
    );
    assert_eq!(
        PromptError::TerminalTooSmall { needed: 36 }.message(),
        "terminal too small (need at least 36 cols)"
    );
}

#[test]
fn layout_fails_in_nine_columns() {
    let prompt = Prompt::new(snapshot(Some(9))).unwrap();
    let error = prompt.layout().unwrap_err();
    assert_eq!(error, PromptError::TerminalTooSmall { needed: 36 });
    assert_eq!(error.message(), "terminal too small (need at least 36 cols)");
    let prompt = Prompt::new(snapshot(Some(30))).unwrap();
    assert_eq!(prompt.layout(), Err(PromptError::TerminalTooSmall { needed: 36 }));
    assert!(Prompt::new(snapshot(Some(35))).unwrap().layout().is_err());
    assert_eq!(Prompt::new(snapshot(Some(36))).unwrap().layout(), Ok(10));
    assert_eq!(Prompt::new(snapshot(None)).unwrap().layout(), Ok(54));
}

#[test]
fn display_fills_the_narrowest_terminal_that_is_wide_enough() {
    let prompt = Prompt::new(snapshot(Some(36))).unwrap();
    assert_eq!(prompt.layout(), Ok(10));
    let text = visible(&prompt.display());
    let rows: Vec<&str> = text.split('\n').collect();
    assert_eq!(rows[0], " (~/c/...mpt) - doy@hush [17:35:45] ");
    assert_eq!(rows[0].len(), 36);
}

#[test]
fn display_defaults_to_eighty_columns_and_unknown_names() {
    let mut data = snapshot(None);
    data.user = None;
    data.hostname = None;
    data.pwd = None;
    data.is_root = true;
    data.error_code = 7;
    let text = visible(&Prompt::new(data).unwrap().display());
    let rows: Vec<&str> = text.split('\n').collect();
    assert_eq!(
        rows[0],
        format!(" (???) {} ???@??? [17:35:45] ", "-".repeat(53))
    );
    assert_eq!(rows[0].len(), 80);
    assert_eq!(rows[1], "007 # ");
}

#[test]
fn display_fills_the_row_with_token_and_battery() {
    let mut data = snapshot(Some(100));
    let mut vcs = clean_vcs();
    vcs.branch = Some(String::from("a-branch-with-quite-a-long-name"));
    vcs.has_modified_files = true;
    vcs.remote_branch_diff = Some((1, 0));
    data.vcs_info = Some(vcs);
    data.power_info = PowerInfo::new(vec![mains(false), battery(45, 100)]);
    let text = visible(&Prompt::new(data).unwrap().display());
    let rows: Vec<&str> = text.split('\n').collect();
    assert_eq!(
        rows[0],
        format!(
            " (~/coding/fancy-prompt|g*:a-branch...ame:+1) {} {{----->====}} doy@hush [17:35:45] ",
            "-".repeat(20)
        )
    );
    assert_eq!(rows[0].len(), 100);
}

#[test]
fn display_cuts_the_path_to_what_is_left() {
    let mut data = snapshot(Some(50));
    data.power_info = PowerInfo::new(vec![battery(1, 1)]);
    let text = visible(&Prompt::new(data).unwrap().display());
    let rows: Vec<&str> = text.split('\n').collect();
    assert_eq!(rows[0], " (~/c/f...mpt) - {>=========} doy@hush [17:35:45] ");
    assert_eq!(rows[0].len(), 50);
}

fn gauge_of(supplies: Vec<PowerSupplyInfo>) -> String {
    let mut data = snapshot(Some(120));
    data.power_info = PowerInfo::new(supplies);
    let text = visible(&Prompt::new(data).unwrap().display());
    let open = text.find('{').unwrap();
    let close = text.find('}').unwrap();
    text[open + 1..close].to_string()
}

#[test]
fn gauge_rounds_the_filled_cells_up() {
    assert_eq!(gauge_of(vec![battery(100, 100)]), ">=========");
    assert_eq!(gauge_of(vec![battery(91, 100)]), ">=========");
    assert_eq!(gauge_of(vec![battery(90, 100)]), "->========");
    assert_eq!(gauge_of(vec![battery(50, 100)]), "----->====");
    assert_eq!(gauge_of(vec![battery(41, 100)]), "----->====");
    assert_eq!(gauge_of(vec![battery(11, 100)]), "-------->=");
    assert_eq!(gauge_of(vec![battery(10, 100)]), "--------->");
    assert_eq!(gauge_of(vec![battery(1, 100)]), "--------->");
    assert_eq!(gauge_of(vec![battery(1, u64::MAX)]), "--------->");
    assert_eq!(gauge_of(vec![battery(u64::MAX - 1, u64::MAX)]), ">=========");
}

#[test]
fn gauge_of_an_empty_battery_is_one_column_wider() {
    assert_eq!(gauge_of(vec![battery(0, 100)]), "---------->");
    let mut data = snapshot(Some(80));
    data.power_info = PowerInfo::new(vec![battery(0, 100)]);
    let text = visible(&Prompt::new(data).unwrap().display());
    let rows: Vec<&str> = text.split('\n').collect();
    assert_eq!(rows[0].len(), 81);
}

#[test]
fn gauge_shows_charging_overcharge_and_unknown() {
    assert_eq!(gauge_of(vec![mains(true), battery(50, 100)]), "-----<====");
    assert_eq!(gauge_of(vec![battery(150, 100)]), ">=========");
    assert_eq!(gauge_of(vec![battery(30, 100), battery(30, 100)]), "------->==");
    assert_eq!(gauge_of(vec![battery(90, 100), battery(30, 100)]), "---->=====");
    let mut blind = battery(1, 2);
    blind.energy_now = None;
    assert_eq!(gauge_of(vec![blind]), "??????????");
    assert_eq!(gauge_of(vec![battery(0, 0)]), "??????????");
}

fn painted_runs(ops: &[TermOp]) -> Vec<(Option<Color>, String)> {
    let mut runs = Vec::new();
    let mut color = None;
    for op in ops {
        match op {
            TermOp::Foreground(c) => color = Some(*c),
            TermOp::Reset => color = None,
            TermOp::Text(s) => runs.push((color, s.clone())),
            _ => {}
        }
    }
    runs
}

fn gauge_colors(now: u64, full: u64, online: bool) -> Vec<(Option<Color>, String)> {
    let mut data = snapshot(Some(120));
    data.power_info = PowerInfo::new(vec![mains(online), battery(now, full)]);
    let ops = Prompt::new(data).unwrap().display();
    let runs = painted_runs(&ops);
    let open = runs.iter().position(|r| r.1 == "{").unwrap();
    let close = runs.iter().position(|r| r.1 == "}").unwrap();
    runs[open + 1..close].to_vec()
}

#[test]
fn gauge_colors_follow_the_charge() {
    let run = |c, s: &str| (Some(c), s.to_string());
    assert_eq!(
        gauge_colors(80, 100, false),
        vec![run(Color::Green, "--"), run(Color::Green, ">"), run(Color::Green, "=======")]
    );
    assert_eq!(
        gauge_colors(79, 100, false),
        vec![
            run(Color::BrightBlack, "--"),
            run(Color::BrightBlack, ">"),
            run(Color::Green, "=======")
        ]
    );
    assert_eq!(gauge_colors(40, 100, false)[0], run(Color::BrightBlack, "------"));
    assert_eq!(gauge_colors(39, 100, false)[0], run(Color::Yellow, "------"));
    assert_eq!(gauge_colors(39, 100, false)[1], run(Color::Yellow, ">"));
    assert_eq!(gauge_colors(15, 100, false)[0], run(Color::Yellow, "--------"));
    assert_eq!(gauge_colors(14, 100, false)[0], run(Color::Red, "--------"));
    assert_eq!(gauge_colors(5, 100, false)[0], run(Color::Red, "---------"));
    assert_eq!(gauge_colors(4, 100, false)[0], run(Color::BrightRed, "---------"));
    assert_eq!(gauge_colors(3, 19, false)[0], run(Color::Yellow, "--------"));
    assert_eq!(gauge_colors(2, 19, false)[0], run(Color::Red, "--------"));
    assert_eq!(
        gauge_colors(4, 100, true),
        vec![run(Color::BrightBlack, "---------"), run(Color::Green, "<")]
    );
    assert_eq!(gauge_colors(85, 100, true)[0], run(Color::Green, "-"));
}

#[test]
fn path_color_follows_the_access() {
    assert_eq!(path_color(Some(PathWritability::Writable)), "default");
    assert_eq!(path_color(Some(PathWritability::NotWritable)), "path_not_writable");
    assert_eq!(path_color(Some(PathWritability::NotExist)), "path_not_exist");
    assert_eq!(path_color(None), "path_not_exist");
}

#[test]
fn status_token_is_built_from_plain_facts() {
    let dev = Some(String::from("dev"));
    assert_eq!(
        status_token(VcsType::Git, true, false, true, true, ActiveOperation::Revert, &dev, Some((7, 0))),
        "g*?:dev:+7(v)"
    );
    assert_eq!(
        status_token(VcsType::Git, false, true, false, true, ActiveOperation::Idle, &None, None),
        "g+:???:-"
    );
    assert_eq!(
        status_token(VcsType::Git, false, true, false, false, ActiveOperation::Merge, &dev, Some((7, 1))),
        "g+!"
    );
    assert_eq!(
        status_token(
            VcsType::Git,
            false,
            false,
            false,
            true,
            ActiveOperation::Idle,
            &Some(String::from("master")),
            Some((usize::MAX, 10)),
        ),
        format!("g:+{}-10", usize::MAX)
    );
    assert_eq!(
        status_token(
            VcsType::Git,
            false,
            false,
            false,
            true,
            ActiveOperation::Idle,
            &Some(String::from("masters")),
            Some((0, 0)),
        ),
        "g:masters"
    );
}

#[test]
fn status_color_puts_error_before_dirt() {
    assert_eq!(status_color(true, true), "vcs_error");
    assert_eq!(status_color(true, false), "vcs_error");
    assert_eq!(status_color(false, true), "vcs_dirty");
    assert_eq!(status_color(false, false), "default");
}
