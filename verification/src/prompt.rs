//! The prompt: two rows, drawn from the snapshot in the colours of the
//! theme.

use crate::colors::{
    dynamic_color, host_prefix, lemma_visible_concat, lemma_visible_painted, ops_of, painted,
    static_color, theme_with, user_prefix, visible, ColorError, ColorFault, Colors, ColorsView, Op,
    TermOp, Theme,
};
use crate::data::{ClockTime, PromptData};
use crate::gauge::{
    battery_discharge_color, boundary_glyph, discharge_color_key, empty_part, filled_cells,
    filled_part, unknown_gauge,
};
use crate::path::{compress_path, compressed_path, lemma_compressed_path_fits};
use crate::power::{charging_of, has_batteries_of, usage_of, Usage};
use crate::sys::PathWritability;
use crate::text::{
    chars_of, decimal, lemma_zero_padded_len, push_all, push_decimal, push_repeated,
    push_zero_padded, repeated, slice_text, string_of, text_of, zero_padded,
};
use crate::token::{
    compress_vcs, compressed_token, format_vcs, vcs_color, vcs_color_key, vcs_token,
};
use crate::vcs::{VcsFacts, VcsInfo};
use vstd::prelude::*;
use vstd::string::StrSliceExecFns;

verus! {

/// The columns that the status token may take.
pub const MAX_VCS_LEN: usize = 20;

/// The cells of the battery gauge.
pub const BATTERY_LEN: usize = 10;

/// The columns that the path must have: enough for a path such as
/// `~/a/...cde`.
pub const MIN_PATH_LEN: usize = 10;

/// The width of a terminal that does not tell its width.
pub const DEFAULT_COLS: usize = 80;

/// Why a prompt cannot be drawn.
#[derive(Debug, Clone, Copy, PartialEq, Eq, Structural)]
pub enum PromptError {
    /// The terminal is too narrow; it holds the columns that are needed.
    TerminalTooSmall { needed: u128 },
}

/// The prompt for one snapshot.
pub struct Prompt<V: VcsInfo> {
    colors: Colors,
    data: PromptData<V>,
}

/// What is shown for a name that is not known.
pub open spec fn unknown_name() -> Seq<char> {
    "???"@
}

/// A name, or what is shown where it is not known.
pub open spec fn name_or_unknown(name: Option<Seq<char>>) -> Seq<char> {
    match name {
        Some(name) => name,
        None => unknown_name(),
    }
}

/// The columns of the first row that are not the path's own: a space, the
/// two braces round the path, a space, one column of border, a space, the
/// user, `@`, the host, a space, the ten columns of the time and a space;
/// with a status token, the token and the bar before it; with a battery,
/// the gauge, its two braces and a space.
pub open spec fn fixed_cols(
    user_len: nat,
    host_len: nat,
    vcs_len: Option<nat>,
    has_batteries: bool,
) -> nat {
    1 + (match vcs_len {
        Some(n) => n + 1,
        None => 0,
    }) + 2 + 1 + 1 + 1 + user_len + 1 + host_len + 1 + 10 + 1 + (if has_batteries {
        BATTERY_LEN as nat + 2 + 1
    } else {
        0
    })
}

/// An optional count of columns as a natural number.
pub open spec fn cols_of_len(n: Option<usize>) -> Option<nat> {
    match n {
        Some(n) => Some(n as nat),
        None => None,
    }
}

/// The length of an optional text.
pub open spec fn len_of(text: Option<Seq<char>>) -> Option<nat> {
    match text {
        Some(text) => Some(text.len()),
        None => None,
    }
}

/// The facts behind the optional source of status of a snapshot.
pub open spec fn facts_in<V: VcsInfo>(vcs_info: Option<V>) -> Option<VcsFacts> {
    match vcs_info {
        Some(v) => Some(v.facts()),
        None => None,
    }
}

/// The status token as it is shown: shortened to the columns it may take.
pub open spec fn shown_vcs(facts: Option<VcsFacts>) -> Option<Seq<char>> {
    match facts {
        Some(f) => Some(compressed_token(vcs_token(f), MAX_VCS_LEN as nat)),
        None => None,
    }
}

/// The width of the terminal.
pub open spec fn cols_of<V: VcsInfo>(data: PromptData<V>) -> nat {
    match data.terminal_cols {
        Some(cols) => cols as nat,
        None => DEFAULT_COLS as nat,
    }
}

/// The columns of the first row of a snapshot that are not the path's own.
pub open spec fn fixed_of<V: VcsInfo>(data: PromptData<V>) -> nat {
    fixed_cols(
        name_or_unknown(text_of(data.user)).len(),
        name_or_unknown(text_of(data.hostname)).len(),
        len_of(shown_vcs(facts_in(data.vcs_info))),
        has_batteries_of(data.power_info@),
    )
}

/// The terminal is wide enough for the prompt.
pub open spec fn fits<V: VcsInfo>(data: PromptData<V>) -> bool {
    cols_of(data) >= fixed_of(data) + MIN_PATH_LEN
}

/// The columns that are left for the path.
pub open spec fn path_budget<V: VcsInfo>(data: PromptData<V>) -> nat {
    (cols_of(data) - fixed_of(data)) as nat
}

/// The path as it is shown.
pub open spec fn shown_path<V: VcsInfo>(data: PromptData<V>) -> Seq<char> {
    compressed_path(text_of(data.pwd), text_of(data.home), path_budget(data))
}

/// The key of the colour of the path: `default` where the user can write
/// to it, `path_not_writable` where not, `path_not_exist` where it does not
/// exist or is not known.
pub open spec fn path_color_key(path: Option<PathWritability>) -> Seq<char> {
    match path {
        Some(PathWritability::Writable) => "default"@,
        Some(PathWritability::NotWritable) => "path_not_writable"@,
        Some(PathWritability::NotExist) => "path_not_exist"@,
        None => "path_not_exist"@,
    }
}

/// What is known of the access to the working directory.
pub open spec fn pwd_access<V: VcsInfo>(data: PromptData<V>) -> Option<PathWritability> {
    match data.pwd {
        Some(_) => Some(data.pwd_writability),
        None => None,
    }
}

/// Text in the colour of a key of the theme.
pub open spec fn in_color(c: ColorsView, key: Seq<char>, text: Seq<char>) -> Seq<Op> {
    painted(c.shell_type, static_color(c, key), text)
}

/// Text in the colour of the host.
pub open spec fn in_host_color(c: ColorsView, host: Option<Seq<char>>, text: Seq<char>) -> Seq<
    Op,
> {
    painted(c.shell_type, dynamic_color(c, host_prefix(), host), text)
}

/// Text in the colour of the user.
pub open spec fn in_user_color(c: ColorsView, user: Option<Seq<char>>, text: Seq<char>) -> Seq<
    Op,
> {
    painted(c.shell_type, dynamic_color(c, user_prefix(), user), text)
}

/// Spaces in no colour.
pub open spec fn space_ops(n: nat) -> Seq<Op> {
    seq![Op::Text(repeated(' ', n))]
}

/// The end of a row.
pub open spec fn newline_ops() -> Seq<Op> {
    seq![Op::Text(seq!['\n'])]
}

/// The path and, behind a bar, the status token, in braces.
#[verifier::opaque]
pub open spec fn path_ops(
    c: ColorsView,
    host: Option<Seq<char>>,
    path: Seq<char>,
    path_key: Seq<char>,
    vcs: Option<Seq<char>>,
    vcs_key: Seq<char>,
) -> Seq<Op> {
    let open = in_host_color(c, host, "("@) + in_color(c, path_key, path);
    let inner = match vcs {
        Some(vcs) => open + in_host_color(c, host, "|"@) + in_color(c, vcs_key, vcs),
        None => open,
    };
    inner + in_host_color(c, host, ")"@)
}

/// The border that fills the row.
#[verifier::opaque]
pub open spec fn border_ops(c: ColorsView, len: nat) -> Seq<Op> {
    in_color(c, "default"@, repeated('-', len))
}

/// The key of the colour of the boundary glyph.
pub open spec fn boundary_key(now: nat, full: nat, charging: bool) -> Seq<char> {
    if charging {
        "battery_charging"@
    } else {
        discharge_color_key(now, full, charging)
    }
}

/// The empty cells of the gauge, where there are any, in the colour of the
/// charge.
#[verifier::opaque]
pub open spec fn empty_ops(c: ColorsView, now: nat, full: nat, charging: bool, len: nat) -> Seq<
    Op,
> {
    if filled_cells(now, full, len) < len {
        in_color(c, discharge_color_key(now, full, charging), empty_part(now, full, len))
    } else {
        Seq::empty()
    }
}

/// The boundary glyph: in the colour of charging while charging, in the
/// colour of the charge otherwise.
#[verifier::opaque]
pub open spec fn boundary_ops(c: ColorsView, now: nat, full: nat, charging: bool) -> Seq<Op> {
    in_color(c, boundary_key(now, full, charging), seq![boundary_glyph(charging)])
}

/// The filled cells after the boundary glyph, where there are any, in the
/// colour of charging.
#[verifier::opaque]
pub open spec fn filled_ops(c: ColorsView, now: nat, full: nat, len: nat) -> Seq<Op> {
    if filled_cells(now, full, len) > 1 {
        in_color(c, "battery_charging"@, filled_part(now, full, len))
    } else {
        Seq::empty()
    }
}

/// The gauge of a known charge: the empty cells, the boundary glyph, and
/// the filled cells after it.
pub open spec fn gauge_ops(c: ColorsView, now: nat, full: nat, charging: bool, len: nat) -> Seq<
    Op,
> {
    empty_ops(c, now, full, charging, len) + boundary_ops(c, now, full, charging) + filled_ops(
        c,
        now,
        full,
        len,
    )
}

/// The battery gauge in braces; question marks where the charge is not
/// known.
#[verifier::opaque]
pub open spec fn battery_ops(
    c: ColorsView,
    host: Option<Seq<char>>,
    usage: Option<Usage>,
    charging: bool,
    len: nat,
) -> Seq<Op> {
    in_host_color(c, host, "{"@) + (match usage {
        Some(u) => gauge_ops(c, u.now as nat, u.full as nat, charging, len),
        None => in_color(c, "error"@, unknown_gauge(len)),
    }) + in_host_color(c, host, "}"@)
}

/// The user at the host.
#[verifier::opaque]
pub open spec fn identity_ops(
    c: ColorsView,
    user: Option<Seq<char>>,
    host: Option<Seq<char>>,
) -> Seq<Op> {
    in_user_color(c, user, name_or_unknown(user)) + in_color(c, "default"@, "@"@) + in_host_color(
        c,
        host,
        name_or_unknown(host),
    )
}

/// The time as `HH:MM:SS`.
pub open spec fn clock_text(time: ClockTime) -> Seq<char> {
    zero_padded(time.hour as nat, 2) + seq![':'] + zero_padded(time.minute as nat, 2) + seq![':']
        + zero_padded(time.second as nat, 2)
}

/// The time in brackets.
#[verifier::opaque]
pub open spec fn time_ops(c: ColorsView, host: Option<Seq<char>>, time: ClockTime) -> Seq<Op> {
    in_host_color(c, host, "["@) + in_color(c, "default"@, clock_text(time)) + in_host_color(
        c,
        host,
        "]"@,
    )
}

/// The key of the colour of the exit code.
pub open spec fn error_code_key(error_code: u8) -> Seq<char> {
    if error_code == 0 {
        "default"@
    } else {
        "error"@
    }
}

/// The exit code in three digits.
#[verifier::opaque]
pub open spec fn error_code_ops(c: ColorsView, error_code: u8) -> Seq<Op> {
    in_color(c, error_code_key(error_code), zero_padded(error_code as nat, 3))
}

/// The glyph at which the user types.
pub open spec fn prompt_glyph(is_root: bool) -> Seq<char> {
    if is_root {
        "#"@
    } else {
        "$"@
    }
}

/// The glyph at which the user types, in the colour of the user.
#[verifier::opaque]
pub open spec fn prompt_ops(c: ColorsView, user: Option<Seq<char>>, is_root: bool) -> Seq<Op> {
    in_user_color(c, user, prompt_glyph(is_root))
}

/// The first row: the path with the status token, the border, the battery
/// gauge where there is a battery, the user at the host, and the time.
pub open spec fn row_one<V: VcsInfo>(c: ColorsView, data: PromptData<V>) -> Seq<Op> {
    let host = text_of(data.hostname);
    let user = text_of(data.user);
    let facts = facts_in(data.vcs_info);
    let path = Seq::<Op>::empty() + space_ops(1) + path_ops(
        c,
        host,
        shown_path(data),
        path_color_key(pwd_access(data)),
        shown_vcs(facts),
        vcs_color_key(facts),
    ) + space_ops(1) + border_ops(c, (path_budget(data) - shown_path(data).len() + 1) as nat)
        + space_ops(1);
    let battery = if has_batteries_of(data.power_info@) {
        path + battery_ops(
            c,
            host,
            usage_of(data.power_info@),
            charging_of(data.power_info@),
            BATTERY_LEN as nat,
        ) + space_ops(1)
    } else {
        path
    };
    battery + identity_ops(c, user, host) + space_ops(1) + time_ops(c, host, data.time)
        + space_ops(1) + newline_ops()
}

/// The prompt: the first row, and in the second the exit code and the
/// glyph at which the user types.
pub open spec fn rendering<V: VcsInfo>(c: ColorsView, data: PromptData<V>) -> Seq<Op> {
    row_one(c, data) + error_code_ops(c, data.error_code) + space_ops(1) + prompt_ops(
        c,
        text_of(data.user),
        data.is_root,
    ) + space_ops(1)
}

/// The text of the message that an error is reported with.
pub open spec fn error_text(e: PromptError) -> Seq<char> {
    match e {
        PromptError::TerminalTooSmall { needed } => "terminal too small (need at least "@ + decimal(
            needed as nat,
        ) + " cols)"@,
    }
}

/// The columns by which the gauge is wider than it was asked to be: one
/// where the batteries are known to hold nothing.
pub open spec fn gauge_excess(usage: Option<Usage>) -> nat {
    match usage {
        Some(u) => if u.now == 0 {
            1
        } else {
            0
        },
        None => 0,
    }
}

/// The columns that the first row takes beyond the width of the terminal:
/// one where there is a battery and the batteries are known to hold
/// nothing, none otherwise.
pub open spec fn row_excess<V: VcsInfo>(data: PromptData<V>) -> nat {
    if has_batteries_of(data.power_info@) {
        gauge_excess(usage_of(data.power_info@))
    } else {
        0
    }
}

/// What is seen of text in a colour is the text, whatever the colour.
pub proof fn lemma_visible_in_color(
    c: ColorsView,
    key: Seq<char>,
    name: Option<Seq<char>>,
    text: Seq<char>,
)
    ensures
        visible(in_color(c, key, text)) == text,
        visible(in_host_color(c, name, text)) == text,
        visible(in_user_color(c, name, text)) == text,
{
    lemma_visible_painted(c.shell_type, static_color(c, key), text);
    lemma_visible_painted(c.shell_type, dynamic_color(c, host_prefix(), name), text);
    lemma_visible_painted(c.shell_type, dynamic_color(c, user_prefix(), name), text);
}

/// What is seen of spaces is the spaces, and of the end of a row its one
/// character.
pub proof fn lemma_visible_space(n: nat)
    ensures
        visible(space_ops(n)) == repeated(' ', n),
        visible(newline_ops()) == seq!['\n'],
{
    reveal_with_fuel(visible, 2);
    assert(visible(space_ops(n)) =~= repeated(' ', n));
    assert(visible(newline_ops()) =~= seq!['\n']);
}

/// The path with its braces takes the columns of the path and two more;
/// with a status token, those of the token and one more.
pub proof fn lemma_path_ops_width(
    c: ColorsView,
    host: Option<Seq<char>>,
    path: Seq<char>,
    path_key: Seq<char>,
    vcs: Option<Seq<char>>,
    vcs_key: Seq<char>,
)
    ensures
        visible(path_ops(c, host, path, path_key, vcs, vcs_key)).len() == 2 + path.len() + (
        match vcs {
            Some(vcs) => vcs.len() + 1,
            None => 0,
        }),
{
    reveal(path_ops);
    reveal_strlit("(");
    reveal_strlit("|");
    reveal_strlit(")");
    let a = in_host_color(c, host, "("@);
    let b = in_color(c, path_key, path);
    lemma_visible_in_color(c, path_key, host, "("@);
    lemma_visible_in_color(c, path_key, host, path);
    lemma_visible_in_color(c, path_key, host, "|"@);
    lemma_visible_in_color(c, path_key, host, ")"@);
    lemma_visible_concat(a, b);
    let inner = match vcs {
        Some(v) => {
            lemma_visible_in_color(c, vcs_key, host, v);
            lemma_visible_concat(a + b, in_host_color(c, host, "|"@));
            lemma_visible_concat(a + b + in_host_color(c, host, "|"@), in_color(c, vcs_key, v));
            a + b + in_host_color(c, host, "|"@) + in_color(c, vcs_key, v)
        },
        None => a + b,
    };
    lemma_visible_concat(inner, in_host_color(c, host, ")"@));
}

/// The gauge of a known charge takes the columns of its glyphs.
pub proof fn lemma_gauge_ops_width(c: ColorsView, now: nat, full: nat, charging: bool, len: nat)
    requires
        full > 0,
    ensures
        visible(gauge_ops(c, now, full, charging, len)) == crate::gauge::gauge_text(
            now,
            full,
            charging,
            len,
        ),
{
    reveal(empty_ops);
    reveal(boundary_ops);
    reveal(filled_ops);
    crate::gauge::lemma_filled_cells(now, full, len);
    let key = discharge_color_key(now, full, charging);
    let e = empty_ops(c, now, full, charging, len);
    let b = boundary_ops(c, now, full, charging);
    let f = filled_ops(c, now, full, len);
    lemma_visible_in_color(c, key, None, empty_part(now, full, len));
    lemma_visible_in_color(
        c,
        boundary_key(now, full, charging),
        None,
        seq![boundary_glyph(charging)],
    );
    lemma_visible_in_color(c, "battery_charging"@, None, filled_part(now, full, len));
    lemma_visible_concat(e, b);
    lemma_visible_concat(e + b, f);
    assert(visible(e) =~= empty_part(now, full, len));
    assert(visible(f) =~= filled_part(now, full, len));
}

/// The battery gauge with its braces takes the cells of the gauge and two
/// columns more, and one more still where the charge is known to be
/// nothing.
pub proof fn lemma_battery_ops_width(
    c: ColorsView,
    host: Option<Seq<char>>,
    usage: Option<Usage>,
    charging: bool,
    len: nat,
)
    requires
        len > 0,
        usage matches Some(u) ==> u.full > 0,
    ensures
        visible(battery_ops(c, host, usage, charging, len)).len() == len + 2 + gauge_excess(usage),
{
    reveal(battery_ops);
    reveal_strlit("{");
    reveal_strlit("}");
    let open = in_host_color(c, host, "{"@);
    let close = in_host_color(c, host, "}"@);
    lemma_visible_in_color(c, "error"@, host, "{"@);
    lemma_visible_in_color(c, "error"@, host, "}"@);
    let middle = match usage {
        Some(u) => {
            lemma_gauge_ops_width(c, u.now as nat, u.full as nat, charging, len);
            if u.now == 0 {
                crate::gauge::lemma_gauge_width_empty(u.now as nat, u.full as nat, charging, len);
            } else {
                crate::gauge::lemma_gauge_width(u.now as nat, u.full as nat, charging, len);
            }
            gauge_ops(c, u.now as nat, u.full as nat, charging, len)
        },
        None => {
            lemma_visible_in_color(c, "error"@, host, unknown_gauge(len));
            in_color(c, "error"@, unknown_gauge(len))
        },
    };
    lemma_visible_concat(open, middle);
    lemma_visible_concat(open + middle, close);
}

/// The user at the host takes the columns of both names and one more.
pub proof fn lemma_identity_ops_width(
    c: ColorsView,
    user: Option<Seq<char>>,
    host: Option<Seq<char>>,
)
    ensures
        visible(identity_ops(c, user, host)).len() == name_or_unknown(user).len() + 1
            + name_or_unknown(host).len(),
{
    reveal(identity_ops);
    reveal_strlit("@");
    let a = in_user_color(c, user, name_or_unknown(user));
    let b = in_color(c, "default"@, "@"@);
    let d = in_host_color(c, host, name_or_unknown(host));
    lemma_visible_in_color(c, "default"@, user, name_or_unknown(user));
    lemma_visible_in_color(c, "default"@, host, "@"@);
    lemma_visible_in_color(c, "default"@, host, name_or_unknown(host));
    lemma_visible_concat(a, b);
    lemma_visible_concat(a + b, d);
}

/// The time of a clock in its brackets takes ten columns.
pub proof fn lemma_time_ops_width(c: ColorsView, host: Option<Seq<char>>, time: ClockTime)
    requires
        time.is_valid(),
    ensures
        visible(time_ops(c, host, time)).len() == 10,
{
    reveal(time_ops);
    reveal_strlit("[");
    reveal_strlit("]");
    lemma_zero_padded_len(time.hour as nat, 2);
    lemma_zero_padded_len(time.minute as nat, 2);
    lemma_zero_padded_len(time.second as nat, 2);
    let a = in_host_color(c, host, "["@);
    let b = in_color(c, "default"@, clock_text(time));
    let d = in_host_color(c, host, "]"@);
    lemma_visible_in_color(c, "default"@, host, "["@);
    lemma_visible_in_color(c, "default"@, host, clock_text(time));
    lemma_visible_in_color(c, "default"@, host, "]"@);
    lemma_visible_concat(a, b);
    lemma_visible_concat(a + b, d);
}

/// The first row fills the terminal: before the end of the row it takes
/// as many columns as the terminal has, whatever the theme. The one
/// exception is the gauge of batteries that hold nothing, which is one
/// column wider than the layout counts.
pub proof fn lemma_row_one_width<V: VcsInfo>(c: ColorsView, data: PromptData<V>)
    requires
        fits(data),
        data.time.is_valid(),
    ensures
        visible(row_one(c, data)).len() == cols_of(data) + row_excess(data) + 1,
{
    reveal(border_ops);
    let host = text_of(data.hostname);
    let user = text_of(data.user);
    let facts = facts_in(data.vcs_info);
    let path = shown_path(data);
    lemma_compressed_path_fits(text_of(data.pwd), text_of(data.home), path_budget(data));
    let border = (path_budget(data) - path.len() + 1) as nat;
    lemma_visible_space(1);
    let p = path_ops(c, host, path, path_color_key(pwd_access(data)), shown_vcs(facts), vcs_color_key(
        facts,
    ));
    lemma_path_ops_width(c, host, path, path_color_key(pwd_access(data)), shown_vcs(facts), vcs_color_key(
        facts,
    ));
    lemma_visible_in_color(c, "default"@, None, repeated('-', border));
    let s0 = Seq::<Op>::empty();
    let s1 = s0 + space_ops(1);
    let s2 = s1 + p;
    let s3 = s2 + space_ops(1);
    let s4 = s3 + border_ops(c, border);
    let s5 = s4 + space_ops(1);
    lemma_visible_concat(s0, space_ops(1));
    lemma_visible_concat(s1, p);
    lemma_visible_concat(s2, space_ops(1));
    lemma_visible_concat(s3, border_ops(c, border));
    lemma_visible_concat(s4, space_ops(1));
    assert(visible(s5).len() == 1 + visible(p).len() + 1 + border + 1);
    let s6 = if has_batteries_of(data.power_info@) {
        let b = battery_ops(
            c,
            host,
            usage_of(data.power_info@),
            charging_of(data.power_info@),
            BATTERY_LEN as nat,
        );
        lemma_battery_ops_width(
            c,
            host,
            usage_of(data.power_info@),
            charging_of(data.power_info@),
            BATTERY_LEN as nat,
        );
        lemma_visible_concat(s5, b);
        lemma_visible_concat(s5 + b, space_ops(1));
        s5 + b + space_ops(1)
    } else {
        s5
    };
    let i = identity_ops(c, user, host);
    let t = time_ops(c, host, data.time);
    lemma_identity_ops_width(c, user, host);
    lemma_time_ops_width(c, host, data.time);
    let s7 = s6 + i;
    let s8 = s7 + space_ops(1);
    let s9 = s8 + t;
    let s10 = s9 + space_ops(1);
    let s11 = s10 + newline_ops();
    lemma_visible_concat(s6, i);
    lemma_visible_concat(s7, space_ops(1));
    lemma_visible_concat(s8, t);
    lemma_visible_concat(s9, space_ops(1));
    lemma_visible_concat(s10, newline_ops());
    assert(s11 == row_one(c, data));
}

impl PromptError {
    /// The message that the error is reported with.
    pub fn message(&self) -> (s: String)
        ensures
            s@ == error_text(*self),
    {
        match self {
            PromptError::TerminalTooSmall { needed } => {
                let mut text = chars_of("terminal too small (need at least ");
                push_decimal(&mut text, *needed);
                push_all(&mut text, &chars_of(" cols)"));
                string_of(&text)
            },
        }
    }
}

/// The columns that are left for the path in a terminal of `cols` columns;
/// an error where fewer than the path must have are left.
pub fn layout(
    cols: usize,
    user_len: usize,
    host_len: usize,
    vcs_len: Option<usize>,
    has_batteries: bool,
) -> (r: Result<usize, PromptError>)
    ensures
        match r {
            Ok(max_path_len) => cols >= fixed_cols(
                user_len as nat,
                host_len as nat,
                cols_of_len(vcs_len),
                has_batteries,
            ) + MIN_PATH_LEN && max_path_len == cols - fixed_cols(
                user_len as nat,
                host_len as nat,
                cols_of_len(vcs_len),
                has_batteries,
            ),
            Err(e) => cols < fixed_cols(
                user_len as nat,
                host_len as nat,
                cols_of_len(vcs_len),
                has_batteries,
            ) + MIN_PATH_LEN && e == (PromptError::TerminalTooSmall {
                needed: (fixed_cols(
                    user_len as nat,
                    host_len as nat,
                    cols_of_len(vcs_len),
                    has_batteries,
                ) + MIN_PATH_LEN) as u128,
            }),
        },
{
    let mut fixed: u128 = 1 + 2 + 1 + 1 + 1 + 1 + 1 + 10 + 1;
    fixed = fixed + user_len as u128 + host_len as u128;
    match vcs_len {
        Some(n) => {
            fixed = fixed + n as u128 + 1;
        },
        None => {},
    }
    if has_batteries {
        fixed = fixed + BATTERY_LEN as u128 + 2 + 1;
    }
    if (cols as u128) < fixed + MIN_PATH_LEN as u128 {
        Err(PromptError::TerminalTooSmall { needed: fixed + MIN_PATH_LEN as u128 })
    } else {
        Ok((cols as u128 - fixed) as usize)
    }
}

/// The key of the colour of the path.
pub fn path_color(path: Option<PathWritability>) -> (key: String)
    ensures
        key@ == path_color_key(path),
{
    match path {
        Some(PathWritability::Writable) => string_of(&chars_of("default")),
        Some(PathWritability::NotWritable) => string_of(
            &chars_of("path_not_writable"),
        ),
        Some(PathWritability::NotExist) => string_of(&chars_of("path_not_exist")),
        None => string_of(&chars_of("path_not_exist")),
    }
}

/// An optional string as an optional slice.
fn as_slice(s: &Option<String>) -> (r: Option<&str>)
    ensures
        slice_text(r) == text_of(*s),
{
    match s {
        Some(s) => Some(s.as_str()),
        None => None,
    }
}

impl<V: VcsInfo> Prompt<V> {
    /// The snapshot that the prompt is drawn from.
    pub closed spec fn data(&self) -> PromptData<V> {
        self.data
    }

    /// The theme that the prompt is drawn in.
    pub closed spec fn colors(&self) -> ColorsView {
        self.colors@
    }

    /// The prompt for a snapshot, in the default theme with the overrides
    /// of the snapshot; an error where the overrides are wrong.
    pub fn new(data: PromptData<V>) -> (r: Result<Prompt<V>, ColorError>)
        ensures
            match r {
                Ok(prompt) => {
                    &&& prompt.data() == data
                    &&& theme_with(text_of(data.colors)) == Ok::<Theme, ColorFault>(
                        prompt.colors().theme,
                    )
                    &&& prompt.colors().unknown_color == crate::colors::default_unknown_color()
                    &&& prompt.colors().shell_type == data.shell
                },
                Err(e) => theme_with(text_of(data.colors)) == Err::<Theme, ColorFault>(e@),
            },
    {
        match Colors::new(data.shell, as_slice(&data.colors)) {
            Ok(colors) => Ok(Prompt { colors, data }),
            Err(e) => Err(e),
        }
    }

    /// The status token as it is shown, and the columns that are left for
    /// the path beside it.
    fn plan(&self) -> (r: (Option<String>, Result<usize, PromptError>))
        ensures
            text_of(r.0) == shown_vcs(facts_in(self.data().vcs_info)),
            match r.1 {
                Ok(max_path_len) => fits(self.data()) && max_path_len == path_budget(self.data()),
                Err(e) => !fits(self.data()) && e == (PromptError::TerminalTooSmall {
                    needed: (fixed_of(self.data()) + MIN_PATH_LEN) as u128,
                }),
            },
    {
        let user = match self.user() {
            Some(user) => user,
            None => "???",
        };
        let host = match self.hostname() {
            Some(host) => host,
            None => "???",
        };
        let vcs = match self.format_vcs() {
            Some(vcs) => Some(compress_vcs(vcs.as_str(), MAX_VCS_LEN)),
            None => None,
        };
        let vcs_len = match &vcs {
            Some(vcs) => Some(vcs.as_str().unicode_len()),
            None => None,
        };
        let cols = match self.data.terminal_cols {
            Some(cols) => cols,
            None => DEFAULT_COLS,
        };
        let has_batteries = self.data.power_info.has_batteries();
        let max_path_len = layout(
            cols,
            user.unicode_len(),
            host.unicode_len(),
            vcs_len,
            has_batteries,
        );
        (vcs, max_path_len)
    }

    /// The columns that are left for the path of this prompt; an error
    /// where the terminal is too narrow for the prompt, which then cannot
    /// be drawn.
    pub fn layout(&self) -> (r: Result<usize, PromptError>)
        ensures
            match r {
                Ok(max_path_len) => fits(self.data()) && max_path_len == path_budget(self.data()),
                Err(e) => !fits(self.data()) && e == (PromptError::TerminalTooSmall {
                    needed: (fixed_of(self.data()) + MIN_PATH_LEN) as u128,
                }),
            },
    {
        self.plan().1
    }

    /// The operations that draw the prompt, for a terminal that is wide
    /// enough for it: `layout` tells whether it is.
    pub fn display(&self) -> (t: Vec<TermOp>)
        requires
            fits(self.data()),
        ensures
            ops_of(t@) == rendering(self.colors(), self.data()),
    {
        let user = match self.user() {
            Some(user) => user,
            None => "???",
        };
        let host = match self.hostname() {
            Some(host) => host,
            None => "???",
        };
        let battery_len = BATTERY_LEN;
        let has_batteries = self.data.power_info.has_batteries();
        let (vcs, budget) = self.plan();
        let max_path_len = match budget {
            Ok(max_path_len) => max_path_len,
            Err(_) => unreached(),
        };
        let path = compress_path(&as_slice(&self.data.pwd), &as_slice(&self.data.home), max_path_len);
        proof {
            lemma_compressed_path_fits(
                text_of(self.data.pwd),
                text_of(self.data.home),
                max_path_len as nat,
            );
        }
        let access = match self.data.pwd {
            Some(_) => Some(self.data.pwd_writability),
            None => None,
        };
        let ghost c = self.colors();
        let ghost data = self.data();
        let ghost host_name = text_of(data.hostname);
        let ghost user_name = text_of(data.user);
        let ghost facts = facts_in(data.vcs_info);
        assert(max_path_len == path_budget(data));
        assert(path@ == shown_path(data));
        assert(text_of(vcs) == shown_vcs(facts));
        let mut t: Vec<TermOp> = Vec::new();
        assert(ops_of(t@) =~= Seq::<Op>::empty());
        self.colors.pad(&mut t, 1);
        self.display_path(
            &mut t,
            path.as_str(),
            path_color(access).as_str(),
            as_slice(&vcs),
            self.vcs_color().as_str(),
        );
        self.colors.pad(&mut t, 1);
        self.display_border(&mut t, max_path_len - path.as_str().unicode_len() + 1);
        self.colors.pad(&mut t, 1);
        let ghost path_part = Seq::<Op>::empty() + space_ops(1) + path_ops(
            c,
            host_name,
            shown_path(data),
            path_color_key(pwd_access(data)),
            shown_vcs(facts),
            vcs_color_key(facts),
        ) + space_ops(1) + border_ops(
            c,
            (path_budget(data) - shown_path(data).len() + 1) as nat,
        ) + space_ops(1);
        assert(ops_of(t@) == path_part);
        if has_batteries {
            self.display_battery(&mut t, battery_len);
            self.colors.pad(&mut t, 1);
        }
        let ghost battery_part = if has_batteries_of(data.power_info@) {
            path_part + battery_ops(
                c,
                host_name,
                usage_of(data.power_info@),
                charging_of(data.power_info@),
                BATTERY_LEN as nat,
            ) + space_ops(1)
        } else {
            path_part
        };
        assert(ops_of(t@) == battery_part);
        self.display_identity(&mut t, user, host);
        self.colors.pad(&mut t, 1);
        self.display_time(&mut t);
        self.colors.pad(&mut t, 1);
        self.colors.newline(&mut t);
        assert(ops_of(t@) == row_one(c, data));
        self.display_error_code(&mut t);
        self.colors.pad(&mut t, 1);
        self.display_prompt(&mut t);
        self.colors.pad(&mut t, 1);
        t
    }

    fn display_path(
        &self,
        t: &mut Vec<TermOp>,
        path: &str,
        path_color: &str,
        vcs: Option<&str>,
        vcs_color: &str,
    )
        ensures
            ops_of(final(t)@) == ops_of(old(t)@) + path_ops(
                self.colors(),
                text_of(self.data().hostname),
                path@,
                path_color@,
                slice_text(vcs),
                vcs_color@,
            ),
    {
        reveal(path_ops);
        let ghost c = self.colors();
        let ghost host = text_of(self.data().hostname);
        self.print_host(t, "(");
        self.colors.print(t, path_color, path);
        if let Some(vcs) = vcs {
            self.print_host(t, "|");
            self.colors.print(t, vcs_color, vcs);
        }
        self.print_host(t, ")");
        assert(ops_of(t@) =~= ops_of(old(t)@) + path_ops(
            c,
            host,
            path@,
            path_color@,
            slice_text(vcs),
            vcs_color@,
        ));
    }

    fn display_border(&self, t: &mut Vec<TermOp>, len: usize)
        ensures
            ops_of(final(t)@) == ops_of(old(t)@) + border_ops(self.colors(), len as nat),
    {
        reveal(border_ops);
        let mut border: Vec<char> = Vec::new();
        push_repeated(&mut border, '-', len);
        assert(border@ =~= repeated('-', len as nat));
        self.colors.print(t, "default", string_of(&border).as_str());
    }

    fn display_empty_cells(
        &self,
        t: &mut Vec<TermOp>,
        usage: Usage,
        charging: bool,
        len: usize,
        filled: usize,
    )
        requires
            usage.full > 0,
            filled == filled_cells(usage.now as nat, usage.full as nat, len as nat),
            filled <= len,
        ensures
            ops_of(final(t)@) == ops_of(old(t)@) + empty_ops(
                self.colors(),
                usage.now as nat,
                usage.full as nat,
                charging,
                len as nat,
            ),
    {
        reveal(empty_ops);
        if len > filled {
            let color = battery_discharge_color(usage, charging);
            let mut cells: Vec<char> = Vec::new();
            push_repeated(&mut cells, '-', len - filled);
            assert(cells@ =~= empty_part(usage.now as nat, usage.full as nat, len as nat));
            self.colors.print(t, color, string_of(&cells).as_str());
        } else {
            assert(ops_of(t@) =~= ops_of(old(t)@) + Seq::<Op>::empty());
        }
    }

    fn display_boundary(&self, t: &mut Vec<TermOp>, usage: Usage, charging: bool)
        requires
            usage.full > 0,
        ensures
            ops_of(final(t)@) == ops_of(old(t)@) + boundary_ops(
                self.colors(),
                usage.now as nat,
                usage.full as nat,
                charging,
            ),
    {
        reveal(boundary_ops);
        let mut boundary: Vec<char> = Vec::new();
        if charging {
            boundary.push('<');
            assert(boundary@ =~= seq![boundary_glyph(charging)]);
            self.colors.print(t, "battery_charging", string_of(&boundary).as_str());
        } else {
            let color = battery_discharge_color(usage, charging);
            boundary.push('>');
            assert(boundary@ =~= seq![boundary_glyph(charging)]);
            self.colors.print(t, color, string_of(&boundary).as_str());
        }
    }

    fn display_filled_cells(&self, t: &mut Vec<TermOp>, usage: Usage, len: usize, filled: usize)
        requires
            usage.full > 0,
            filled == filled_cells(usage.now as nat, usage.full as nat, len as nat),
        ensures
            ops_of(final(t)@) == ops_of(old(t)@) + filled_ops(
                self.colors(),
                usage.now as nat,
                usage.full as nat,
                len as nat,
            ),
    {
        reveal(filled_ops);
        if filled > 1 {
            let mut cells: Vec<char> = Vec::new();
            push_repeated(&mut cells, '=', filled - 1);
            assert(cells@ =~= filled_part(usage.now as nat, usage.full as nat, len as nat));
            self.colors.print(t, "battery_charging", string_of(&cells).as_str());
        } else {
            assert(ops_of(t@) =~= ops_of(old(t)@) + Seq::<Op>::empty());
        }
    }

    fn display_gauge(&self, t: &mut Vec<TermOp>, usage: Usage, charging: bool, len: usize)
        requires
            usage.full > 0,
        ensures
            ops_of(final(t)@) == ops_of(old(t)@) + gauge_ops(
                self.colors(),
                usage.now as nat,
                usage.full as nat,
                charging,
                len as nat,
            ),
    {
        let filled = usage.filled(len);
        proof {
            crate::gauge::lemma_filled_cells(usage.now as nat, usage.full as nat, len as nat);
        }
        self.display_empty_cells(t, usage, charging, len, filled);
        self.display_boundary(t, usage, charging);
        self.display_filled_cells(t, usage, len, filled);
        assert(ops_of(t@) =~= ops_of(old(t)@) + gauge_ops(
            self.colors(),
            usage.now as nat,
            usage.full as nat,
            charging,
            len as nat,
        ));
    }

    fn display_battery(&self, t: &mut Vec<TermOp>, len: usize)
        ensures
            ops_of(final(t)@) == ops_of(old(t)@) + battery_ops(
                self.colors(),
                text_of(self.data().hostname),
                usage_of(self.data().power_info@),
                charging_of(self.data().power_info@),
                len as nat,
            ),
    {
        reveal(battery_ops);
        let ghost c = self.colors();
        let ghost host = text_of(self.data().hostname);
        let ghost before = ops_of(t@);
        self.print_host(t, "{");
        let ghost opened = ops_of(t@);
        let ghost middle: Seq<Op>;
        if let Some(battery_usage) = self.data.power_info.battery_usage() {
            let charging = self.data.power_info.charging();
            self.display_gauge(t, battery_usage, charging, len);
            proof {
                middle = gauge_ops(
                    c,
                    battery_usage.now as nat,
                    battery_usage.full as nat,
                    charging,
                    len as nat,
                );
            }
        } else {
            let mut cells: Vec<char> = Vec::new();
            push_repeated(&mut cells, '?', len);
            assert(cells@ =~= unknown_gauge(len as nat));
            self.colors.print(t, "error", string_of(&cells).as_str());
            proof {
                middle = in_color(c, "error"@, unknown_gauge(len as nat));
            }
        }
        assert(ops_of(t@) == opened + middle);
        self.print_host(t, "}");
        assert(ops_of(t@) =~= before + (in_host_color(c, host, "{"@) + middle + in_host_color(
            c,
            host,
            "}"@,
        )));
    }

    fn display_identity(&self, t: &mut Vec<TermOp>, user: &str, host: &str)
        requires
            user@ == name_or_unknown(text_of(self.data().user)),
            host@ == name_or_unknown(text_of(self.data().hostname)),
        ensures
            ops_of(final(t)@) == ops_of(old(t)@) + identity_ops(
                self.colors(),
                text_of(self.data().user),
                text_of(self.data().hostname),
            ),
    {
        reveal(identity_ops);
        self.print_user(t, user);
        self.colors.print(t, "default", "@");
        self.print_host(t, host);
        assert(ops_of(t@) =~= ops_of(old(t)@) + identity_ops(
            self.colors(),
            text_of(self.data().user),
            text_of(self.data().hostname),
        ));
    }

    fn display_time(&self, t: &mut Vec<TermOp>)
        ensures
            ops_of(final(t)@) == ops_of(old(t)@) + time_ops(
                self.colors(),
                text_of(self.data().hostname),
                self.data().time,
            ),
    {
        reveal(time_ops);
        self.print_host(t, "[");
        let mut clock: Vec<char> = Vec::new();
        push_zero_padded(&mut clock, self.data.time.hour as u128, 2);
        clock.push(':');
        push_zero_padded(&mut clock, self.data.time.minute as u128, 2);
        clock.push(':');
        push_zero_padded(&mut clock, self.data.time.second as u128, 2);
        assert(clock@ =~= clock_text(self.data().time));
        self.colors.print(t, "default", string_of(&clock).as_str());
        self.print_host(t, "]");
        assert(ops_of(t@) =~= ops_of(old(t)@) + time_ops(
            self.colors(),
            text_of(self.data().hostname),
            self.data().time,
        ));
    }

    fn display_error_code(&self, t: &mut Vec<TermOp>)
        ensures
            ops_of(final(t)@) == ops_of(old(t)@) + error_code_ops(
                self.colors(),
                self.data().error_code,
            ),
    {
        reveal(error_code_ops);
        let error_code_color = if self.data.error_code == 0 {
            "default"
        } else {
            "error"
        };
        let mut code: Vec<char> = Vec::new();
        push_zero_padded(&mut code, self.data.error_code as u128, 3);
        assert(code@ =~= zero_padded(self.data().error_code as nat, 3));
        self.colors.print(t, error_code_color, string_of(&code).as_str());
    }

    fn display_prompt(&self, t: &mut Vec<TermOp>)
        ensures
            ops_of(final(t)@) == ops_of(old(t)@) + prompt_ops(
                self.colors(),
                text_of(self.data().user),
                self.data().is_root,
            ),
    {
        reveal(prompt_ops);
        let prompt = if self.data.is_root {
            "#"
        } else {
            "$"
        };
        self.print_user(t, prompt);
    }

    /// The status token of the snapshot.
    fn format_vcs(&self) -> (r: Option<String>)
        ensures
            text_of(r) == crate::token::vcs_token_of(facts_in(self.data().vcs_info)),
    {
        match &self.data.vcs_info {
            Some(v) => format_vcs(Some(v)),
            None => None,
        }
    }

    /// The key of the colour of the status token of the snapshot.
    fn vcs_color(&self) -> (key: String)
        ensures
            key@ == vcs_color_key(facts_in(self.data().vcs_info)),
    {
        match &self.data.vcs_info {
            Some(v) => vcs_color(Some(v)),
            None => vcs_color::<V>(None),
        }
    }

    fn print_host(&self, t: &mut Vec<TermOp>, text: &str)
        ensures
            ops_of(final(t)@) == ops_of(old(t)@) + in_host_color(
                self.colors(),
                text_of(self.data().hostname),
                text@,
            ),
    {
        self.colors.print_host(t, self.hostname(), text);
    }

    fn print_user(&self, t: &mut Vec<TermOp>, text: &str)
        ensures
            ops_of(final(t)@) == ops_of(old(t)@) + in_user_color(
                self.colors(),
                text_of(self.data().user),
                text@,
            ),
    {
        self.colors.print_user(t, self.user(), text);
    }

    fn hostname(&self) -> (r: Option<&str>)
        ensures
            slice_text(r) == text_of(self.data().hostname),
    {
        as_slice(&self.data.hostname)
    }

    fn user(&self) -> (r: Option<&str>)
        ensures
            slice_text(r) == text_of(self.data().user),
    {
        as_slice(&self.data.user)
    }
}

} // verus!
