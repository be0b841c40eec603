//! The colour theme, and the terminal operations that show text in it.

use crate::text::{
    chars_of, find_from, lemma_position_skip, position_from, push_all, push_range,
    push_repeated, repeated, same_text, slice_text, string_of,
};
use vstd::hash_map::StringHashMap;
use vstd::prelude::*;

verus! {

/// The shells whose prompts are drawn.
#[derive(Debug, Clone, Copy, PartialEq, Eq, Structural)]
pub enum ShellType {
    Unknown,
    Bash,
    Zsh,
}

/// The sixteen colours of a terminal.
#[derive(Debug, Clone, Copy, PartialEq, Eq, Structural)]
pub enum Color {
    Black,
    Red,
    Green,
    Yellow,
    Blue,
    Magenta,
    Cyan,
    White,
    BrightBlack,
    BrightRed,
    BrightGreen,
    BrightYellow,
    BrightBlue,
    BrightMagenta,
    BrightCyan,
    BrightWhite,
}

/// One step in drawing the prompt.
#[derive(Debug)]
pub enum TermOp {
    /// Text that takes columns on the screen.
    Text(String),
    /// A marker for the shell, which takes no column.
    Marker(String),
    /// Switch to a foreground colour.
    Foreground(Color),
    /// Switch to bold.
    Bold,
    /// Back to the terminal's own colours.
    Reset,
}

/// The mathematical content of a `TermOp`.
pub enum Op {
    Text(Seq<char>),
    Marker(Seq<char>),
    Foreground(Color),
    Bold,
    Reset,
}

impl View for TermOp {
    type V = Op;

    open spec fn view(&self) -> Op {
        match self {
            TermOp::Text(s) => Op::Text(s@),
            TermOp::Marker(s) => Op::Marker(s@),
            TermOp::Foreground(c) => Op::Foreground(*c),
            TermOp::Bold => Op::Bold,
            TermOp::Reset => Op::Reset,
        }
    }
}

/// What is wrong with a list of colour overrides.
#[derive(Debug)]
pub enum ColorError {
    /// A mapping without `=`; it holds the mapping.
    MissingColor(String),
    /// A name that is no colour's; it holds the name.
    UnknownColor(String),
}

/// The mathematical content of a `ColorError`.
pub enum ColorFault {
    MissingColor(Seq<char>),
    UnknownColor(Seq<char>),
}

impl View for ColorError {
    type V = ColorFault;

    open spec fn view(&self) -> ColorFault {
        match self {
            ColorError::MissingColor(s) => ColorFault::MissingColor(s@),
            ColorError::UnknownColor(s) => ColorFault::UnknownColor(s@),
        }
    }
}

/// A theme: the colour of each key.
pub type Theme = Map<Seq<char>, Color>;

/// The mathematical content of `Colors`.
pub struct ColorsView {
    pub theme: Theme,
    pub unknown_color: Color,
    pub shell_type: ShellType,
}

/// The colour theme for one shell.
pub struct Colors {
    color_map: StringHashMap<Color>,
    unknown_color: Color,
    shell_type: ShellType,
}

/// The content of each operation of a sequence.
pub open spec fn ops_of(ops: Seq<TermOp>) -> Seq<Op> {
    ops.map_values(|op: TermOp| op@)
}

/// The text that a sequence of operations puts on the screen.
pub open spec fn visible(ops: Seq<Op>) -> Seq<char>
    decreases ops.len(),
{
    if ops.len() == 0 {
        Seq::empty()
    } else {
        visible(ops.drop_last()) + (match ops.last() {
            Op::Text(text) => text,
            _ => Seq::empty(),
        })
    }
}

/// The shell whose name is `shell`.
pub open spec fn shell_named(shell: Seq<char>) -> Option<ShellType> {
    if shell == "bash"@ {
        Some(ShellType::Bash)
    } else if shell == "zsh"@ {
        Some(ShellType::Zsh)
    } else {
        None
    }
}

/// The colour whose name is `name`.
pub open spec fn color_named(name: Seq<char>) -> Option<Color> {
    if name == "black"@ {
        Some(Color::Black)
    } else if name == "blue"@ {
        Some(Color::Blue)
    } else if name == "bright_black"@ {
        Some(Color::BrightBlack)
    } else if name == "bright_blue"@ {
        Some(Color::BrightBlue)
    } else if name == "bright_cyan"@ {
        Some(Color::BrightCyan)
    } else if name == "bright_green"@ {
        Some(Color::BrightGreen)
    } else if name == "bright_magenta"@ {
        Some(Color::BrightMagenta)
    } else if name == "bright_red"@ {
        Some(Color::BrightRed)
    } else if name == "bright_white"@ {
        Some(Color::BrightWhite)
    } else if name == "bright_yellow"@ {
        Some(Color::BrightYellow)
    } else if name == "cyan"@ {
        Some(Color::Cyan)
    } else if name == "green"@ {
        Some(Color::Green)
    } else if name == "magenta"@ {
        Some(Color::Magenta)
    } else if name == "red"@ {
        Some(Color::Red)
    } else if name == "white"@ {
        Some(Color::White)
    } else if name == "yellow"@ {
        Some(Color::Yellow)
    } else {
        None
    }
}

/// The number by which terminals know a colour.
pub open spec fn color_code(c: Color) -> nat {
    match c {
        Color::Black => 0,
        Color::Red => 1,
        Color::Green => 2,
        Color::Yellow => 3,
        Color::Blue => 4,
        Color::Magenta => 5,
        Color::Cyan => 6,
        Color::White => 7,
        Color::BrightBlack => 8,
        Color::BrightRed => 9,
        Color::BrightGreen => 10,
        Color::BrightYellow => 11,
        Color::BrightBlue => 12,
        Color::BrightMagenta => 13,
        Color::BrightCyan => 14,
        Color::BrightWhite => 15,
    }
}

/// The bright colours are the upper eight.
pub open spec fn is_bright(c: Color) -> bool {
    color_code(c) >= 8
}

/// The theme before any override.
pub open spec fn default_theme() -> Theme {
    Map::<Seq<char>, Color>::empty().insert("user_root"@, Color::BrightRed).insert(
        "path_not_writable"@,
        Color::Yellow,
    ).insert("path_not_exist"@, Color::Red).insert("vcs_dirty"@, Color::Red).insert(
        "vcs_error"@,
        Color::BrightRed,
    ).insert("battery_warn"@, Color::Yellow).insert("battery_crit"@, Color::Red).insert(
        "battery_emerg"@,
        Color::BrightRed,
    ).insert("battery_full"@, Color::Green).insert("battery_charging"@, Color::Green).insert(
        "default"@,
        Color::BrightBlack,
    ).insert("error"@, Color::Red)
}

/// The colour for keys that the theme does not hold.
pub open spec fn default_unknown_color() -> Color {
    Color::Yellow
}

/// The theme with one mapping `key=colour` applied. Anything after a second
/// `=` is ignored.
pub open spec fn with_mapping(theme: Theme, mapping: Seq<char>) -> Result<Theme, ColorFault> {
    let eq = position_from(mapping, '=', 0);
    if eq >= mapping.len() {
        Err(ColorFault::MissingColor(mapping))
    } else {
        let rest = mapping.skip(eq + 1);
        let name = rest.take(position_from(rest, '=', 0));
        match color_named(name) {
            Some(color) => Ok(theme.insert(mapping.take(eq), color)),
            None => Err(ColorFault::UnknownColor(name)),
        }
    }
}

/// The theme with the mappings of `val` applied in order, where `val` is a
/// list `key=colour,key=colour,...`; the first mapping that is wrong
/// decides the error.
pub open spec fn with_overrides(theme: Theme, val: Seq<char>) -> Result<Theme, ColorFault>
    decreases val.len(),
{
    let end = position_from(val, ',', 0);
    match with_mapping(theme, val.take(end)) {
        Err(e) => Err(e),
        Ok(next) => if 0 <= end < val.len() {
            with_overrides(next, val.skip(end + 1))
        } else {
            Ok(next)
        },
    }
}

/// The theme that a list of overrides gives, where there is a list.
pub open spec fn theme_with(overrides: Option<Seq<char>>) -> Result<Theme, ColorFault> {
    match overrides {
        Some(val) => with_overrides(default_theme(), val),
        None => Ok(default_theme()),
    }
}

/// The marker that tells the shell that what follows takes no column.
pub open spec fn opening(shell_type: ShellType) -> Seq<Op> {
    match shell_type {
        ShellType::Bash => seq![Op::Marker(seq!['\\', '['])],
        ShellType::Zsh => seq![Op::Marker(seq!['%', '{'])],
        ShellType::Unknown => Seq::empty(),
    }
}

/// The marker that tells the shell that columns count again.
pub open spec fn closing(shell_type: ShellType) -> Seq<Op> {
    match shell_type {
        ShellType::Bash => seq![Op::Marker(seq!['\\', ']'])],
        ShellType::Zsh => seq![Op::Marker(seq!['%', '}'])],
        ShellType::Unknown => Seq::empty(),
    }
}

/// Operations that take no column, between the shell's markers.
pub open spec fn wrapped(shell_type: ShellType, inner: Seq<Op>) -> Seq<Op> {
    opening(shell_type) + inner + closing(shell_type)
}

/// The switch to a colour; a bright colour is bold as well.
pub open spec fn color_switch(color: Color) -> Seq<Op> {
    if is_bright(color) {
        seq![Op::Foreground(color), Op::Bold]
    } else {
        seq![Op::Foreground(color)]
    }
}

/// Text in a colour, or in the terminal's own where there is none, and the
/// return to the terminal's own colours after it.
pub open spec fn painted(shell_type: ShellType, color: Option<Color>, text: Seq<char>) -> Seq<
    Op,
> {
    (match color {
        Some(color) => wrapped(shell_type, color_switch(color)),
        None => Seq::empty(),
    }) + seq![Op::Text(text)] + wrapped(shell_type, seq![Op::Reset])
}

/// The colour of a fixed key: the theme's, or the colour for unknown keys.
pub open spec fn static_color(colors: ColorsView, key: Seq<char>) -> Option<Color> {
    if colors.theme.contains_key(key) {
        Some(colors.theme[key])
    } else {
        Some(colors.unknown_color)
    }
}

/// The colour of a key made of a prefix and a name: the theme's, or none
/// where there is no name or the theme does not hold the key.
pub open spec fn dynamic_color(colors: ColorsView, prefix: Seq<char>, name: Option<Seq<char>>) -> Option<
    Color,
> {
    match name {
        Some(name) => if colors.theme.contains_key(prefix + name) {
            Some(colors.theme[prefix + name])
        } else {
            None
        },
        None => None,
    }
}

/// The prefix of the keys that hold the colour of a host.
pub open spec fn host_prefix() -> Seq<char> {
    "host_"@
}

/// The prefix of the keys that hold the colour of a user.
pub open spec fn user_prefix() -> Seq<char> {
    "user_"@
}

/// What is seen of operations put one after the other is what is seen of
/// the first, then what is seen of the second.
pub proof fn lemma_visible_concat(a: Seq<Op>, b: Seq<Op>)
    ensures
        visible(a + b) == visible(a) + visible(b),
    decreases b.len(),
{
    if b.len() == 0 {
        assert(a + b =~= a);
        assert(visible(a) + visible(b) =~= visible(a));
    } else {
        assert((a + b).drop_last() =~= a + b.drop_last());
        lemma_visible_concat(a, b.drop_last());
        assert(visible(a + b) =~= visible(a) + visible(b));
    }
}

/// Wrapped operations put nothing on the screen, where the operations
/// between the markers put nothing there.
pub proof fn lemma_visible_wrapped(shell_type: ShellType, inner: Seq<Op>)
    requires
        visible(inner) == Seq::<char>::empty(),
    ensures
        visible(wrapped(shell_type, inner)) == Seq::<char>::empty(),
{
    reveal_with_fuel(visible, 2);
    lemma_visible_concat(opening(shell_type), inner);
    lemma_visible_concat(opening(shell_type) + inner, closing(shell_type));
    assert(visible(wrapped(shell_type, inner)) =~= Seq::<char>::empty());
}

/// What is seen of painted text is the text.
pub proof fn lemma_visible_painted(shell_type: ShellType, color: Option<Color>, text: Seq<char>)
    ensures
        visible(painted(shell_type, color, text)) == text,
{
    reveal_with_fuel(visible, 3);
    let head = match color {
        Some(color) => wrapped(shell_type, color_switch(color)),
        None => Seq::empty(),
    };
    if let Some(c) = color {
        lemma_visible_wrapped(shell_type, color_switch(c));
    }
    lemma_visible_wrapped(shell_type, seq![Op::Reset]);
    lemma_visible_concat(head, seq![Op::Text(text)]);
    lemma_visible_concat(head + seq![Op::Text(text)], wrapped(shell_type, seq![Op::Reset]));
    assert(visible(painted(shell_type, color, text)) =~= text);
}

/// Appends one operation.
fn emit(t: &mut Vec<TermOp>, op: TermOp)
    ensures
        ops_of(final(t)@) == ops_of(old(t)@) + seq![op@],
{
    t.push(op);
    assert(ops_of(t@) =~= ops_of(old(t)@) + seq![op@]);
}

impl ShellType {
    /// The shell whose name is `shell`, where it names one.
    pub fn parse(shell: &str) -> (r: Option<ShellType>)
        ensures
            r == shell_named(shell@),
    {
        let shell = chars_of(shell);
        if same_text(&shell, &chars_of("bash")) {
            Some(ShellType::Bash)
        } else if same_text(&shell, &chars_of("zsh")) {
            Some(ShellType::Zsh)
        } else {
            None
        }
    }

    /// The shell whose name is `shell`.
    pub fn from_str(shell: &str) -> (r: ShellType)
        requires
            shell_named(shell@) is Some,
        ensures
            Some(r) == shell_named(shell@),
    {
        match ShellType::parse(shell) {
            Some(shell) => shell,
            None => ShellType::Unknown,
        }
    }
}

impl Color {
    /// The colour whose name is `name`, where it names one.
    pub fn from_name(name: &str) -> (r: Option<Color>)
        ensures
            r == color_named(name@),
    {
        let name = &chars_of(name);
        if same_text(name, &chars_of("black")) {
            Some(Color::Black)
        } else if same_text(name, &chars_of("blue")) {
            Some(Color::Blue)
        } else if same_text(name, &chars_of("bright_black")) {
            Some(Color::BrightBlack)
        } else if same_text(name, &chars_of("bright_blue")) {
            Some(Color::BrightBlue)
        } else if same_text(name, &chars_of("bright_cyan")) {
            Some(Color::BrightCyan)
        } else if same_text(name, &chars_of("bright_green")) {
            Some(Color::BrightGreen)
        } else if same_text(name, &chars_of("bright_magenta")) {
            Some(Color::BrightMagenta)
        } else if same_text(name, &chars_of("bright_red")) {
            Some(Color::BrightRed)
        } else if same_text(name, &chars_of("bright_white")) {
            Some(Color::BrightWhite)
        } else if same_text(name, &chars_of("bright_yellow")) {
            Some(Color::BrightYellow)
        } else if same_text(name, &chars_of("cyan")) {
            Some(Color::Cyan)
        } else if same_text(name, &chars_of("green")) {
            Some(Color::Green)
        } else if same_text(name, &chars_of("magenta")) {
            Some(Color::Magenta)
        } else if same_text(name, &chars_of("red")) {
            Some(Color::Red)
        } else if same_text(name, &chars_of("white")) {
            Some(Color::White)
        } else if same_text(name, &chars_of("yellow")) {
            Some(Color::Yellow)
        } else {
            None
        }
    }

    /// The number by which terminals know the colour.
    pub fn code(&self) -> (n: u32)
        ensures
            n == color_code(*self),
    {
        match self {
            Color::Black => 0,
            Color::Red => 1,
            Color::Green => 2,
            Color::Yellow => 3,
            Color::Blue => 4,
            Color::Magenta => 5,
            Color::Cyan => 6,
            Color::White => 7,
            Color::BrightBlack => 8,
            Color::BrightRed => 9,
            Color::BrightGreen => 10,
            Color::BrightYellow => 11,
            Color::BrightBlue => 12,
            Color::BrightMagenta => 13,
            Color::BrightCyan => 14,
            Color::BrightWhite => 15,
        }
    }

    /// Whether the colour is one of the bright eight.
    pub fn bright(&self) -> (b: bool)
        ensures
            b == is_bright(*self),
    {
        self.code() >= 8
    }
}

impl View for Colors {
    type V = ColorsView;

    closed spec fn view(&self) -> ColorsView {
        ColorsView {
            theme: self.color_map@,
            unknown_color: self.unknown_color,
            shell_type: self.shell_type,
        }
    }
}

impl Colors {
    /// The default theme for a shell, with the overrides applied where
    /// there are any.
    pub fn new(shell_type: ShellType, overrides: Option<&str>) -> (r: Result<Colors, ColorError>)
        ensures
            match r {
                Ok(colors) => theme_with(slice_text(overrides)) == Ok::<
                    Theme,
                    ColorFault,
                >(colors@.theme) && colors@.unknown_color == default_unknown_color()
                    && colors@.shell_type == shell_type,
                Err(e) => theme_with(slice_text(overrides)) == Err::<
                    Theme,
                    ColorFault,
                >(e@),
            },
    {
        let mut color_map: StringHashMap<Color> = StringHashMap::new();
        color_map.insert(string_of(&chars_of("user_root")), Color::BrightRed);
        color_map.insert(string_of(&chars_of("path_not_writable")), Color::Yellow);
        color_map.insert(string_of(&chars_of("path_not_exist")), Color::Red);
        color_map.insert(string_of(&chars_of("vcs_dirty")), Color::Red);
        color_map.insert(string_of(&chars_of("vcs_error")), Color::BrightRed);
        color_map.insert(string_of(&chars_of("battery_warn")), Color::Yellow);
        color_map.insert(string_of(&chars_of("battery_crit")), Color::Red);
        color_map.insert(string_of(&chars_of("battery_emerg")), Color::BrightRed);
        color_map.insert(string_of(&chars_of("battery_full")), Color::Green);
        color_map.insert(string_of(&chars_of("battery_charging")), Color::Green);
        color_map.insert(string_of(&chars_of("default")), Color::BrightBlack);
        color_map.insert(string_of(&chars_of("error")), Color::Red);
        assert(color_map@ == default_theme());
        let unknown_color = Color::Yellow;
        match overrides {
            Some(val) => match Colors::read_colors(&mut color_map, val) {
                Ok(()) => {},
                Err(e) => {
                    return Err(e);
                },
            },
            None => {},
        }
        Ok(Colors { color_map, unknown_color, shell_type })
    }

    /// Applies one mapping `key=colour` to the theme.
    fn read_mapping(color_map: &mut StringHashMap<Color>, mapping: &Vec<char>) -> (r: Result<
        (),
        ColorError,
    >)
        ensures
            match r {
                Ok(()) => with_mapping(old(color_map)@, mapping@) == Ok::<Theme, ColorFault>(
                    final(color_map)@,
                ),
                Err(e) => with_mapping(old(color_map)@, mapping@) == Err::<Theme, ColorFault>(e@),
            },
    {
        let eq = find_from(mapping, '=', 0);
        if eq >= mapping.len() {
            return Err(ColorError::MissingColor(string_of(mapping)));
        }
        let mut rest: Vec<char> = Vec::new();
        push_range(&mut rest, mapping, eq + 1, mapping.len());
        assert(rest@ =~= mapping@.skip(eq + 1));
        let end = find_from(&rest, '=', 0);
        let mut name: Vec<char> = Vec::new();
        push_range(&mut name, &rest, 0, end);
        assert(name@ =~= rest@.take(end as int));
        match Color::from_name(string_of(&name).as_str()) {
            Some(color) => {
                let mut key: Vec<char> = Vec::new();
                push_range(&mut key, mapping, 0, eq);
                assert(key@ =~= mapping@.take(eq as int));
                color_map.insert(string_of(&key), color);
                Ok(())
            },
            None => Err(ColorError::UnknownColor(string_of(&name))),
        }
    }

    /// Applies the mappings of `val`, a list `key=colour,key=colour,...`,
    /// to the theme, in order. It stops at the first mapping that is wrong.
    fn read_colors(color_map: &mut StringHashMap<Color>, val: &str) -> (r: Result<
        (),
        ColorError,
    >)
        ensures
            match r {
                Ok(()) => with_overrides(old(color_map)@, val@) == Ok::<Theme, ColorFault>(
                    final(color_map)@,
                ),
                Err(e) => with_overrides(old(color_map)@, val@) == Err::<Theme, ColorFault>(e@),
            },
    {
        let list = chars_of(val);
        let mut start: usize = 0;
        assert(list@.skip(0) =~= list@);
        loop
            invariant
                start <= list.len(),
                list@ == val@,
                with_overrides(color_map@, list@.skip(start as int)) == with_overrides(
                    old(color_map)@,
                    val@,
                ),
            decreases list.len() - start,
        {
            let end = find_from(&list, ',', start);
            let mut mapping: Vec<char> = Vec::new();
            push_range(&mut mapping, &list, start, end);
            proof {
                lemma_position_skip(list@, ',', start as int);
                assert(mapping@ =~= list@.skip(start as int).take(end - start));
                if end < list.len() {
                    assert(list@.skip(start as int).skip(end - start + 1) =~= list@.skip(end + 1));
                }
            }
            match Colors::read_mapping(color_map, &mapping) {
                Ok(()) => {},
                Err(e) => {
                    return Err(e);
                },
            }
            if end >= list.len() {
                return Ok(());
            }
            start = end + 1;
        }
    }

    /// The marker before operations that take no column.
    fn print_opening(&self, t: &mut Vec<TermOp>)
        ensures
            ops_of(final(t)@) == ops_of(old(t)@) + opening(self@.shell_type),
    {
        let mut marker: Vec<char> = Vec::new();
        match self.shell_type {
            ShellType::Bash => {
                marker.push('\\');
                marker.push('[');
            },
            ShellType::Zsh => {
                marker.push('%');
                marker.push('{');
            },
            _ => {
                assert(ops_of(t@) =~= ops_of(old(t)@) + opening(self@.shell_type));
                return ;
            },
        }
        let ghost text = marker@;
        assert(text =~= seq!['\\', '['] || text =~= seq!['%', '{']);
        emit(t, TermOp::Marker(string_of(&marker)));
        assert(seq![Op::Marker(text)] =~= opening(self@.shell_type));
    }

    /// The marker after operations that take no column.
    fn print_closing(&self, t: &mut Vec<TermOp>)
        ensures
            ops_of(final(t)@) == ops_of(old(t)@) + closing(self@.shell_type),
    {
        let mut marker: Vec<char> = Vec::new();
        match self.shell_type {
            ShellType::Bash => {
                marker.push('\\');
                marker.push(']');
            },
            ShellType::Zsh => {
                marker.push('%');
                marker.push('}');
            },
            _ => {
                assert(ops_of(t@) =~= ops_of(old(t)@) + closing(self@.shell_type));
                return ;
            },
        }
        let ghost text = marker@;
        assert(text =~= seq!['\\', ']'] || text =~= seq!['%', '}']);
        emit(t, TermOp::Marker(string_of(&marker)));
        assert(seq![Op::Marker(text)] =~= closing(self@.shell_type));
    }

    /// The return to the terminal's own colours.
    fn print_reset(&self, t: &mut Vec<TermOp>)
        ensures
            ops_of(final(t)@) == ops_of(old(t)@) + wrapped(self@.shell_type, seq![Op::Reset]),
    {
        self.print_opening(t);
        emit(t, TermOp::Reset);
        self.print_closing(t);
        assert(ops_of(t@) =~= ops_of(old(t)@) + wrapped(self@.shell_type, seq![Op::Reset]));
    }

    /// The switch to a colour.
    fn print_color(&self, t: &mut Vec<TermOp>, color: Color)
        ensures
            ops_of(final(t)@) == ops_of(old(t)@) + wrapped(
                self@.shell_type,
                color_switch(color),
            ),
    {
        self.print_opening(t);
        emit(t, TermOp::Foreground(color));
        if color.bright() {
            emit(t, TermOp::Bold);
        }
        self.print_closing(t);
        assert(ops_of(t@) =~= ops_of(old(t)@) + wrapped(self@.shell_type, color_switch(color)));
    }

    /// Text in a colour, or in the terminal's own where there is none.
    fn print_with_color(&self, t: &mut Vec<TermOp>, color: Option<Color>, text: &str)
        ensures
            ops_of(final(t)@) == ops_of(old(t)@) + painted(self@.shell_type, color, text@),
    {
        match color {
            Some(color) => self.print_color(t, color),
            None => {},
        }
        emit(t, TermOp::Text(string_of(&chars_of(text))));
        self.print_reset(t);
        assert(ops_of(t@) =~= ops_of(old(t)@) + painted(self@.shell_type, color, text@));
    }

    /// Text in the colour of a key of the theme; in the colour for unknown
    /// keys where the theme does not hold the key.
    pub fn print(&self, t: &mut Vec<TermOp>, color: &str, text: &str)
        ensures
            ops_of(final(t)@) == ops_of(old(t)@) + painted(
                self@.shell_type,
                static_color(self@, color@),
                text@,
            ),
    {
        let color = match self.color_map.get(color) {
            Some(color) => *color,
            None => self.unknown_color,
        };
        self.print_with_color(t, Some(color), text);
    }

    /// `len` spaces, in no colour.
    pub fn pad(&self, t: &mut Vec<TermOp>, len: usize)
        ensures
            ops_of(final(t)@) == ops_of(old(t)@) + seq![Op::Text(repeated(' ', len as nat))],
    {
        let mut spaces: Vec<char> = Vec::new();
        push_repeated(&mut spaces, ' ', len);
        assert(spaces@ =~= repeated(' ', len as nat));
        emit(t, TermOp::Text(string_of(&spaces)));
    }

    /// The end of a row.
    pub fn newline(&self, t: &mut Vec<TermOp>)
        ensures
            ops_of(final(t)@) == ops_of(old(t)@) + seq![Op::Text(seq!['\n'])],
    {
        let mut end: Vec<char> = Vec::new();
        end.push('\n');
        assert(end@ =~= seq!['\n']);
        emit(t, TermOp::Text(string_of(&end)));
    }

    /// The colour that the theme holds for a prefix and a name.
    fn lookup(&self, prefix: &str, name: Option<&str>) -> (r: Option<Color>)
        ensures
            r == dynamic_color(self@, prefix@, slice_text(name)),
    {
        match name {
            Some(name) => {
                let mut key = chars_of(prefix);
                push_all(&mut key, &chars_of(name));
                let key = string_of(&key);
                match self.color_map.get(key.as_str()) {
                    Some(color) => Some(*color),
                    None => None,
                }
            },
            None => None,
        }
    }

    /// Text in the colour that the theme holds for the host, or in the
    /// terminal's own where it holds none.
    pub fn print_host(&self, t: &mut Vec<TermOp>, host: Option<&str>, text: &str)
        ensures
            ops_of(final(t)@) == ops_of(old(t)@) + painted(
                self@.shell_type,
                dynamic_color(self@, host_prefix(), slice_text(host)),
                text@,
            ),
    {
        let color = self.lookup("host_", host);
        self.print_with_color(t, color, text);
    }

    /// Text in the colour that the theme holds for the user, or in the
    /// terminal's own where it holds none.
    pub fn print_user(&self, t: &mut Vec<TermOp>, user: Option<&str>, text: &str)
        ensures
            ops_of(final(t)@) == ops_of(old(t)@) + painted(
                self@.shell_type,
                dynamic_color(self@, user_prefix(), slice_text(user)),
                text@,
            ),
    {
        let color = self.lookup("user_", user);
        self.print_with_color(t, color, text);
    }
}

} // verus!
