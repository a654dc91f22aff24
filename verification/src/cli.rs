//! The command line: its grammar, and how its flags override the loaded preferences.
use vstd::prelude::*;
use crate::prefs::Prefs;
use crate::text::{chars_eq, push_chars, push_str, str_chars, string_from_chars};
use crate::types::{
    bar_from, color_from, sort_from, unit_from, BarStyle, ColorMode, SortMode, UnitMode,
};

pub use crate::listing::{colors_text, export_theme_text};

verus! {

/// Every argument the command line knows.
#[derive(Clone, Copy, Debug, PartialEq, Eq, Structural)]
pub enum ArgId {
    SortMode,
    SortRev,
    NoReverse,
    ShowLocal,
    NoLocal,
    RefreshRate,
    BarStyle,
    ColorMode,
    ThreshWarn,
    ThreshCrit,
    Bars,
    NoBars,
    Border,
    NoBorder,
    Header,
    NoHeader,
    Compact,
    NoCompact,
    Used,
    NoUsed,
    FullMount,
    NoFullMount,
    Tooltips,
    NoTooltips,
    ShowVirtual,
    NoVirtual,
    UnitMode,
    ColMount,
    ColBarEnd,
    ColPct,
    Config,
    Help,
    Version,
    ListColors,
    Theme,
    ExportTheme,
}

/// Long spelling of an argument, without the leading `--`.
pub open spec fn long_name(id: ArgId) -> Seq<char> {
    match id {
        ArgId::SortMode => "sort"@,
        ArgId::SortRev => "reverse"@,
        ArgId::NoReverse => "no-reverse"@,
        ArgId::ShowLocal => "local-only"@,
        ArgId::NoLocal => "no-local"@,
        ArgId::RefreshRate => "refresh"@,
        ArgId::BarStyle => "bar-style"@,
        ArgId::ColorMode => "color"@,
        ArgId::ThreshWarn => "warn"@,
        ArgId::ThreshCrit => "crit"@,
        ArgId::Bars => "bars"@,
        ArgId::NoBars => "no-bars"@,
        ArgId::Border => "border"@,
        ArgId::NoBorder => "no-border"@,
        ArgId::Header => "header"@,
        ArgId::NoHeader => "no-header"@,
        ArgId::Compact => "compact"@,
        ArgId::NoCompact => "no-compact"@,
        ArgId::Used => "used"@,
        ArgId::NoUsed => "no-used"@,
        ArgId::FullMount => "full-mount"@,
        ArgId::NoFullMount => "no-full-mount"@,
        ArgId::Tooltips => "tooltips"@,
        ArgId::NoTooltips => "no-tooltips"@,
        ArgId::ShowVirtual => "virtual"@,
        ArgId::NoVirtual => "no-virtual"@,
        ArgId::UnitMode => "units"@,
        ArgId::ColMount => "col-mount"@,
        ArgId::ColBarEnd => "col-bar-end"@,
        ArgId::ColPct => "col-pct"@,
        ArgId::Config => "config"@,
        ArgId::Help => "help"@,
        ArgId::Version => "version"@,
        ArgId::ListColors => "list-colors"@,
        ArgId::Theme => "theme"@,
        ArgId::ExportTheme => "export-theme"@,
    }
}

/// Whether an argument takes a value (the others are flags).
pub open spec fn takes_value(id: ArgId) -> bool {
    match id {
        ArgId::SortMode => true,
        ArgId::SortRev => false,
        ArgId::NoReverse => false,
        ArgId::ShowLocal => false,
        ArgId::NoLocal => false,
        ArgId::RefreshRate => true,
        ArgId::BarStyle => true,
        ArgId::ColorMode => true,
        ArgId::ThreshWarn => true,
        ArgId::ThreshCrit => true,
        ArgId::Bars => false,
        ArgId::NoBars => false,
        ArgId::Border => false,
        ArgId::NoBorder => false,
        ArgId::Header => false,
        ArgId::NoHeader => false,
        ArgId::Compact => false,
        ArgId::NoCompact => false,
        ArgId::Used => false,
        ArgId::NoUsed => false,
        ArgId::FullMount => false,
        ArgId::NoFullMount => false,
        ArgId::Tooltips => false,
        ArgId::NoTooltips => false,
        ArgId::ShowVirtual => false,
        ArgId::NoVirtual => false,
        ArgId::UnitMode => true,
        ArgId::ColMount => true,
        ArgId::ColBarEnd => true,
        ArgId::ColPct => true,
        ArgId::Config => true,
        ArgId::Help => false,
        ArgId::Version => false,
        ArgId::ListColors => false,
        ArgId::Theme => true,
        ArgId::ExportTheme => false,
    }
}

/// The flag that a flag overrides: the later of the two on the command line wins.
pub open spec fn partner(id: ArgId) -> Option<ArgId> {
    match id {
        ArgId::SortMode => None,
        ArgId::SortRev => Some(ArgId::NoReverse),
        ArgId::NoReverse => Some(ArgId::SortRev),
        ArgId::ShowLocal => Some(ArgId::NoLocal),
        ArgId::NoLocal => Some(ArgId::ShowLocal),
        ArgId::RefreshRate => None,
        ArgId::BarStyle => None,
        ArgId::ColorMode => None,
        ArgId::ThreshWarn => None,
        ArgId::ThreshCrit => None,
        ArgId::Bars => Some(ArgId::NoBars),
        ArgId::NoBars => Some(ArgId::Bars),
        ArgId::Border => Some(ArgId::NoBorder),
        ArgId::NoBorder => Some(ArgId::Border),
        ArgId::Header => Some(ArgId::NoHeader),
        ArgId::NoHeader => Some(ArgId::Header),
        ArgId::Compact => Some(ArgId::NoCompact),
        ArgId::NoCompact => Some(ArgId::Compact),
        ArgId::Used => Some(ArgId::NoUsed),
        ArgId::NoUsed => Some(ArgId::Used),
        ArgId::FullMount => Some(ArgId::NoFullMount),
        ArgId::NoFullMount => Some(ArgId::FullMount),
        ArgId::Tooltips => Some(ArgId::NoTooltips),
        ArgId::NoTooltips => Some(ArgId::Tooltips),
        ArgId::ShowVirtual => Some(ArgId::NoVirtual),
        ArgId::NoVirtual => Some(ArgId::ShowVirtual),
        ArgId::UnitMode => None,
        ArgId::ColMount => None,
        ArgId::ColBarEnd => None,
        ArgId::ColPct => None,
        ArgId::Config => None,
        ArgId::Help => None,
        ArgId::Version => None,
        ArgId::ListColors => None,
        ArgId::Theme => None,
        ArgId::ExportTheme => None,
    }
}

/// The parsed command line, with text as character sequences.
pub ghost struct CliModel {
    pub sort_mode: Option<SortMode>,
    pub sort_rev: bool,
    pub no_reverse: bool,
    pub show_local: bool,
    pub no_local: bool,
    pub refresh_rate: Option<u64>,
    pub bar_style: Option<BarStyle>,
    pub color_mode: Option<ColorMode>,
    pub thresh_warn: Option<u8>,
    pub thresh_crit: Option<u8>,
    pub bars: bool,
    pub no_bars: bool,
    pub border: bool,
    pub no_border: bool,
    pub header: bool,
    pub no_header: bool,
    pub compact: bool,
    pub no_compact: bool,
    pub used: bool,
    pub no_used: bool,
    pub full_mount: bool,
    pub no_full_mount: bool,
    pub tooltips: bool,
    pub no_tooltips: bool,
    pub show_virtual: bool,
    pub no_virtual: bool,
    pub unit_mode: Option<UnitMode>,
    pub col_mount_w: Option<u16>,
    pub col_bar_end_w: Option<u16>,
    pub col_pct_w: Option<u16>,
    pub config: Option<Seq<char>>,
    pub help: bool,
    pub version: bool,
    pub list_colors: bool,
    pub theme: Option<Seq<char>>,
    pub export_theme: bool,
}

/// The parsed command line.
#[derive(Clone, Debug)]
pub struct Cli {
    /// Sort mode for disk entries
    pub sort_mode: Option<SortMode>,
    /// Reverse sort order
    pub sort_rev: bool,
    /// Do not reverse sort order
    pub no_reverse: bool,
    /// Show only local disks (HDD/SSD)
    pub show_local: bool,
    /// Show all disks (not just local)
    pub no_local: bool,
    /// Data refresh interval in seconds
    pub refresh_rate: Option<u64>,
    /// Bar visualization style
    pub bar_style: Option<BarStyle>,
    /// Color palette
    pub color_mode: Option<ColorMode>,
    /// Warning threshold percentage
    pub thresh_warn: Option<u8>,
    /// Critical threshold percentage
    pub thresh_crit: Option<u8>,
    /// Show usage bars
    pub bars: bool,
    /// Hide usage bars
    pub no_bars: bool,
    /// Show border chrome
    pub border: bool,
    /// Hide border chrome
    pub no_border: bool,
    /// Show column headers
    pub header: bool,
    /// Hide column headers
    pub no_header: bool,
    /// Compact mount names
    pub compact: bool,
    /// Do not compact mount names
    pub no_compact: bool,
    /// Show used/total size display
    pub used: bool,
    /// Hide used/total size display
    pub no_used: bool,
    /// Show full mount paths
    pub full_mount: bool,
    /// Do not show full mount paths
    pub no_full_mount: bool,
    /// Show hover tooltips on title/footer bars
    pub tooltips: bool,
    /// Hide hover tooltips (right-click still works)
    pub no_tooltips: bool,
    /// Show virtual filesystems
    pub show_virtual: bool,
    /// Hide virtual filesystems
    pub no_virtual: bool,
    /// Unit display mode
    pub unit_mode: Option<UnitMode>,
    /// Mount column width (0 = auto)
    pub col_mount_w: Option<u16>,
    /// Bar-end column width (0 = auto)
    pub col_bar_end_w: Option<u16>,
    /// Percentage column width (0 = auto)
    pub col_pct_w: Option<u16>,
    /// Config file path
    pub config: Option<String>,
    /// Display this transmission
    pub help: bool,
    /// Display version information
    pub version: bool,
    /// List all builtin color schemes
    pub list_colors: bool,
    /// Activate a custom theme by name (defined in config file)
    pub theme: Option<String>,
    /// Export the current or named theme as TOML
    pub export_theme: bool,
}

impl View for Cli {
    type V = CliModel;

    open spec fn view(&self) -> CliModel {
        CliModel {
            sort_mode: self.sort_mode,
            sort_rev: self.sort_rev,
            no_reverse: self.no_reverse,
            show_local: self.show_local,
            no_local: self.no_local,
            refresh_rate: self.refresh_rate,
            bar_style: self.bar_style,
            color_mode: self.color_mode,
            thresh_warn: self.thresh_warn,
            thresh_crit: self.thresh_crit,
            bars: self.bars,
            no_bars: self.no_bars,
            border: self.border,
            no_border: self.no_border,
            header: self.header,
            no_header: self.no_header,
            compact: self.compact,
            no_compact: self.no_compact,
            used: self.used,
            no_used: self.no_used,
            full_mount: self.full_mount,
            no_full_mount: self.no_full_mount,
            tooltips: self.tooltips,
            no_tooltips: self.no_tooltips,
            show_virtual: self.show_virtual,
            no_virtual: self.no_virtual,
            unit_mode: self.unit_mode,
            col_mount_w: self.col_mount_w,
            col_bar_end_w: self.col_bar_end_w,
            col_pct_w: self.col_pct_w,
            config: match self.config { Some(s) => Some(s@), None => None },
            help: self.help,
            version: self.version,
            list_colors: self.list_colors,
            theme: match self.theme { Some(s) => Some(s@), None => None },
            export_theme: self.export_theme,
        }
    }
}

/// ASCII digit characters only.
pub open spec fn all_digits(s: Seq<char>) -> bool {
    forall|i: int| 0 <= i < s.len() ==> '0' <= #[trigger] s[i] <= '9'
}

/// Value of a decimal digit character.
pub open spec fn digit_of(c: char) -> nat {
    if c == '1' { 1 }
    else if c == '2' { 2 }
    else if c == '3' { 3 }
    else if c == '4' { 4 }
    else if c == '5' { 5 }
    else if c == '6' { 6 }
    else if c == '7' { 7 }
    else if c == '8' { 8 }
    else if c == '9' { 9 }
    else { 0 }
}

fn digit_value(c: char) -> (r: u64)
    ensures
        r as nat == digit_of(c),
        r <= 9,
{
    if c == '1' { 1 }
    else if c == '2' { 2 }
    else if c == '3' { 3 }
    else if c == '4' { 4 }
    else if c == '5' { 5 }
    else if c == '6' { 6 }
    else if c == '7' { 7 }
    else if c == '8' { 8 }
    else if c == '9' { 9 }
    else { 0 }
}

/// Value of a string of decimal digits.
pub open spec fn digits_value(s: Seq<char>) -> nat
    decreases s.len(),
{
    if s.len() == 0 {
        0
    } else {
        digits_value(s.drop_last()) * 10 + digit_of(s.last())
    }
}

/// An unsigned number as the standard library reads one: an optional `+` and at least one
/// decimal digit, with a value that fits in 64 bits.
pub open spec fn parse_unsigned(s: Seq<char>) -> Option<nat> {
    let body = if s.len() > 0 && s[0] == '+' { s.drop_first() } else { s };
    if body.len() > 0 && all_digits(body) && digits_value(body) <= u64::MAX {
        Some(digits_value(body))
    } else {
        None
    }
}

/// A number read as a signed 64-bit integer and then required to lie in `0..=max`:
/// an optional sign and at least one decimal digit; a `-` is accepted only before zero.
pub open spec fn parse_small(s: Seq<char>, max: nat) -> Option<nat> {
    let neg = s.len() > 0 && s[0] == '-';
    let body = if s.len() > 0 && (s[0] == '+' || s[0] == '-') { s.drop_first() } else { s };
    if body.len() > 0 && all_digits(body) && digits_value(body) <= max && (!neg || digits_value(body) == 0) {
        Some(digits_value(body))
    } else {
        None
    }
}

/// Why a command line was rejected.
#[derive(Clone, Debug, PartialEq, Eq, Structural)]
pub enum CliErrorKind {
    /// A flag that the command does not know.
    UnknownArgument,
    /// A bare word where no value was expected.
    UnexpectedArgument,
    /// An argument that takes a value was given none.
    MissingValue(ArgId),
    /// A value that the argument does not accept.
    InvalidValue(ArgId),
    /// An argument given twice.
    Repeated(ArgId),
    /// A flag given a value with `=`.
    UnneededValue(ArgId),
}

/// A rejected command line: the reason, and the token at fault.
#[derive(Clone, Debug)]
pub struct CliError {
    pub kind: CliErrorKind,
    pub token: String,
}

/// Slot of an argument in the parsing state.
pub open spec fn arg_index(id: ArgId) -> int {
    match id {
        ArgId::SortMode => 0,
        ArgId::SortRev => 1,
        ArgId::NoReverse => 2,
        ArgId::ShowLocal => 3,
        ArgId::NoLocal => 4,
        ArgId::RefreshRate => 5,
        ArgId::BarStyle => 6,
        ArgId::ColorMode => 7,
        ArgId::ThreshWarn => 8,
        ArgId::ThreshCrit => 9,
        ArgId::Bars => 10,
        ArgId::NoBars => 11,
        ArgId::Border => 12,
        ArgId::NoBorder => 13,
        ArgId::Header => 14,
        ArgId::NoHeader => 15,
        ArgId::Compact => 16,
        ArgId::NoCompact => 17,
        ArgId::Used => 18,
        ArgId::NoUsed => 19,
        ArgId::FullMount => 20,
        ArgId::NoFullMount => 21,
        ArgId::Tooltips => 22,
        ArgId::NoTooltips => 23,
        ArgId::ShowVirtual => 24,
        ArgId::NoVirtual => 25,
        ArgId::UnitMode => 26,
        ArgId::ColMount => 27,
        ArgId::ColBarEnd => 28,
        ArgId::ColPct => 29,
        ArgId::Config => 30,
        ArgId::Help => 31,
        ArgId::Version => 32,
        ArgId::ListColors => 33,
        ArgId::Theme => 34,
        ArgId::ExportTheme => 35,
    }
}

fn arg_idx(id: ArgId) -> (r: usize)
    ensures
        r as int == arg_index(id),
        r < ARG_COUNT,
{
    match id {
        ArgId::SortMode => 0,
        ArgId::SortRev => 1,
        ArgId::NoReverse => 2,
        ArgId::ShowLocal => 3,
        ArgId::NoLocal => 4,
        ArgId::RefreshRate => 5,
        ArgId::BarStyle => 6,
        ArgId::ColorMode => 7,
        ArgId::ThreshWarn => 8,
        ArgId::ThreshCrit => 9,
        ArgId::Bars => 10,
        ArgId::NoBars => 11,
        ArgId::Border => 12,
        ArgId::NoBorder => 13,
        ArgId::Header => 14,
        ArgId::NoHeader => 15,
        ArgId::Compact => 16,
        ArgId::NoCompact => 17,
        ArgId::Used => 18,
        ArgId::NoUsed => 19,
        ArgId::FullMount => 20,
        ArgId::NoFullMount => 21,
        ArgId::Tooltips => 22,
        ArgId::NoTooltips => 23,
        ArgId::ShowVirtual => 24,
        ArgId::NoVirtual => 25,
        ArgId::UnitMode => 26,
        ArgId::ColMount => 27,
        ArgId::ColBarEnd => 28,
        ArgId::ColPct => 29,
        ArgId::Config => 30,
        ArgId::Help => 31,
        ArgId::Version => 32,
        ArgId::ListColors => 33,
        ArgId::Theme => 34,
        ArgId::ExportTheme => 35,
    }
}

/// Number of arguments.
pub const ARG_COUNT: usize = 36;

/// Whether `v` is a value that argument `id` accepts.
pub open spec fn valid_value(id: ArgId, v: Seq<char>) -> bool {
    match id {
        ArgId::SortMode => sort_from(v) is Some,
        ArgId::SortRev => true,
        ArgId::NoReverse => true,
        ArgId::ShowLocal => true,
        ArgId::NoLocal => true,
        ArgId::RefreshRate => parse_unsigned(v) is Some,
        ArgId::BarStyle => bar_from(v) is Some,
        ArgId::ColorMode => color_from(v) is Some,
        ArgId::ThreshWarn => parse_small(v, 255) is Some,
        ArgId::ThreshCrit => parse_small(v, 255) is Some,
        ArgId::Bars => true,
        ArgId::NoBars => true,
        ArgId::Border => true,
        ArgId::NoBorder => true,
        ArgId::Header => true,
        ArgId::NoHeader => true,
        ArgId::Compact => true,
        ArgId::NoCompact => true,
        ArgId::Used => true,
        ArgId::NoUsed => true,
        ArgId::FullMount => true,
        ArgId::NoFullMount => true,
        ArgId::Tooltips => true,
        ArgId::NoTooltips => true,
        ArgId::ShowVirtual => true,
        ArgId::NoVirtual => true,
        ArgId::UnitMode => unit_from(v) is Some,
        ArgId::ColMount => parse_small(v, 65535) is Some,
        ArgId::ColBarEnd => parse_small(v, 65535) is Some,
        ArgId::ColPct => parse_small(v, 65535) is Some,
        ArgId::Config => true,
        ArgId::Help => true,
        ArgId::Version => true,
        ArgId::ListColors => true,
        ArgId::Theme => true,
        ArgId::ExportTheme => true,
    }
}

fn value_ok(id: ArgId, v: &[char]) -> (r: bool)
    ensures
        r == valid_value(id, v@),
{
    match id {
        ArgId::SortMode => SortMode::from_flag(v).is_some(),
        ArgId::SortRev => true,
        ArgId::NoReverse => true,
        ArgId::ShowLocal => true,
        ArgId::NoLocal => true,
        ArgId::RefreshRate => parse_unsigned_exec(v).is_some(),
        ArgId::BarStyle => BarStyle::from_flag(v).is_some(),
        ArgId::ColorMode => ColorMode::from_flag(v).is_some(),
        ArgId::ThreshWarn => parse_small_exec(v, 255).is_some(),
        ArgId::ThreshCrit => parse_small_exec(v, 255).is_some(),
        ArgId::Bars => true,
        ArgId::NoBars => true,
        ArgId::Border => true,
        ArgId::NoBorder => true,
        ArgId::Header => true,
        ArgId::NoHeader => true,
        ArgId::Compact => true,
        ArgId::NoCompact => true,
        ArgId::Used => true,
        ArgId::NoUsed => true,
        ArgId::FullMount => true,
        ArgId::NoFullMount => true,
        ArgId::Tooltips => true,
        ArgId::NoTooltips => true,
        ArgId::ShowVirtual => true,
        ArgId::NoVirtual => true,
        ArgId::UnitMode => UnitMode::from_flag(v).is_some(),
        ArgId::ColMount => parse_small_exec(v, 65535).is_some(),
        ArgId::ColBarEnd => parse_small_exec(v, 65535).is_some(),
        ArgId::ColPct => parse_small_exec(v, 65535).is_some(),
        ArgId::Config => true,
        ArgId::Help => true,
        ArgId::Version => true,
        ArgId::ListColors => true,
        ArgId::Theme => true,
        ArgId::ExportTheme => true,
    }
}

/// Raw values of the arguments given so far, one slot per argument; a given flag holds
/// an empty value.
pub type Slots = Seq<Option<Seq<char>>>;

/// The command line that the slots describe.
pub open spec fn build(m: Slots) -> CliModel {
    CliModel {
        sort_mode: match m[0] { Some(v) => sort_from(v), None => None },
        sort_rev: m[1] is Some,
        no_reverse: m[2] is Some,
        show_local: m[3] is Some,
        no_local: m[4] is Some,
        refresh_rate: match m[5] { Some(v) => match parse_unsigned(v) { Some(n) => Some(n as u64), None => None }, None => None },
        bar_style: match m[6] { Some(v) => bar_from(v), None => None },
        color_mode: match m[7] { Some(v) => color_from(v), None => None },
        thresh_warn: match m[8] { Some(v) => match parse_small(v, 255) { Some(n) => Some(n as u8), None => None }, None => None },
        thresh_crit: match m[9] { Some(v) => match parse_small(v, 255) { Some(n) => Some(n as u8), None => None }, None => None },
        bars: m[10] is Some,
        no_bars: m[11] is Some,
        border: m[12] is Some,
        no_border: m[13] is Some,
        header: m[14] is Some,
        no_header: m[15] is Some,
        compact: m[16] is Some,
        no_compact: m[17] is Some,
        used: m[18] is Some,
        no_used: m[19] is Some,
        full_mount: m[20] is Some,
        no_full_mount: m[21] is Some,
        tooltips: m[22] is Some,
        no_tooltips: m[23] is Some,
        show_virtual: m[24] is Some,
        no_virtual: m[25] is Some,
        unit_mode: match m[26] { Some(v) => unit_from(v), None => None },
        col_mount_w: match m[27] { Some(v) => match parse_small(v, 65535) { Some(n) => Some(n as u16), None => None }, None => None },
        col_bar_end_w: match m[28] { Some(v) => match parse_small(v, 65535) { Some(n) => Some(n as u16), None => None }, None => None },
        col_pct_w: match m[29] { Some(v) => match parse_small(v, 65535) { Some(n) => Some(n as u16), None => None }, None => None },
        config: m[30],
        help: m[31] is Some,
        version: m[32] is Some,
        list_colors: m[33] is Some,
        theme: m[34],
        export_theme: m[35] is Some,
    }
}

fn slot_value(m: &Vec<Option<Vec<char>>>, i: usize) -> (r: Option<&[char]>)
    requires
        i < m@.len(),
    ensures
        match m@[i as int] { Some(v) => r matches Some(x) && x@ == v@, None => r is None },
{
    match &m[i] {
        Some(v) => Some(v.as_slice()),
        None => None,
    }
}

pub open spec fn slots_view(m: Seq<Option<Vec<char>>>) -> Slots {
    m.map_values(|o: Option<Vec<char>>| match o { Some(v) => Some(v@), None => None })
}

impl Cli {
    /// The command line that the slots describe.
    fn build(m: &Vec<Option<Vec<char>>>) -> (r: Cli)
        requires
            m@.len() == ARG_COUNT,
        ensures
            r@ == build(slots_view(m@)),
    {
        let v0 = slot_value(m, 0);
        let sort_mode = match v0 { Some(v) => SortMode::from_flag(v), None => None };
        let v1 = slot_value(m, 1);
        let sort_rev = v1.is_some();
        let v2 = slot_value(m, 2);
        let no_reverse = v2.is_some();
        let v3 = slot_value(m, 3);
        let show_local = v3.is_some();
        let v4 = slot_value(m, 4);
        let no_local = v4.is_some();
        let v5 = slot_value(m, 5);
        let refresh_rate = match v5 { Some(v) => parse_unsigned_exec(v), None => None };
        let v6 = slot_value(m, 6);
        let bar_style = match v6 { Some(v) => BarStyle::from_flag(v), None => None };
        let v7 = slot_value(m, 7);
        let color_mode = match v7 { Some(v) => ColorMode::from_flag(v), None => None };
        let v8 = slot_value(m, 8);
        let thresh_warn = match v8 { Some(v) => match parse_small_exec(v, 255) { Some(n) => Some(n as u8), None => None }, None => None };
        let v9 = slot_value(m, 9);
        let thresh_crit = match v9 { Some(v) => match parse_small_exec(v, 255) { Some(n) => Some(n as u8), None => None }, None => None };
        let v10 = slot_value(m, 10);
        let bars = v10.is_some();
        let v11 = slot_value(m, 11);
        let no_bars = v11.is_some();
        let v12 = slot_value(m, 12);
        let border = v12.is_some();
        let v13 = slot_value(m, 13);
        let no_border = v13.is_some();
        let v14 = slot_value(m, 14);
        let header = v14.is_some();
        let v15 = slot_value(m, 15);
        let no_header = v15.is_some();
        let v16 = slot_value(m, 16);
        let compact = v16.is_some();
        let v17 = slot_value(m, 17);
        let no_compact = v17.is_some();
        let v18 = slot_value(m, 18);
        let used = v18.is_some();
        let v19 = slot_value(m, 19);
        let no_used = v19.is_some();
        let v20 = slot_value(m, 20);
        let full_mount = v20.is_some();
        let v21 = slot_value(m, 21);
        let no_full_mount = v21.is_some();
        let v22 = slot_value(m, 22);
        let tooltips = v22.is_some();
        let v23 = slot_value(m, 23);
        let no_tooltips = v23.is_some();
        let v24 = slot_value(m, 24);
        let show_virtual = v24.is_some();
        let v25 = slot_value(m, 25);
        let no_virtual = v25.is_some();
        let v26 = slot_value(m, 26);
        let unit_mode = match v26 { Some(v) => UnitMode::from_flag(v), None => None };
        let v27 = slot_value(m, 27);
        let col_mount_w = match v27 { Some(v) => match parse_small_exec(v, 65535) { Some(n) => Some(n as u16), None => None }, None => None };
        let v28 = slot_value(m, 28);
        let col_bar_end_w = match v28 { Some(v) => match parse_small_exec(v, 65535) { Some(n) => Some(n as u16), None => None }, None => None };
        let v29 = slot_value(m, 29);
        let col_pct_w = match v29 { Some(v) => match parse_small_exec(v, 65535) { Some(n) => Some(n as u16), None => None }, None => None };
        let v30 = slot_value(m, 30);
        let config = match v30 { Some(v) => Some(string_from_chars(v)), None => None };
        let v31 = slot_value(m, 31);
        let help = v31.is_some();
        let v32 = slot_value(m, 32);
        let version = v32.is_some();
        let v33 = slot_value(m, 33);
        let list_colors = v33.is_some();
        let v34 = slot_value(m, 34);
        let theme = match v34 { Some(v) => Some(string_from_chars(v)), None => None };
        let v35 = slot_value(m, 35);
        let export_theme = v35.is_some();
        Cli {
            sort_mode,
            sort_rev,
            no_reverse,
            show_local,
            no_local,
            refresh_rate,
            bar_style,
            color_mode,
            thresh_warn,
            thresh_crit,
            bars,
            no_bars,
            border,
            no_border,
            header,
            no_header,
            compact,
            no_compact,
            used,
            no_used,
            full_mount,
            no_full_mount,
            tooltips,
            no_tooltips,
            show_virtual,
            no_virtual,
            unit_mode,
            col_mount_w,
            col_bar_end_w,
            col_pct_w,
            config,
            help,
            version,
            list_colors,
            theme,
            export_theme,
        }
    }
}

/// The argument whose long spelling is `name`.
pub open spec fn long_lookup(name: Seq<char>) -> Option<ArgId> {
    if name == "sort"@ {
        Some(ArgId::SortMode)
    } else if name == "reverse"@ {
        Some(ArgId::SortRev)
    } else if name == "no-reverse"@ {
        Some(ArgId::NoReverse)
    } else if name == "local-only"@ {
        Some(ArgId::ShowLocal)
    } else if name == "no-local"@ {
        Some(ArgId::NoLocal)
    } else if name == "refresh"@ {
        Some(ArgId::RefreshRate)
    } else if name == "bar-style"@ {
        Some(ArgId::BarStyle)
    } else if name == "color"@ {
        Some(ArgId::ColorMode)
    } else if name == "warn"@ {
        Some(ArgId::ThreshWarn)
    } else if name == "crit"@ {
        Some(ArgId::ThreshCrit)
    } else if name == "bars"@ {
        Some(ArgId::Bars)
    } else if name == "no-bars"@ {
        Some(ArgId::NoBars)
    } else if name == "border"@ {
        Some(ArgId::Border)
    } else if name == "no-border"@ {
        Some(ArgId::NoBorder)
    } else if name == "header"@ {
        Some(ArgId::Header)
    } else if name == "no-header"@ {
        Some(ArgId::NoHeader)
    } else if name == "compact"@ {
        Some(ArgId::Compact)
    } else if name == "no-compact"@ {
        Some(ArgId::NoCompact)
    } else if name == "used"@ {
        Some(ArgId::Used)
    } else if name == "no-used"@ {
        Some(ArgId::NoUsed)
    } else if name == "full-mount"@ {
        Some(ArgId::FullMount)
    } else if name == "no-full-mount"@ {
        Some(ArgId::NoFullMount)
    } else if name == "tooltips"@ {
        Some(ArgId::Tooltips)
    } else if name == "no-tooltips"@ {
        Some(ArgId::NoTooltips)
    } else if name == "virtual"@ {
        Some(ArgId::ShowVirtual)
    } else if name == "no-virtual"@ {
        Some(ArgId::NoVirtual)
    } else if name == "units"@ {
        Some(ArgId::UnitMode)
    } else if name == "col-mount"@ {
        Some(ArgId::ColMount)
    } else if name == "col-bar-end"@ {
        Some(ArgId::ColBarEnd)
    } else if name == "col-pct"@ {
        Some(ArgId::ColPct)
    } else if name == "config"@ {
        Some(ArgId::Config)
    } else if name == "help"@ {
        Some(ArgId::Help)
    } else if name == "version"@ {
        Some(ArgId::Version)
    } else if name == "list-colors"@ {
        Some(ArgId::ListColors)
    } else if name == "theme"@ {
        Some(ArgId::Theme)
    } else if name == "export-theme"@ {
        Some(ArgId::ExportTheme)
    } else {
        None
    }
}

/// The argument whose short spelling is `c`.
pub open spec fn short_lookup(c: char) -> Option<ArgId> {
    if c == 's' {
        Some(ArgId::SortMode)
    } else if c == 'R' {
        Some(ArgId::SortRev)
    } else if c == 'l' {
        Some(ArgId::ShowLocal)
    } else if c == 'r' {
        Some(ArgId::RefreshRate)
    } else if c == 'b' {
        Some(ArgId::BarStyle)
    } else if c == 'w' {
        Some(ArgId::ThreshWarn)
    } else if c == 'C' {
        Some(ArgId::ThreshCrit)
    } else if c == 'k' {
        Some(ArgId::Compact)
    } else if c == 'f' {
        Some(ArgId::FullMount)
    } else if c == 'u' {
        Some(ArgId::UnitMode)
    } else if c == 'c' {
        Some(ArgId::Config)
    } else if c == 'h' {
        Some(ArgId::Help)
    } else if c == 'V' {
        Some(ArgId::Version)
    } else {
        None
    }
}

/// The argument whose long spelling is `name`.
fn lookup_long(name: &[char]) -> (r: Option<ArgId>)
    ensures
        r == long_lookup(name@),
{
    if chars_eq(name, "sort") {
        Some(ArgId::SortMode)
    } else if chars_eq(name, "reverse") {
        Some(ArgId::SortRev)
    } else if chars_eq(name, "no-reverse") {
        Some(ArgId::NoReverse)
    } else if chars_eq(name, "local-only") {
        Some(ArgId::ShowLocal)
    } else if chars_eq(name, "no-local") {
        Some(ArgId::NoLocal)
    } else if chars_eq(name, "refresh") {
        Some(ArgId::RefreshRate)
    } else if chars_eq(name, "bar-style") {
        Some(ArgId::BarStyle)
    } else if chars_eq(name, "color") {
        Some(ArgId::ColorMode)
    } else if chars_eq(name, "warn") {
        Some(ArgId::ThreshWarn)
    } else if chars_eq(name, "crit") {
        Some(ArgId::ThreshCrit)
    } else if chars_eq(name, "bars") {
        Some(ArgId::Bars)
    } else if chars_eq(name, "no-bars") {
        Some(ArgId::NoBars)
    } else if chars_eq(name, "border") {
        Some(ArgId::Border)
    } else if chars_eq(name, "no-border") {
        Some(ArgId::NoBorder)
    } else if chars_eq(name, "header") {
        Some(ArgId::Header)
    } else if chars_eq(name, "no-header") {
        Some(ArgId::NoHeader)
    } else if chars_eq(name, "compact") {
        Some(ArgId::Compact)
    } else if chars_eq(name, "no-compact") {
        Some(ArgId::NoCompact)
    } else if chars_eq(name, "used") {
        Some(ArgId::Used)
    } else if chars_eq(name, "no-used") {
        Some(ArgId::NoUsed)
    } else if chars_eq(name, "full-mount") {
        Some(ArgId::FullMount)
    } else if chars_eq(name, "no-full-mount") {
        Some(ArgId::NoFullMount)
    } else if chars_eq(name, "tooltips") {
        Some(ArgId::Tooltips)
    } else if chars_eq(name, "no-tooltips") {
        Some(ArgId::NoTooltips)
    } else if chars_eq(name, "virtual") {
        Some(ArgId::ShowVirtual)
    } else if chars_eq(name, "no-virtual") {
        Some(ArgId::NoVirtual)
    } else if chars_eq(name, "units") {
        Some(ArgId::UnitMode)
    } else if chars_eq(name, "col-mount") {
        Some(ArgId::ColMount)
    } else if chars_eq(name, "col-bar-end") {
        Some(ArgId::ColBarEnd)
    } else if chars_eq(name, "col-pct") {
        Some(ArgId::ColPct)
    } else if chars_eq(name, "config") {
        Some(ArgId::Config)
    } else if chars_eq(name, "help") {
        Some(ArgId::Help)
    } else if chars_eq(name, "version") {
        Some(ArgId::Version)
    } else if chars_eq(name, "list-colors") {
        Some(ArgId::ListColors)
    } else if chars_eq(name, "theme") {
        Some(ArgId::Theme)
    } else if chars_eq(name, "export-theme") {
        Some(ArgId::ExportTheme)
    } else {
        None
    }
}

/// The argument whose short spelling is `c`.
fn lookup_short(c: char) -> (r: Option<ArgId>)
    ensures
        r == short_lookup(c),
{
    if c == 's' {
        Some(ArgId::SortMode)
    } else if c == 'R' {
        Some(ArgId::SortRev)
    } else if c == 'l' {
        Some(ArgId::ShowLocal)
    } else if c == 'r' {
        Some(ArgId::RefreshRate)
    } else if c == 'b' {
        Some(ArgId::BarStyle)
    } else if c == 'w' {
        Some(ArgId::ThreshWarn)
    } else if c == 'C' {
        Some(ArgId::ThreshCrit)
    } else if c == 'k' {
        Some(ArgId::Compact)
    } else if c == 'f' {
        Some(ArgId::FullMount)
    } else if c == 'u' {
        Some(ArgId::UnitMode)
    } else if c == 'c' {
        Some(ArgId::Config)
    } else if c == 'h' {
        Some(ArgId::Help)
    } else if c == 'V' {
        Some(ArgId::Version)
    } else {
        None
    }
}

fn arg_takes_value(id: ArgId) -> (r: bool)
    ensures
        r == takes_value(id),
{
    match id {
        ArgId::SortMode => true,
        ArgId::SortRev => false,
        ArgId::NoReverse => false,
        ArgId::ShowLocal => false,
        ArgId::NoLocal => false,
        ArgId::RefreshRate => true,
        ArgId::BarStyle => true,
        ArgId::ColorMode => true,
        ArgId::ThreshWarn => true,
        ArgId::ThreshCrit => true,
        ArgId::Bars => false,
        ArgId::NoBars => false,
        ArgId::Border => false,
        ArgId::NoBorder => false,
        ArgId::Header => false,
        ArgId::NoHeader => false,
        ArgId::Compact => false,
        ArgId::NoCompact => false,
        ArgId::Used => false,
        ArgId::NoUsed => false,
        ArgId::FullMount => false,
        ArgId::NoFullMount => false,
        ArgId::Tooltips => false,
        ArgId::NoTooltips => false,
        ArgId::ShowVirtual => false,
        ArgId::NoVirtual => false,
        ArgId::UnitMode => true,
        ArgId::ColMount => true,
        ArgId::ColBarEnd => true,
        ArgId::ColPct => true,
        ArgId::Config => true,
        ArgId::Help => false,
        ArgId::Version => false,
        ArgId::ListColors => false,
        ArgId::Theme => true,
        ArgId::ExportTheme => false,
    }
}

fn arg_partner(id: ArgId) -> (r: Option<ArgId>)
    ensures
        r == partner(id),
{
    match id {
        ArgId::SortMode => None,
        ArgId::SortRev => Some(ArgId::NoReverse),
        ArgId::NoReverse => Some(ArgId::SortRev),
        ArgId::ShowLocal => Some(ArgId::NoLocal),
        ArgId::NoLocal => Some(ArgId::ShowLocal),
        ArgId::RefreshRate => None,
        ArgId::BarStyle => None,
        ArgId::ColorMode => None,
        ArgId::ThreshWarn => None,
        ArgId::ThreshCrit => None,
        ArgId::Bars => Some(ArgId::NoBars),
        ArgId::NoBars => Some(ArgId::Bars),
        ArgId::Border => Some(ArgId::NoBorder),
        ArgId::NoBorder => Some(ArgId::Border),
        ArgId::Header => Some(ArgId::NoHeader),
        ArgId::NoHeader => Some(ArgId::Header),
        ArgId::Compact => Some(ArgId::NoCompact),
        ArgId::NoCompact => Some(ArgId::Compact),
        ArgId::Used => Some(ArgId::NoUsed),
        ArgId::NoUsed => Some(ArgId::Used),
        ArgId::FullMount => Some(ArgId::NoFullMount),
        ArgId::NoFullMount => Some(ArgId::FullMount),
        ArgId::Tooltips => Some(ArgId::NoTooltips),
        ArgId::NoTooltips => Some(ArgId::Tooltips),
        ArgId::ShowVirtual => Some(ArgId::NoVirtual),
        ArgId::NoVirtual => Some(ArgId::ShowVirtual),
        ArgId::UnitMode => None,
        ArgId::ColMount => None,
        ArgId::ColBarEnd => None,
        ArgId::ColPct => None,
        ArgId::Config => None,
        ArgId::Help => None,
        ArgId::Version => None,
        ArgId::ListColors => None,
        ArgId::Theme => None,
        ArgId::ExportTheme => None,
    }
}

/// Arguments that `--help` leaves out: the second spelling of a pair whose first
/// spelling is listed.
pub open spec fn arg_hidden(id: ArgId) -> bool {
    match id {
        ArgId::NoReverse | ArgId::NoLocal | ArgId::Bars | ArgId::Border | ArgId::Header
        | ArgId::NoCompact | ArgId::Used | ArgId::NoFullMount | ArgId::Tooltips
        | ArgId::ShowVirtual => true,
        _ => false,
    }
}

impl ArgId {
    /// Every argument, in declaration order.
    pub const ALL: [ArgId; 36] = [
        ArgId::SortMode,
        ArgId::SortRev,
        ArgId::NoReverse,
        ArgId::ShowLocal,
        ArgId::NoLocal,
        ArgId::RefreshRate,
        ArgId::BarStyle,
        ArgId::ColorMode,
        ArgId::ThreshWarn,
        ArgId::ThreshCrit,
        ArgId::Bars,
        ArgId::NoBars,
        ArgId::Border,
        ArgId::NoBorder,
        ArgId::Header,
        ArgId::NoHeader,
        ArgId::Compact,
        ArgId::NoCompact,
        ArgId::Used,
        ArgId::NoUsed,
        ArgId::FullMount,
        ArgId::NoFullMount,
        ArgId::Tooltips,
        ArgId::NoTooltips,
        ArgId::ShowVirtual,
        ArgId::NoVirtual,
        ArgId::UnitMode,
        ArgId::ColMount,
        ArgId::ColBarEnd,
        ArgId::ColPct,
        ArgId::Config,
        ArgId::Help,
        ArgId::Version,
        ArgId::ListColors,
        ArgId::Theme,
        ArgId::ExportTheme,
    ];

    /// The long spelling, without the leading `--`.
    pub fn long(self) -> (r: &'static str)
        ensures
            r@ == long_name(self),
    {
        long_text(self)
    }

    /// Whether `--help` leaves the argument out.
    pub fn hidden(self) -> (r: bool)
        ensures
            r == arg_hidden(self),
    {
        match self {
            ArgId::NoReverse | ArgId::NoLocal | ArgId::Bars | ArgId::Border | ArgId::Header
            | ArgId::NoCompact | ArgId::Used | ArgId::NoFullMount | ArgId::Tooltips
            | ArgId::ShowVirtual => true,
            _ => false,
        }
    }
}

/// The long spelling of an argument, as written on the command line.
fn long_text(id: ArgId) -> (r: &'static str)
    ensures
        r@ == long_name(id),
{
    match id {
        ArgId::SortMode => "sort",
        ArgId::SortRev => "reverse",
        ArgId::NoReverse => "no-reverse",
        ArgId::ShowLocal => "local-only",
        ArgId::NoLocal => "no-local",
        ArgId::RefreshRate => "refresh",
        ArgId::BarStyle => "bar-style",
        ArgId::ColorMode => "color",
        ArgId::ThreshWarn => "warn",
        ArgId::ThreshCrit => "crit",
        ArgId::Bars => "bars",
        ArgId::NoBars => "no-bars",
        ArgId::Border => "border",
        ArgId::NoBorder => "no-border",
        ArgId::Header => "header",
        ArgId::NoHeader => "no-header",
        ArgId::Compact => "compact",
        ArgId::NoCompact => "no-compact",
        ArgId::Used => "used",
        ArgId::NoUsed => "no-used",
        ArgId::FullMount => "full-mount",
        ArgId::NoFullMount => "no-full-mount",
        ArgId::Tooltips => "tooltips",
        ArgId::NoTooltips => "no-tooltips",
        ArgId::ShowVirtual => "virtual",
        ArgId::NoVirtual => "no-virtual",
        ArgId::UnitMode => "units",
        ArgId::ColMount => "col-mount",
        ArgId::ColBarEnd => "col-bar-end",
        ArgId::ColPct => "col-pct",
        ArgId::Config => "config",
        ArgId::Help => "help",
        ArgId::Version => "version",
        ArgId::ListColors => "list-colors",
        ArgId::Theme => "theme",
        ArgId::ExportTheme => "export-theme",
    }
}

/// Parsing progress after some tokens.
pub ghost struct ParseState {
    pub cli: Slots,
    /// The last argument that takes a value, with its value once seen; it is applied when
    /// the next argument is met or the line ends.
    pub pending: Option<(ArgId, Option<Seq<char>>)>,
    /// The next bare word is the pending argument's value.
    pub awaiting: bool,
    /// `--` has been seen: every later token is a bare word.
    pub trailing: bool,
}

/// Applies one argument, with its value if it takes one.
pub open spec fn apply_arg(m: Slots, id: ArgId, val: Option<Seq<char>>) -> Result<Slots, CliErrorKind> {
    if takes_value(id) && val is None {
        Err(CliErrorKind::MissingValue(id))
    } else if m[arg_index(id)] is Some {
        Err(CliErrorKind::Repeated(id))
    } else if takes_value(id) {
        if valid_value(id, val->0) {
            Ok(m.update(arg_index(id), val))
        } else {
            Err(CliErrorKind::InvalidValue(id))
        }
    } else {
        let m1 = match partner(id) {
            Some(p) => m.update(arg_index(p), None),
            None => m,
        };
        Ok(m1.update(arg_index(id), Some(Seq::empty())))
    }
}

/// Applies the pending argument, if any.
pub open spec fn resolve(st: ParseState) -> Result<Slots, CliErrorKind> {
    match st.pending {
        None => Ok(st.cli),
        Some(p) => apply_arg(st.cli, p.0, p.1),
    }
}

/// An argument met on the command line: the pending one is applied first.
pub open spec fn react(st: ParseState, id: ArgId, val: Option<Seq<char>>) -> Result<ParseState, CliErrorKind> {
    match resolve(st) {
        Err(e) => Err(e),
        Ok(m) => match apply_arg(m, id, val) {
            Err(e) => Err(e),
            Ok(m2) => Ok(ParseState { cli: m2, pending: None, awaiting: false, trailing: st.trailing }),
        },
    }
}

/// An argument that takes a value, with the value attached (`--x=v`, `-xv`) or to come.
pub open spec fn opt_value(st: ParseState, id: ArgId, attached: Option<Seq<char>>) -> Result<ParseState, CliErrorKind> {
    match attached {
        Some(v) => react(st, id, Some(v)),
        None => match resolve(st) {
            Err(e) => Err(e),
            Ok(m) => Ok(ParseState { cli: m, pending: Some((id, None)), awaiting: true, trailing: st.trailing }),
        },
    }
}

/// Index of the first `c` in `s`, or the length of `s` when there is none.
pub open spec fn first_index(s: Seq<char>, c: char) -> nat
    decreases s.len(),
{
    if s.len() == 0 {
        0
    } else if s[0] == c {
        0
    } else {
        1 + first_index(s.drop_first(), c)
    }
}

/// A long argument `--name` or `--name=value`; `rest` is what follows the dashes.
pub open spec fn step_long(st: ParseState, rest: Seq<char>) -> Result<ParseState, CliErrorKind> {
    let k = first_index(rest, '=');
    let name = rest.take(k as int);
    let val = if k < rest.len() { Some(rest.skip(k + 1 as int)) } else { None };
    match long_lookup(name) {
        None => Err(CliErrorKind::UnknownArgument),
        Some(id) => if takes_value(id) {
            opt_value(st, id, val)
        } else if val is Some {
            Err(CliErrorKind::UnneededValue(id))
        } else {
            react(st, id, None)
        },
    }
}

/// A cluster of short arguments `-abc`, from its `i`-th character on; an argument that
/// takes a value takes the rest of the cluster (after an optional `=`) as its value.
pub open spec fn step_short(st: ParseState, cs: Seq<char>, i: nat) -> Result<ParseState, CliErrorKind>
    decreases cs.len() - i,
{
    if i >= cs.len() {
        Ok(st)
    } else {
        match short_lookup(cs[i as int]) {
            None => Err(CliErrorKind::UnknownArgument),
            Some(id) => if !takes_value(id) {
                match react(st, id, None) {
                    Err(e) => Err(e),
                    Ok(st2) => step_short(st2, cs, i + 1),
                }
            } else {
                let rest = cs.skip(i + 1 as int);
                let att = if rest.len() == 0 {
                    None
                } else if rest[0] == '=' {
                    Some(rest.drop_first())
                } else {
                    Some(rest)
                };
                opt_value(st, id, att)
            },
        }
    }
}

/// A bare word: the value of the pending argument, or an error.
pub open spec fn step_word(st: ParseState, tok: Seq<char>) -> Result<ParseState, CliErrorKind> {
    match st.pending {
        Some(p) => if st.awaiting {
            Ok(ParseState { pending: Some((p.0, Some(tok))), awaiting: false, ..st })
        } else {
            Err(CliErrorKind::UnexpectedArgument)
        },
        None => Err(CliErrorKind::UnexpectedArgument),
    }
}

/// One token of the command line.
pub open spec fn step(st: ParseState, tok: Seq<char>) -> Result<ParseState, CliErrorKind> {
    if st.trailing {
        Err(CliErrorKind::UnexpectedArgument)
    } else if tok.len() == 2 && tok[0] == '-' && tok[1] == '-' {
        Ok(ParseState { trailing: true, ..st })
    } else if tok.len() > 2 && tok[0] == '-' && tok[1] == '-' {
        step_long(st, tok.skip(2))
    } else if tok.len() > 1 && tok[0] == '-' {
        step_short(st, tok.skip(1), 0)
    } else {
        step_word(st, tok)
    }
}

/// The tokens `toks[i..]`, in order.
pub open spec fn step_all(st: ParseState, toks: Seq<Seq<char>>, i: nat) -> Result<ParseState, CliErrorKind>
    decreases toks.len() - i,
{
    if i >= toks.len() {
        Ok(st)
    } else {
        match step(st, toks[i as int]) {
            Err(e) => Err(e),
            Ok(st2) => step_all(st2, toks, i + 1),
        }
    }
}

/// Parsing state before the first token.
pub open spec fn start_state() -> ParseState {
    ParseState { cli: Seq::new(ARG_COUNT as nat, |i: int| None), pending: None, awaiting: false, trailing: false }
}

/// The meaning of a command line whose first word is the program name.
pub open spec fn parse_spec(args: Seq<Seq<char>>) -> Result<CliModel, CliErrorKind> {
    match step_all(start_state(), args, 1) {
        Err(e) => Err(e),
        Ok(st) => match resolve(st) {
            Err(e) => Err(e),
            Ok(m) => Ok(build(m)),
        },
    }
}

/// Parsing progress after some tokens.
struct Parser {
    cli: Vec<Option<Vec<char>>>,
    pending: Option<(ArgId, Option<Vec<char>>)>,
    awaiting: bool,
    trailing: bool,
}

impl View for Parser {
    type V = ParseState;

    closed spec fn view(&self) -> ParseState {
        ParseState {
            cli: slots_view(self.cli@),
            pending: match self.pending {
                None => None,
                Some(p) => Some((p.0, match p.1 { None => None, Some(v) => Some(v@) })),
            },
            awaiting: self.awaiting,
            trailing: self.trailing,
        }
    }
}

fn fail(kind: CliErrorKind, tok: &[char]) -> (r: CliError)
    ensures
        r.kind == kind,
{
    CliError { kind, token: string_from_chars(tok) }
}

/// Applies one argument to the slots.
fn apply_arg_exec(cli: &mut Vec<Option<Vec<char>>>, id: ArgId, val: Option<&[char]>) -> (r: Result<(), CliErrorKind>)
    requires
        old(cli)@.len() == ARG_COUNT,
    ensures
        final(cli)@.len() == ARG_COUNT,
        match apply_arg(slots_view(old(cli)@), id, match val { None => None, Some(v) => Some(v@) }) {
            Ok(m) => r is Ok && slots_view(final(cli)@) == m,
            Err(e) => r == Err::<(), CliErrorKind>(e),
        },
{
    let ghost m0 = slots_view(cli@);
    let tv = arg_takes_value(id);
    if tv && val.is_none() {
        return Err(CliErrorKind::MissingValue(id));
    }
    let k = arg_idx(id);
    assert(m0[k as int] is Some == cli@[k as int] is Some);
    if cli[k].is_some() {
        return Err(CliErrorKind::Repeated(id));
    }
    if tv {
        match val {
            Some(v) => {
                if value_ok(id, v) {
                    cli.set(k, Some(slice_to_vec(v)));
                    assert(slots_view(cli@) =~= m0.update(k as int, Some(v@)));
                    Ok(())
                } else {
                    Err(CliErrorKind::InvalidValue(id))
                }
            },
            None => Err(CliErrorKind::MissingValue(id)),
        }
    } else {
        match arg_partner(id) {
            Some(p) => {
                let kp = arg_idx(p);
                cli.set(kp, None);
                assert(slots_view(cli@) =~= m0.update(kp as int, None));
            },
            None => {},
        }
        let ghost m1 = slots_view(cli@);
        cli.set(k, Some(Vec::new()));
        assert(slots_view(cli@) =~= m1.update(k as int, Some(Seq::empty())));
        Ok(())
    }
}

impl Parser {
    fn resolve(&mut self) -> (r: Result<(), CliErrorKind>)
        requires
            old(self).cli@.len() == ARG_COUNT,
        ensures
            final(self).cli@.len() == ARG_COUNT,
            match resolve(old(self)@) {
                Ok(m) => r is Ok && final(self)@ == (ParseState { cli: m, pending: None, ..old(self)@ }),
                Err(e) => r == Err::<(), CliErrorKind>(e),
            },
    {
        let pending = self.pending.take();
        match pending {
            None => Ok(()),
            Some((id, v)) => {
                let res = match &v {
                    None => apply_arg_exec(&mut self.cli, id, None),
                    Some(v) => apply_arg_exec(&mut self.cli, id, Some(v.as_slice())),
                };
                res
            },
        }
    }

    fn react(&mut self, id: ArgId, val: Option<&[char]>) -> (r: Result<(), CliErrorKind>)
        requires
            old(self).cli@.len() == ARG_COUNT,
        ensures
            final(self).cli@.len() == ARG_COUNT,
            match react(old(self)@, id, match val { None => None, Some(v) => Some(v@) }) {
                Ok(st) => r is Ok && final(self)@ == st,
                Err(e) => r == Err::<(), CliErrorKind>(e),
            },
    {
        let r1 = self.resolve();
        match r1 {
            Err(e) => Err(e),
            Ok(()) => {
                let r2 = apply_arg_exec(&mut self.cli, id, val);
                match r2 {
                    Err(e) => Err(e),
                    Ok(()) => {
                        self.awaiting = false;
                        Ok(())
                    },
                }
            },
        }
    }

    fn opt_value(&mut self, id: ArgId, attached: Option<&[char]>) -> (r: Result<(), CliErrorKind>)
        requires
            old(self).cli@.len() == ARG_COUNT,
        ensures
            final(self).cli@.len() == ARG_COUNT,
            match opt_value(old(self)@, id, match attached { None => None, Some(v) => Some(v@) }) {
                Ok(st) => r is Ok && final(self)@ == st,
                Err(e) => r == Err::<(), CliErrorKind>(e),
            },
    {
        match attached {
            Some(v) => self.react(id, Some(v)),
            None => {
                let r1 = self.resolve();
                match r1 {
                    Err(e) => Err(e),
                    Ok(()) => {
                        self.pending = Some((id, None));
                        self.awaiting = true;
                        Ok(())
                    },
                }
            },
        }
    }

    fn step_long(&mut self, rest: &[char]) -> (r: Result<(), CliErrorKind>)
        requires
            old(self).cli@.len() == ARG_COUNT,
        ensures
            final(self).cli@.len() == ARG_COUNT,
            match step_long(old(self)@, rest@) {
                Ok(st) => r is Ok && final(self)@ == st,
                Err(e) => r == Err::<(), CliErrorKind>(e),
            },
    {
        let k = find_char(rest, '=');
        let name = slice_take(rest, k);
        let id = lookup_long(name);
        match id {
            None => Err(CliErrorKind::UnknownArgument),
            Some(id) => {
                if arg_takes_value(id) {
                    if k < rest.len() {
                        let v = slice_skip(rest, k + 1);
                        self.opt_value(id, Some(v))
                    } else {
                        self.opt_value(id, None)
                    }
                } else if k < rest.len() {
                    Err(CliErrorKind::UnneededValue(id))
                } else {
                    self.react(id, None)
                }
            },
        }
    }

    fn step_short(&mut self, cs: &[char]) -> (r: Result<(), CliErrorKind>)
        requires
            old(self).cli@.len() == ARG_COUNT,
        ensures
            final(self).cli@.len() == ARG_COUNT,
            match step_short(old(self)@, cs@, 0) {
                Ok(st) => r is Ok && final(self)@ == st,
                Err(e) => r == Err::<(), CliErrorKind>(e),
            },
    {
        let mut i: usize = 0;
        let ghost st0 = self@;
        while i < cs.len()
            invariant
                i <= cs@.len(),
                st0 == old(self)@,
                self.cli@.len() == ARG_COUNT,
                step_short(st0, cs@, 0) == step_short(self@, cs@, i as nat),
            decreases cs@.len() - i,
        {
            let ghost cur = self@;
            let id = lookup_short(cs[i]);
            assert(id == short_lookup(cs@[i as int]));
            match id {
                None => {
                    assert(step_short(cur, cs@, i as nat) == Err::<ParseState, CliErrorKind>(CliErrorKind::UnknownArgument));
                    return Err(CliErrorKind::UnknownArgument);
                },
                Some(id) => {
                    if !arg_takes_value(id) {
                        let r = self.react(id, None);
                        match r {
                            Err(e) => {
                                return Err(e);
                            },
                            Ok(()) => {},
                        }
                    } else {
                        let rest = slice_skip(cs, i + 1);
                        assert(rest@ == cs@.skip(i + 1 as int));
                        if rest.len() == 0 {
                            return self.opt_value(id, None);
                        } else if rest[0] == '=' {
                            let v = slice_skip(rest, 1);
                            assert(v@ == rest@.drop_first());
                            return self.opt_value(id, Some(v));
                        } else {
                            return self.opt_value(id, Some(rest));
                        }
                    }
                },
            }
            i = i + 1;
        }
        Ok(())
    }

    fn step(&mut self, tok: &[char]) -> (r: Result<(), CliErrorKind>)
        requires
            old(self).cli@.len() == ARG_COUNT,
        ensures
            final(self).cli@.len() == ARG_COUNT,
            match step(old(self)@, tok@) {
                Ok(st) => r is Ok && final(self)@ == st,
                Err(e) => r == Err::<(), CliErrorKind>(e),
            },
    {
        if self.trailing {
            Err(CliErrorKind::UnexpectedArgument)
        } else if tok.len() == 2 && tok[0] == '-' && tok[1] == '-' {
            self.trailing = true;
            Ok(())
        } else if tok.len() > 2 && tok[0] == '-' && tok[1] == '-' {
            self.step_long(slice_skip(tok, 2))
        } else if tok.len() > 1 && tok[0] == '-' {
            self.step_short(slice_skip(tok, 1))
        } else if self.awaiting && self.pending.is_some() {
            let id = match &self.pending {
                Some(p) => p.0,
                None => ArgId::Help,
            };
            self.pending = Some((id, Some(slice_to_vec(tok))));
            self.awaiting = false;
            Ok(())
        } else {
            Err(CliErrorKind::UnexpectedArgument)
        }
    }
}

/// One empty slot per argument.
fn none_slots() -> (r: Vec<Option<Vec<char>>>)
    ensures
        r@.len() == ARG_COUNT,
        forall|x: int| 0 <= x < ARG_COUNT ==> r@[x] is None,
{
    let mut slots: Vec<Option<Vec<char>>> = Vec::new();
    let mut j: usize = 0;
    while j < ARG_COUNT
        invariant
            j <= ARG_COUNT,
            slots@.len() == j,
            forall|x: int| 0 <= x < j ==> slots@[x] is None,
        decreases ARG_COUNT - j,
    {
        slots.push(None);
        j = j + 1;
    }
    slots
}

/// Index of the first `c` in `s`, or the length of `s`.
fn find_char(s: &[char], c: char) -> (r: usize)
    ensures
        r as nat == first_index(s@, c),
        r <= s@.len(),
{
    let mut i: usize = 0;
    assert(s@.skip(0) =~= s@);
    while i < s.len()
        invariant
            i <= s@.len(),
            first_index(s@, c) == i + first_index(s@.skip(i as int), c),
        decreases s@.len() - i,
    {
        if s[i] == c {
            return i;
        }
        assert(s@.skip(i as int).drop_first() =~= s@.skip(i + 1));
        i = i + 1;
    }
    i
}

fn slice_take(s: &[char], n: usize) -> (r: &[char])
    requires
        n <= s@.len(),
    ensures
        r@ == s@.take(n as int),
{
    vstd::slice::slice_subrange(s, 0, n)
}

pub(crate) fn slice_skip(s: &[char], n: usize) -> (r: &[char])
    requires
        n <= s@.len(),
    ensures
        r@ == s@.skip(n as int),
{
    vstd::slice::slice_subrange(s, n, s.len())
}

fn slice_to_vec(s: &[char]) -> (r: Vec<char>)
    ensures
        r@ == s@,
{
    let mut v: Vec<char> = Vec::new();
    let mut i: usize = 0;
    while i < s.len()
        invariant
            i <= s@.len(),
            v@ == s@.take(i as int),
        decreases s@.len() - i,
    {
        v.push(s[i]);
        i = i + 1;
        assert(v@ =~= s@.take(i as int));
    }
    assert(s@.take(s@.len() as int) =~= s@);
    v
}

/// Numeric value of the decimal digits `s`, if they fit below `cap`; `None` otherwise.
fn digits_below(s: &[char], cap: u64) -> (r: Option<u64>)
    requires
        all_digits(s@),
        cap >= 9,
    ensures
        match r {
            Some(x) => x as nat == digits_value(s@) && digits_value(s@) <= cap,
            None => digits_value(s@) > cap,
        },
{
    let mut acc: u64 = 0;
    let mut i: usize = 0;
    while i < s.len()
        invariant
            i <= s@.len(),
            all_digits(s@),
            cap >= 9,
            acc as nat == digits_value(s@.take(i as int)),
            acc <= cap,
        decreases s@.len() - i,
    {
        assert(s@.take(i + 1).drop_last() =~= s@.take(i as int));
        let d = digit_value(s[i]);
        if acc > (cap - d) / 10 {
            proof {
                lemma_digits_monotone(s@, (i + 1) as nat);
                assert(acc * 10 + d > cap) by (nonlinear_arith)
                    requires acc > (cap - d) / 10, d <= 9, cap >= 9;
            }
            return None;
        }
        acc = acc * 10 + d;
        i = i + 1;
    }
    assert(s@.take(s@.len() as int) =~= s@);
    Some(acc)
}

/// The value of a prefix of a digit string is at most that of the whole string.
proof fn lemma_digits_monotone(s: Seq<char>, n: nat)
    requires
        all_digits(s),
        n <= s.len(),
    ensures
        digits_value(s.take(n as int)) <= digits_value(s),
    decreases s.len(),
{
    if n < s.len() {
        let t = s.drop_last();
        assert(all_digits(t));
        lemma_digits_monotone(t, n);
        assert(t.take(n as int) =~= s.take(n as int));
    } else {
        assert(s.take(n as int) =~= s);
    }
}

/// Whether every character of `s` is a decimal digit.
fn is_all_digits(s: &[char]) -> (r: bool)
    ensures
        r == all_digits(s@),
{
    let mut i: usize = 0;
    while i < s.len()
        invariant
            i <= s@.len(),
            forall|j: int| 0 <= j < i ==> '0' <= #[trigger] s@[j] <= '9',
        decreases s@.len() - i,
    {
        if s[i] < '0' || s[i] > '9' {
            return false;
        }
        i = i + 1;
    }
    true
}

/// Reads an unsigned 64-bit number as the standard library does.
pub(crate) fn parse_unsigned_exec(v: &[char]) -> (r: Option<u64>)
    ensures
        match parse_unsigned(v@) {
            Some(n) => r == Some(n as u64),
            None => r is None,
        },
{
    let body = if v.len() > 0 && v[0] == '+' { slice_skip(v, 1) } else { v };
    assert(body@ == (if v@.len() > 0 && v@[0] == '+' { v@.drop_first() } else { v@ }));
    if body.len() == 0 || !is_all_digits(body) {
        return None;
    }
    digits_below(body, u64::MAX)
}

/// Reads a number as a signed 64-bit integer and requires it to lie in `0..=max`.
fn parse_small_exec(v: &[char], max: u64) -> (r: Option<u64>)
    requires
        9 <= max <= 65535,
    ensures
        match parse_small(v@, max as nat) {
            Some(n) => r == Some(n as u64) && n <= max,
            None => r is None,
        },
{
    let neg = v.len() > 0 && v[0] == '-';
    let body = if v.len() > 0 && (v[0] == '+' || v[0] == '-') { slice_skip(v, 1) } else { v };
    assert(body@ == (if v@.len() > 0 && (v@[0] == '+' || v@[0] == '-') { v@.drop_first() } else { v@ }));
    if body.len() == 0 || !is_all_digits(body) {
        return None;
    }
    match digits_below(body, max) {
        None => None,
        Some(x) => if neg && x != 0 { None } else { Some(x) },
    }
}

/// The characters of each argument.
pub open spec fn args_view(args: Seq<&str>) -> Seq<Seq<char>> {
    args.map_values(|s: &str| s@)
}

impl Cli {
    /// Parses a command line whose first word is the program name, reporting why it
    /// is rejected when it is.
    pub fn try_parse_from(args: &[&str]) -> (r: Result<Cli, CliError>)
        ensures
            match r {
                Ok(c) => parse_spec(args_view(args@)) == Ok::<CliModel, CliErrorKind>(c@),
                Err(e) => parse_spec(args_view(args@)) == Err::<CliModel, CliErrorKind>(e.kind),
            },
    {
        let ghost toks = args_view(args@);
        let slots = none_slots();
        let mut p = Parser { cli: slots, pending: None, awaiting: false, trailing: false };
        assert(p@ == start_state()) by {
            assert(slots_view(p.cli@) =~= Seq::new(ARG_COUNT as nat, |i: int| None::<Seq<char>>));
        }
        let mut i: usize = 1;
        if args.len() == 0 {
            i = 0;
        }
        while i < args.len()
            invariant
                1 <= i <= args@.len() || (i == 0 && args@.len() == 0),
                p.cli@.len() == ARG_COUNT,
                toks == args_view(args@),
                step_all(start_state(), toks, 1) == step_all(p@, toks, i as nat),
            decreases args@.len() - i,
        {
            let tok = str_chars(args[i]);
            assert(tok@ == toks[i as int]);
            let r = p.step(tok.as_slice());
            match r {
                Err(kind) => {
                    return Err(fail(kind, tok.as_slice()));
                },
                Ok(()) => {},
            }
            i = i + 1;
        }
        let r = p.resolve();
        match r {
            Err(kind) => {
                let empty: Vec<char> = Vec::new();
                Err(fail(kind, empty.as_slice()))
            },
            Ok(()) => Ok(Cli::build(&p.cli)),
        }
    }

    /// Parses a command line that is known to be accepted.
    pub fn parse_from(args: &[&str]) -> (r: Cli)
        requires
            parse_spec(args_view(args@)) is Ok,
        ensures
            parse_spec(args_view(args@)) == Ok::<CliModel, CliErrorKind>(r@),
    {
        match Cli::try_parse_from(args) {
            Ok(c) => c,
            Err(_) => Cli::build(&none_slots()),
        }
    }
}
/// Version of this program.
pub const VERSION: &'static str = "0.1.0";

/// The status row of the help banner.
pub open spec fn status_line() -> Seq<char> {
    " STATUS: ONLINE  // SIGNAL: ████████░░ // v"@ + VERSION@
}

/// Spaces that pad the status row to the banner's width of 58 columns.
pub open spec fn status_padding() -> Seq<char> {
    Seq::new((if status_line().len() < 58 { 58 - status_line().len() } else { 0 }) as nat, |i: int| ' ')
}

/// The full `--help` text.
pub open spec fn help_spec() -> Seq<char> {
    "\n\x1b[36m  ███████╗████████╗ ██████╗ ██████╗  █████╗  ██████╗ ███████╗\x1b[0m\n\x1b[36m  ██╔════╝╚══██╔══╝██╔═══██╗██╔══██╗██╔══██╗██╔════╝ ██╔════╝\x1b[0m\n\x1b[35m  ███████╗   ██║   ██║   ██║██████╔╝███████║██║  ███╗█████╗  \x1b[0m\n\x1b[35m  ╚════██║   ██║   ██║   ██║██╔══██╗██╔══██║██║   ██║██╔══╝  \x1b[0m\n\x1b[31m  ███████║   ██║   ╚██████╔╝██║  ██║██║  ██║╚██████╔╝███████╗\x1b[0m\n\x1b[31m  ╚══════╝   ╚═╝    ╚═════╝ ╚═╝  ╚═╝╚═╝  ╚═╝ ╚═════╝ ╚══════╝\x1b[0m\n\x1b[33m        ███████╗██╗  ██╗ ██████╗ ██╗    ██╗███████╗██████╗ \x1b[0m\n\x1b[33m        ██╔════╝██║  ██║██╔═══██╗██║    ██║██╔════╝██╔══██╗\x1b[0m\n\x1b[33m        ███████╗███████║██║   ██║██║ █╗ ██║█████╗  ██████╔╝\x1b[0m\n\x1b[33m        ╚════██║██╔══██║██║   ██║██║███╗██║██╔══╝  ██╔══██╗\x1b[0m\n\x1b[33m        ███████║██║  ██║╚██████╔╝╚███╔███╔╝███████╗██║  ██║\x1b[0m\n\x1b[33m        ╚══════╝╚═╝  ╚═╝ ╚═════╝  ╚══╝╚══╝ ╚══════╝╚═╝  ╚═╝\x1b[0m\n\n \x1b[36m┌──────────────────────────────────────────────────────────┐\x1b[0m\n \x1b[36m│\x1b[0m"@
        + status_line()
        + ""@
        + status_padding()
        + "\x1b[36m│\x1b[0m\n \x1b[36m└──────────────────────────────────────────────────────────┘\x1b[0m\n\n\x1b[1;35m  >> NETRUNNER DISK MONITOR v"@
        + VERSION@
        + " <<\x1b[0m\n\x1b[1;35m  [ jack in to your chrome and monitor the datastream ]\x1b[0m\n\n\x1b[1;33m  USAGE:\x1b[0m storageshower [OPTIONS]\n\n\x1b[1;36m  ── SORTING ───────────────────────────────────────\x1b[0m\n  -s, --sort MODE          \x1b[32m//\x1b[0m sort disk entries \x1b[1;35m(name, pct, size)\x1b[0m\n  -R, --reverse            \x1b[32m//\x1b[0m reverse sort order\n  -l, --local-only         \x1b[32m//\x1b[0m show only local disks \x1b[1;35m(HDD/SSD)\x1b[0m\n      --no-virtual         \x1b[32m//\x1b[0m hide virtual filesystems \x1b[1;35m(tmpfs, devfs, etc.)\x1b[0m\n\n\x1b[1;36m  ── DISPLAY ───────────────────────────────────────\x1b[0m\n  -b, --bar-style STYLE    \x1b[32m//\x1b[0m bar visualization \x1b[1;35m(gradient, solid, thin, ascii)\x1b[0m\n      --color PALETTE      \x1b[32m//\x1b[0m color palette \x1b[1;35m(default, green, blue, purple, ...)\x1b[0m\n      --list-colors        \x1b[32m//\x1b[0m list all builtin color schemes\n      --export-theme       \x1b[32m//\x1b[0m export current palette as TOML\n      --theme NAME         \x1b[32m//\x1b[0m activate a custom theme by name\n  -u, --units MODE         \x1b[32m//\x1b[0m unit display \x1b[1;35m(human, gib, mib, bytes)\x1b[0m\n  -k, --compact            \x1b[32m//\x1b[0m compact mount names\n  -f, --full-mount         \x1b[32m//\x1b[0m show full mount paths\n      --no-bars            \x1b[32m//\x1b[0m hide usage bars\n      --no-border          \x1b[32m//\x1b[0m hide border chrome\n      --no-header          \x1b[32m//\x1b[0m hide column headers\n      --no-used            \x1b[32m//\x1b[0m hide used/total size display\n      --no-tooltips        \x1b[32m//\x1b[0m hide hover tooltips \x1b[1;35m(right-click still works)\x1b[0m\n\n\x1b[1;36m  ── THRESHOLDS ────────────────────────────────────\x1b[0m\n  -w, --warn PCT           \x1b[32m//\x1b[0m warning threshold \x1b[1;35m(default: 70%)\x1b[0m\n  -C, --crit PCT           \x1b[32m//\x1b[0m critical threshold \x1b[1;35m(default: 90%)\x1b[0m\n\n\x1b[1;36m  ── COLUMNS ───────────────────────────────────────\x1b[0m\n      --col-mount WIDTH    \x1b[32m//\x1b[0m mount column width \x1b[1;35m(0 = auto)\x1b[0m\n      --col-bar-end WIDTH  \x1b[32m//\x1b[0m bar-end column width \x1b[1;35m(0 = auto)\x1b[0m\n      --col-pct WIDTH      \x1b[32m//\x1b[0m percentage column width \x1b[1;35m(0 = auto)\x1b[0m\n\n\x1b[1;36m  ── GENERAL ───────────────────────────────────────\x1b[0m\n  -r, --refresh SECS       \x1b[32m//\x1b[0m data refresh interval \x1b[1;35m(default: 1s)\x1b[0m\n  -c, --config PATH        \x1b[32m//\x1b[0m config file path \x1b[1;35m(default: ~/.storageshower.conf)\x1b[0m\n  -h, --help               \x1b[32m//\x1b[0m display this transmission\n  -V, --version            \x1b[32m//\x1b[0m display version information\n\n\x1b[1;36m  ── KEYBINDS ──────────────────────────────────────\x1b[0m\n  q / Q                    \x1b[32m//\x1b[0m flatline \x1b[1;35m(quit)\x1b[0m\n  Esc                      \x1b[32m//\x1b[0m deselect the current disk\n  j / k                    \x1b[32m//\x1b[0m scroll the datastream\n  Enter                    \x1b[32m//\x1b[0m drill down into the selected mount\n  n / u / s                \x1b[32m//\x1b[0m sort by name / usage % / size\n  r                        \x1b[32m//\x1b[0m reverse sort polarity\n  b                        \x1b[32m//\x1b[0m swap bar firmware\n  c / C                    \x1b[32m//\x1b[0m theme chooser popup / theme editor\n  i                        \x1b[32m//\x1b[0m cycle units \x1b[1;35m(human, GiB, MiB, bytes)\x1b[0m\n  d                        \x1b[32m//\x1b[0m toggle used/total\n  m / w                    \x1b[32m//\x1b[0m compact mount names / full mount paths\n  l / a                    \x1b[32m//\x1b[0m local disks only / all filesystems\n  /                        \x1b[32m//\x1b[0m enter filter daemon\n  p                        \x1b[32m//\x1b[0m pause data feed\n  h / ?                    \x1b[32m//\x1b[0m open help overlay \x1b[1;35m(full keybind matrix)\x1b[0m\n\n\x1b[1;36m  ── EXAMPLES ──────────────────────────────────────\x1b[0m\n  storageshower --color purple -b ascii \x1b[32m//\x1b[0m purple palette with ascii bars\n  storageshower -s pct -R               \x1b[32m//\x1b[0m sort by usage%, reversed\n  storageshower -l --no-virtual         \x1b[32m//\x1b[0m local physical disks only\n  storageshower -u gib -w 60 -C 85      \x1b[32m//\x1b[0m GiB units, custom thresholds\n  storageshower --config /tmp/ss.conf   \x1b[32m//\x1b[0m use alternate config\n\n\x1b[1;36m  ── SYSTEM ────────────────────────────────────────\x1b[0m\n  \x1b[1;35mv"@
        + VERSION@
        + " \x1b[0m\x1b[32m//\x1b[0m \x1b[1;33m(c) MenkeTechnologies\x1b[0m\n  \x1b[1;35mConfig synced to ~/.storageshower.conf — CLI flags override it.\x1b[0m\n  \x1b[1;33m>>> WAKE UP, SAMURAI. WE HAVE DISKS TO MONITOR. <<<\x1b[0m\n \x1b[36m░░░░░░░░░░░░░░░░░░░░░░░░░░░░░░░░░░░░░░░░░░░░░░░░░░░░░░░░░░░░░░\x1b[0m\n"@
}

/// The full `--help` transmission, its status box padded to the banner's width.
pub fn help_text() -> (r: String)
    ensures
        r@ == help_spec(),
{
    let mut status: Vec<char> = Vec::new();
    push_str(&mut status, " STATUS: ONLINE  // SIGNAL: ████████░░ // v");
    push_str(&mut status, VERSION);
    let mut space: Vec<char> = Vec::new();
    let mut k: usize = status.len();
    while k < 58
        invariant
            status@ == status_line(),
            k >= status@.len(),
            k <= 58 || k == status@.len(),
            space@ == Seq::new((k - status@.len()) as nat, |i: int| ' '),
        decreases 58 - k,
    {
        space.push(' ');
        k = k + 1;
        assert(space@ =~= Seq::new((k - status@.len()) as nat, |i: int| ' '));
    }
    assert(space@ =~= status_padding());
    let mut v: Vec<char> = Vec::new();
    push_str(&mut v, "\n\x1b[36m  ███████╗████████╗ ██████╗ ██████╗  █████╗  ██████╗ ███████╗\x1b[0m\n\x1b[36m  ██╔════╝╚══██╔══╝██╔═══██╗██╔══██╗██╔══██╗██╔════╝ ██╔════╝\x1b[0m\n\x1b[35m  ███████╗   ██║   ██║   ██║██████╔╝███████║██║  ███╗█████╗  \x1b[0m\n\x1b[35m  ╚════██║   ██║   ██║   ██║██╔══██╗██╔══██║██║   ██║██╔══╝  \x1b[0m\n\x1b[31m  ███████║   ██║   ╚██████╔╝██║  ██║██║  ██║╚██████╔╝███████╗\x1b[0m\n\x1b[31m  ╚══════╝   ╚═╝    ╚═════╝ ╚═╝  ╚═╝╚═╝  ╚═╝ ╚═════╝ ╚══════╝\x1b[0m\n\x1b[33m        ███████╗██╗  ██╗ ██████╗ ██╗    ██╗███████╗██████╗ \x1b[0m\n\x1b[33m        ██╔════╝██║  ██║██╔═══██╗██║    ██║██╔════╝██╔══██╗\x1b[0m\n\x1b[33m        ███████╗███████║██║   ██║██║ █╗ ██║█████╗  ██████╔╝\x1b[0m\n\x1b[33m        ╚════██║██╔══██║██║   ██║██║███╗██║██╔══╝  ██╔══██╗\x1b[0m\n\x1b[33m        ███████║██║  ██║╚██████╔╝╚███╔███╔╝███████╗██║  ██║\x1b[0m\n\x1b[33m        ╚══════╝╚═╝  ╚═╝ ╚═════╝  ╚══╝╚══╝ ╚══════╝╚═╝  ╚═╝\x1b[0m\n\n \x1b[36m┌──────────────────────────────────────────────────────────┐\x1b[0m\n \x1b[36m│\x1b[0m");
    push_chars(&mut v, status.as_slice());
    push_str(&mut v, "");
    push_chars(&mut v, space.as_slice());
    push_str(&mut v, "\x1b[36m│\x1b[0m\n \x1b[36m└──────────────────────────────────────────────────────────┘\x1b[0m\n\n\x1b[1;35m  >> NETRUNNER DISK MONITOR v");
    push_str(&mut v, VERSION);
    push_str(&mut v, " <<\x1b[0m\n\x1b[1;35m  [ jack in to your chrome and monitor the datastream ]\x1b[0m\n\n\x1b[1;33m  USAGE:\x1b[0m storageshower [OPTIONS]\n\n\x1b[1;36m  ── SORTING ───────────────────────────────────────\x1b[0m\n  -s, --sort MODE          \x1b[32m//\x1b[0m sort disk entries \x1b[1;35m(name, pct, size)\x1b[0m\n  -R, --reverse            \x1b[32m//\x1b[0m reverse sort order\n  -l, --local-only         \x1b[32m//\x1b[0m show only local disks \x1b[1;35m(HDD/SSD)\x1b[0m\n      --no-virtual         \x1b[32m//\x1b[0m hide virtual filesystems \x1b[1;35m(tmpfs, devfs, etc.)\x1b[0m\n\n\x1b[1;36m  ── DISPLAY ───────────────────────────────────────\x1b[0m\n  -b, --bar-style STYLE    \x1b[32m//\x1b[0m bar visualization \x1b[1;35m(gradient, solid, thin, ascii)\x1b[0m\n      --color PALETTE      \x1b[32m//\x1b[0m color palette \x1b[1;35m(default, green, blue, purple, ...)\x1b[0m\n      --list-colors        \x1b[32m//\x1b[0m list all builtin color schemes\n      --export-theme       \x1b[32m//\x1b[0m export current palette as TOML\n      --theme NAME         \x1b[32m//\x1b[0m activate a custom theme by name\n  -u, --units MODE         \x1b[32m//\x1b[0m unit display \x1b[1;35m(human, gib, mib, bytes)\x1b[0m\n  -k, --compact            \x1b[32m//\x1b[0m compact mount names\n  -f, --full-mount         \x1b[32m//\x1b[0m show full mount paths\n      --no-bars            \x1b[32m//\x1b[0m hide usage bars\n      --no-border          \x1b[32m//\x1b[0m hide border chrome\n      --no-header          \x1b[32m//\x1b[0m hide column headers\n      --no-used            \x1b[32m//\x1b[0m hide used/total size display\n      --no-tooltips        \x1b[32m//\x1b[0m hide hover tooltips \x1b[1;35m(right-click still works)\x1b[0m\n\n\x1b[1;36m  ── THRESHOLDS ────────────────────────────────────\x1b[0m\n  -w, --warn PCT           \x1b[32m//\x1b[0m warning threshold \x1b[1;35m(default: 70%)\x1b[0m\n  -C, --crit PCT           \x1b[32m//\x1b[0m critical threshold \x1b[1;35m(default: 90%)\x1b[0m\n\n\x1b[1;36m  ── COLUMNS ───────────────────────────────────────\x1b[0m\n      --col-mount WIDTH    \x1b[32m//\x1b[0m mount column width \x1b[1;35m(0 = auto)\x1b[0m\n      --col-bar-end WIDTH  \x1b[32m//\x1b[0m bar-end column width \x1b[1;35m(0 = auto)\x1b[0m\n      --col-pct WIDTH      \x1b[32m//\x1b[0m percentage column width \x1b[1;35m(0 = auto)\x1b[0m\n\n\x1b[1;36m  ── GENERAL ───────────────────────────────────────\x1b[0m\n  -r, --refresh SECS       \x1b[32m//\x1b[0m data refresh interval \x1b[1;35m(default: 1s)\x1b[0m\n  -c, --config PATH        \x1b[32m//\x1b[0m config file path \x1b[1;35m(default: ~/.storageshower.conf)\x1b[0m\n  -h, --help               \x1b[32m//\x1b[0m display this transmission\n  -V, --version            \x1b[32m//\x1b[0m display version information\n\n\x1b[1;36m  ── KEYBINDS ──────────────────────────────────────\x1b[0m\n  q / Q                    \x1b[32m//\x1b[0m flatline \x1b[1;35m(quit)\x1b[0m\n  Esc                      \x1b[32m//\x1b[0m deselect the current disk\n  j / k                    \x1b[32m//\x1b[0m scroll the datastream\n  Enter                    \x1b[32m//\x1b[0m drill down into the selected mount\n  n / u / s                \x1b[32m//\x1b[0m sort by name / usage % / size\n  r                        \x1b[32m//\x1b[0m reverse sort polarity\n  b                        \x1b[32m//\x1b[0m swap bar firmware\n  c / C                    \x1b[32m//\x1b[0m theme chooser popup / theme editor\n  i                        \x1b[32m//\x1b[0m cycle units \x1b[1;35m(human, GiB, MiB, bytes)\x1b[0m\n  d                        \x1b[32m//\x1b[0m toggle used/total\n  m / w                    \x1b[32m//\x1b[0m compact mount names / full mount paths\n  l / a                    \x1b[32m//\x1b[0m local disks only / all filesystems\n  /                        \x1b[32m//\x1b[0m enter filter daemon\n  p                        \x1b[32m//\x1b[0m pause data feed\n  h / ?                    \x1b[32m//\x1b[0m open help overlay \x1b[1;35m(full keybind matrix)\x1b[0m\n\n\x1b[1;36m  ── EXAMPLES ──────────────────────────────────────\x1b[0m\n  storageshower --color purple -b ascii \x1b[32m//\x1b[0m purple palette with ascii bars\n  storageshower -s pct -R               \x1b[32m//\x1b[0m sort by usage%, reversed\n  storageshower -l --no-virtual         \x1b[32m//\x1b[0m local physical disks only\n  storageshower -u gib -w 60 -C 85      \x1b[32m//\x1b[0m GiB units, custom thresholds\n  storageshower --config /tmp/ss.conf   \x1b[32m//\x1b[0m use alternate config\n\n\x1b[1;36m  ── SYSTEM ────────────────────────────────────────\x1b[0m\n  \x1b[1;35mv");
    push_str(&mut v, VERSION);
    push_str(&mut v, " \x1b[0m\x1b[32m//\x1b[0m \x1b[1;33m(c) MenkeTechnologies\x1b[0m\n  \x1b[1;35mConfig synced to ~/.storageshower.conf — CLI flags override it.\x1b[0m\n  \x1b[1;33m>>> WAKE UP, SAMURAI. WE HAVE DISKS TO MONITOR. <<<\x1b[0m\n \x1b[36m░░░░░░░░░░░░░░░░░░░░░░░░░░░░░░░░░░░░░░░░░░░░░░░░░░░░░░░░░░░░░░\x1b[0m\n");
    string_from_chars(v.as_slice())
}

/// The preferences with the command line's values and flags laid over them (the
/// active theme aside).
pub open spec fn overridden(c: CliModel, p: Prefs) -> Prefs {
    Prefs {
        sort_mode: match c.sort_mode { Some(v) => v, None => p.sort_mode },
        refresh_rate: match c.refresh_rate { Some(v) => v, None => p.refresh_rate },
        bar_style: match c.bar_style { Some(v) => v, None => p.bar_style },
        color_mode: match c.color_mode { Some(v) => v, None => p.color_mode },
        thresh_warn: match c.thresh_warn { Some(v) => v, None => p.thresh_warn },
        thresh_crit: match c.thresh_crit { Some(v) => v, None => p.thresh_crit },
        unit_mode: match c.unit_mode { Some(v) => v, None => p.unit_mode },
        col_mount_w: match c.col_mount_w { Some(v) => v, None => p.col_mount_w },
        col_bar_end_w: match c.col_bar_end_w { Some(v) => v, None => p.col_bar_end_w },
        col_pct_w: match c.col_pct_w { Some(v) => v, None => p.col_pct_w },
        sort_rev: if c.no_reverse { false } else if c.sort_rev { true } else { p.sort_rev },
        show_local: if c.no_local { false } else if c.show_local { true } else { p.show_local },
        compact: if c.no_compact { false } else if c.compact { true } else { p.compact },
        full_mount: if c.no_full_mount { false } else if c.full_mount { true } else { p.full_mount },
        show_bars: if c.no_bars { false } else if c.bars { true } else { p.show_bars },
        show_border: if c.no_border { false } else if c.border { true } else { p.show_border },
        show_header: if c.no_header { false } else if c.header { true } else { p.show_header },
        show_used: if c.no_used { false } else if c.used { true } else { p.show_used },
        show_tooltips: if c.no_tooltips { false } else if c.tooltips { true } else { p.show_tooltips },
        show_all: if c.no_virtual { false } else if c.show_virtual { true } else { p.show_all },
        ..p
    }
}

impl Cli {
    /// Lays the command-line overrides over the loaded preferences: every value given
    /// replaces the stored one, and of each flag pair the one given wins (parsing lets
    /// at most one of a pair stand); a theme name given becomes the active theme.
    pub fn apply_to(&self, prefs: &mut Prefs)
        ensures
            *final(prefs) == (Prefs { active_theme: final(prefs).active_theme, ..overridden(self@, *old(prefs)) }),
            match self.theme {
                Some(t) => final(prefs).active_theme matches Some(a) && a@ == t@,
                None => final(prefs).active_theme == old(prefs).active_theme,
            },
    {
        self.apply_values(prefs);
        self.apply_flags(prefs);
        if let Some(name) = &self.theme {
            prefs.active_theme = Some(name.clone());
        }
    }

    fn apply_values(&self, prefs: &mut Prefs)
        ensures
            *final(prefs) == (Prefs {

                sort_mode: match self.sort_mode { Some(v) => v, None => old(prefs).sort_mode },
                refresh_rate: match self.refresh_rate { Some(v) => v, None => old(prefs).refresh_rate },
                bar_style: match self.bar_style { Some(v) => v, None => old(prefs).bar_style },
                color_mode: match self.color_mode { Some(v) => v, None => old(prefs).color_mode },
                thresh_warn: match self.thresh_warn { Some(v) => v, None => old(prefs).thresh_warn },
                thresh_crit: match self.thresh_crit { Some(v) => v, None => old(prefs).thresh_crit },
                unit_mode: match self.unit_mode { Some(v) => v, None => old(prefs).unit_mode },
                col_mount_w: match self.col_mount_w { Some(v) => v, None => old(prefs).col_mount_w },
                col_bar_end_w: match self.col_bar_end_w { Some(v) => v, None => old(prefs).col_bar_end_w },
                col_pct_w: match self.col_pct_w { Some(v) => v, None => old(prefs).col_pct_w },
                ..*old(prefs)
            }),
    {
        let sort_mode = match self.sort_mode { Some(v) => v, None => prefs.sort_mode };
        let refresh_rate = match self.refresh_rate { Some(v) => v, None => prefs.refresh_rate };
        let bar_style = match self.bar_style { Some(v) => v, None => prefs.bar_style };
        let color_mode = match self.color_mode { Some(v) => v, None => prefs.color_mode };
        let thresh_warn = match self.thresh_warn { Some(v) => v, None => prefs.thresh_warn };
        let thresh_crit = match self.thresh_crit { Some(v) => v, None => prefs.thresh_crit };
        let unit_mode = match self.unit_mode { Some(v) => v, None => prefs.unit_mode };
        let col_mount_w = match self.col_mount_w { Some(v) => v, None => prefs.col_mount_w };
        let col_bar_end_w = match self.col_bar_end_w { Some(v) => v, None => prefs.col_bar_end_w };
        let col_pct_w = match self.col_pct_w { Some(v) => v, None => prefs.col_pct_w };
        prefs.sort_mode = sort_mode;
        prefs.refresh_rate = refresh_rate;
        prefs.bar_style = bar_style;
        prefs.color_mode = color_mode;
        prefs.thresh_warn = thresh_warn;
        prefs.thresh_crit = thresh_crit;
        prefs.unit_mode = unit_mode;
        prefs.col_mount_w = col_mount_w;
        prefs.col_bar_end_w = col_bar_end_w;
        prefs.col_pct_w = col_pct_w;
    }

    fn apply_flags(&self, prefs: &mut Prefs)
        ensures
            *final(prefs) == (Prefs {

                sort_rev: if self.no_reverse { false } else if self.sort_rev { true } else { old(prefs).sort_rev },
                show_local: if self.no_local { false } else if self.show_local { true } else { old(prefs).show_local },
                compact: if self.no_compact { false } else if self.compact { true } else { old(prefs).compact },
                full_mount: if self.no_full_mount { false } else if self.full_mount { true } else { old(prefs).full_mount },
                show_bars: if self.no_bars { false } else if self.bars { true } else { old(prefs).show_bars },
                show_border: if self.no_border { false } else if self.border { true } else { old(prefs).show_border },
                show_header: if self.no_header { false } else if self.header { true } else { old(prefs).show_header },
                show_used: if self.no_used { false } else if self.used { true } else { old(prefs).show_used },
                show_tooltips: if self.no_tooltips { false } else if self.tooltips { true } else { old(prefs).show_tooltips },
                show_all: if self.no_virtual { false } else if self.show_virtual { true } else { old(prefs).show_all },
                ..*old(prefs)
            }),
    {
        let sort_rev = if self.no_reverse { false } else if self.sort_rev { true } else { prefs.sort_rev };
        let show_local = if self.no_local { false } else if self.show_local { true } else { prefs.show_local };
        let compact = if self.no_compact { false } else if self.compact { true } else { prefs.compact };
        let full_mount = if self.no_full_mount { false } else if self.full_mount { true } else { prefs.full_mount };
        let show_bars = if self.no_bars { false } else if self.bars { true } else { prefs.show_bars };
        let show_border = if self.no_border { false } else if self.border { true } else { prefs.show_border };
        let show_header = if self.no_header { false } else if self.header { true } else { prefs.show_header };
        let show_used = if self.no_used { false } else if self.used { true } else { prefs.show_used };
        let show_tooltips = if self.no_tooltips { false } else if self.tooltips { true } else { prefs.show_tooltips };
        let show_all = if self.no_virtual { false } else if self.show_virtual { true } else { prefs.show_all };
        prefs.sort_rev = sort_rev;
        prefs.show_local = show_local;
        prefs.compact = compact;
        prefs.full_mount = full_mount;
        prefs.show_bars = show_bars;
        prefs.show_border = show_border;
        prefs.show_header = show_header;
        prefs.show_used = show_used;
        prefs.show_tooltips = show_tooltips;
        prefs.show_all = show_all;
    }
}

} // verus!
