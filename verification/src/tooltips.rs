//! The tooltips of the title and footer bars: which lines each segment of a bar
//! explains itself with.
use vstd::prelude::*;
use crate::app::App;
use crate::cli::{parse_unsigned, parse_unsigned_exec, VERSION};
use crate::helpers::{bytes_text, format_bytes, format_uptime, uptime_text};
use crate::system::{chrono_now, reading_text};
use crate::keys::{trim, trim_chars};
use crate::tables::drop_leading;
use crate::text::{
    chars_eq, decimal, has_substring, lowercase, push_chars, push_decimal, push_str, starts_with,
    split_at_char, split_chars, starts_with_lit, str_chars, string_from_chars, to_lowercase,
};
use crate::types::{color_name, BarStyle, SortMode, UnitMode};

verus! {

/// What the collector knows of the host, as plain values; figures with fractions come
/// already rendered.
pub struct HostFacts {
    pub hostname: String,
    pub os_name: String,
    pub os_version: String,
    pub kernel: String,
    pub arch: String,
    pub uptime: u64,
    pub mem_used: u64,
    pub mem_total: u64,
    pub swap_used: u64,
    pub swap_total: u64,
    pub cpu_count: u64,
    pub process_count: u64,
    /// The three load averages, each with two decimals.
    pub load_texts: (String, String, String),
    /// The share of memory in use, in percent with one decimal.
    pub mem_pct_text: String,
}

/// The lines of a tooltip, as text.
pub open spec fn line_views(v: Seq<(String, String)>) -> Seq<(Seq<char>, Seq<char>)> {
    v.map_values(|p: (String, String)| (p.0@, p.1@))
}

/// The name of a sort mode as the tooltip shows it.
pub open spec fn sort_name(m: SortMode) -> Seq<char> {
    match m {
        SortMode::Name => "Name"@,
        SortMode::Pct => "Pct"@,
        SortMode::Size => "Size"@,
    }
}

/// The name of a bar style as the tooltip shows it.
pub open spec fn bar_name(b: BarStyle) -> Seq<char> {
    match b {
        BarStyle::Gradient => "Gradient"@,
        BarStyle::Solid => "Solid"@,
        BarStyle::Thin => "Thin"@,
        BarStyle::Ascii => "Ascii"@,
    }
}

/// The name of a unit mode as the footer shows it.
pub open spec fn unit_name(u: UnitMode) -> Seq<char> {
    match u {
        UnitMode::Human => "human"@,
        UnitMode::GiB => "GiB"@,
        UnitMode::MiB => "MiB"@,
        UnitMode::Bytes => "bytes"@,
    }
}

/// The name of the palette in force: the active custom theme's, or the builtin one's.
pub open spec fn theme_label(app: App) -> Seq<char> {
    match app.prefs.active_theme {
        Some(n) => n@,
        None => color_name(app.prefs.color_mode),
    }
}

/// A count as `usize::from_str` reads it, or zero when it does not read.
pub open spec fn count_or_zero(s: Seq<char>) -> nat {
    match parse_unsigned(s) {
        Some(n) => if n <= usize::MAX { n } else { 0 },
        None => 0,
    }
}

/// The program's tooltip.
pub open spec fn about_tip() -> Seq<(Seq<char>, Seq<char>)> {
    seq![
        ("\u{25B6} App"@, "STORAGESHOWER"@),
        ("  Version"@, "v"@ + VERSION@),
        ("  Author"@, "MenkeTechnologies"@),
        ("  Config"@, "~/.storageshower.conf"@),
        ("  Desc"@, "Settings auto-saved on change"@),
    ]
}

/// The volume count's tooltip, `visible` of the mounts being shown.
pub open spec fn volumes_tip(app: App, visible: nat) -> Seq<(Seq<char>, Seq<char>)> {
    let total = app.disks@.len();
    seq![
        ("\u{25B6} Volumes"@, decimal(visible) + " visible"@),
        ("  Total"@, decimal(total) + " mounted filesystems"@),
        ("  Hidden"@, decimal((if total >= visible { total - visible } else { 0 }) as nat)),
        ("  Desc"@, "Filtered by show_all/show_local/filter"@),
    ]
}

/// The sort's tooltip.
pub open spec fn sort_tip(app: App) -> Seq<(Seq<char>, Seq<char>)> {
    seq![
        ("\u{25B6} Sort Mode"@, sort_name(app.prefs.sort_mode)),
        ("  Direction"@, if app.prefs.sort_rev { "Descending \u{25BC}"@ } else { "Ascending \u{25B2}"@ }),
        ("  Keys"@, "n=name  u=usage%  s=size"@),
        ("  Reverse"@, "r or press same key again"@),
        ("  Mouse"@, "Click column header to sort"@),
        ("  Config"@, "sort_mode / sort_rev in prefs"@),
    ]
}

/// The refresh rate's tooltip.
pub open spec fn refresh_tip(app: App) -> Seq<(Seq<char>, Seq<char>)> {
    seq![
        ("\u{25B6} Refresh Rate"@, decimal(app.prefs.refresh_rate as nat) + "s"@),
        ("  Desc"@, "How often disk data is re-collected"@),
        ("  Key"@, "f/F to cycle (1\u{2192}2\u{2192}5\u{2192}10)"@),
        ("  Source"@, "Background thread via Arc<Mutex<>>"@),
        ("  Config"@, "refresh_rate in prefs"@),
    ]
}

/// The bar style's tooltip.
pub open spec fn bar_tip(app: App) -> Seq<(Seq<char>, Seq<char>)> {
    seq![
        ("\u{25B6} Bar Style"@, bar_name(app.prefs.bar_style)),
        ("  Options"@, "gradient / solid / thin / ascii"@),
        ("  Key"@, "b to cycle through styles"@),
        ("  Config"@, "bar_style in prefs"@),
    ]
}

/// The uptime's tooltip.
pub open spec fn uptime_tip(host: HostFacts) -> Seq<(Seq<char>, Seq<char>)> {
    seq![
        ("\u{25B6} System Uptime"@, uptime_text(host.uptime as nat)),
        ("  Raw"@, decimal(host.uptime as nat) + " seconds"@),
        ("  Source"@, "sysinfo::System::uptime()"@),
    ]
}

/// A tooltip of two lines.
pub open spec fn pair_tip(a: Seq<char>, b: Seq<char>, c: Seq<char>, d: Seq<char>) -> Seq<(Seq<char>, Seq<char>)> {
    seq![(a, b), (c, d)]
}

/// The local address's tooltip.
pub open spec fn ip_tip(v: Seq<char>) -> Seq<(Seq<char>, Seq<char>)> {
    seq![
        ("\u{25B6} Local IP"@, v),
        ("  Desc"@, "Primary interface address"@),
        ("  Source"@, "UDP socket bind to 8.8.8.8:80"@),
    ]
}

/// The filter's tooltip, while it is typed.
pub open spec fn filter_tip(app: App) -> Seq<(Seq<char>, Seq<char>)> {
    seq![
        ("\u{25B6} Filter Active"@, app.filter.buf@),
        ("  Desc"@, "Case-insensitive mount path substring"@),
        ("  Keys"@, "Enter=confirm  Esc=cancel"@),
        ("  Edit"@, "Ctrl+w=word  Ctrl+u=line  Ctrl+k=end"@),
    ]
}

/// The palette's tooltip.
pub open spec fn theme_tip(app: App) -> Seq<(Seq<char>, Seq<char>)> {
    seq![
        ("\u{25B6} Color Theme"@, theme_label(app)),
        ("  Builtins"@, "30 palettes"@),
        ("  Custom"@, decimal(app.prefs.custom_themes@.len()) + " user themes"@),
        ("  Key"@, "c=cycle  C=theme editor"@),
        ("  CLI"@, "--color, --theme, --export-theme"@),
        ("  Config"@, "color_mode / active_theme in prefs"@),
    ]
}

/// The units' tooltip.
pub open spec fn unit_tip(app: App) -> Seq<(Seq<char>, Seq<char>)> {
    seq![
        ("\u{25B6} Unit Mode"@, unit_name(app.prefs.unit_mode)),
        ("  Options"@, "Human / GiB / MiB / Bytes"@),
        ("  Key"@, "i/I to cycle"@),
        ("  Config"@, "unit_mode in prefs"@),
    ]
}

/// Whether a lowercase footer segment gives the refresh rate: a digit first, `s` last.
pub open spec fn is_rate_segment(low: Seq<char>) -> bool {
    low.len() > 0 && low.last() == 's' && '0' <= low[0] && low[0] <= '9'
}

/// The tooltip of the footer segment `seg`: the program's name, the count of volumes
/// shown, the sort, the refresh rate, the bar style, the uptime, the user, address,
/// system, shell, terminal, battery, disk count, the filter being typed, the palette or
/// the units, by what the segment (in lowercase) says; anything else is shown as it is.
pub open spec fn footer_tooltip(seg: Seq<char>, app: App, host: HostFacts) -> Seq<(Seq<char>, Seq<char>)> {
    let low = lowercase(seg);
    if has_substring(low, "cyberdeck"@) || has_substring(low, "zpwr"@) {
        about_tip()
    } else if starts_with(low, "vol:"@) {
        volumes_tip(app, count_or_zero(drop_leading(seg, "vol:"@)))
    } else if starts_with(low, "sort:"@) {
        sort_tip(app)
    } else if is_rate_segment(low) {
        refresh_tip(app)
    } else if low == "gradient"@ || low == "solid"@ || low == "thin"@ || low == "ascii"@ {
        bar_tip(app)
    } else if starts_with(low, "up:"@) {
        uptime_tip(host)
    } else if starts_with(low, "user:"@) {
        pair_tip("\u{25B6} User"@, drop_leading(seg, "user:"@), "  Source"@, "$USER or $USERNAME env var"@)
    } else if starts_with(low, "ip:"@) {
        ip_tip(drop_leading(seg, "ip:"@))
    } else if starts_with(low, "os:"@) {
        pair_tip("\u{25B6} OS"@, host.os_name@ + " "@ + host.os_version@, "  Source"@, "sysinfo::System::name() + os_version()"@)
    } else if starts_with(low, "sh:"@) {
        pair_tip("\u{25B6} Shell"@, drop_leading(seg, "sh:"@), "  Source"@, "$SHELL environment variable"@)
    } else if starts_with(low, "tty:"@) {
        pair_tip("\u{25B6} TTY"@, drop_leading(seg, "tty:"@), "  Source"@, "libc::ttyname(0) (stdin fd)"@)
    } else if starts_with(low, "bat:"@) {
        pair_tip("\u{25B6} Battery"@, drop_leading(seg, "bat:"@), "  Source"@, "pmset (macOS) or /sys/class/power_supply (Linux)"@)
    } else if starts_with(low, "disks:"@) {
        pair_tip("\u{25B6} Disk Count"@, drop_leading(seg, "disks:"@), "  Desc"@, "Total visible filesystems"@)
    } else if has_substring(low, "filter>"@) {
        filter_tip(app)
    } else if trim(seg) == theme_label(app) {
        theme_tip(app)
    } else if trim(seg) == unit_name(app.prefs.unit_mode) {
        unit_tip(app)
    } else {
        seq![("Info"@, seg)]
    }
}

/// A string holding the characters of `s`.
fn text(s: &str) -> (r: String)
    ensures
        r@ == s@,
{
    let c = str_chars(s);
    string_from_chars(c.as_slice())
}

/// A tooltip line labelled `label`.
fn line(label: &str, value: String) -> (r: (String, String))
    ensures
        r.0@ == label@,
        r.1 == value,
{
    (text(label), value)
}

/// The characters of `s` with every leading `p` dropped (see `drop_leading`).
fn without_leading(s: &[char], p: &str) -> (r: String)
    requires
        p@.len() > 0,
    ensures
        r@ == drop_leading(s@, p@),
{
    let n = p.unicode_len();
    let mut k: usize = 0;
    assert(s@.skip(0) =~= s@);
    loop
        invariant
            n == p@.len(),
            n > 0,
            k <= s@.len(),
            drop_leading(s@, p@) == drop_leading(s@.skip(k as int), p@),
        ensures
            k <= s@.len(),
            drop_leading(s@, p@) == s@.skip(k as int),
        decreases s@.len() - k,
    {
        if s.len() - k < n {
            break;
        }
        let rest = crate::cli::slice_skip(s, k);
        if !starts_with_lit(rest, p) {
            break;
        }
        assert(s@.skip(k as int).skip(n as int) =~= s@.skip(k + n));
        k = k + n;
    }
    let rest = crate::cli::slice_skip(s, k);
    string_from_chars(rest)
}

/// A number followed by `suffix`.
fn counted(n: u64, suffix: &str) -> (r: String)
    ensures
        r@ == decimal(n as nat) + suffix@,
{
    let mut v: Vec<char> = Vec::new();
    push_decimal(&mut v, n);
    push_str(&mut v, suffix);
    assert(v@ =~= decimal(n as nat) + suffix@);
    string_from_chars(v.as_slice())
}

/// The program's tooltip (see `about_tip`).
fn about_lines() -> (r: Vec<(String, String)>)
    ensures
        line_views(r@) == about_tip(),
{
    let mut ver: Vec<char> = Vec::new();
    push_str(&mut ver, "v");
    push_str(&mut ver, VERSION);
    let v = vec![
        line("\u{25B6} App", text("STORAGESHOWER")),
        line("  Version", string_from_chars(ver.as_slice())),
        line("  Author", text("MenkeTechnologies")),
        line("  Config", text("~/.storageshower.conf")),
        line("  Desc", text("Settings auto-saved on change")),
    ];
    assert(line_views(v@) =~= about_tip());
    v
}

/// The volume count's tooltip (see `volumes_tip`).
fn volumes_lines(app: &App, visible: u64) -> (r: Vec<(String, String)>)
    ensures
        line_views(r@) == volumes_tip(*app, visible as nat),
{
    let total = app.disks.len() as u64;
    let hidden: u64 = if total >= visible { total - visible } else { 0 };
    let v = vec![
        line("\u{25B6} Volumes", counted(visible, " visible")),
        line("  Total", counted(total, " mounted filesystems")),
        line("  Hidden", counted(hidden, "")),
        line("  Desc", text("Filtered by show_all/show_local/filter")),
    ];
    proof {
        reveal_strlit("");
    }
    assert(line_views(v@) =~= volumes_tip(*app, visible as nat));
    v
}

/// The sort's tooltip (see `sort_tip`).
fn sort_lines(app: &App) -> (r: Vec<(String, String)>)
    ensures
        line_views(r@) == sort_tip(*app),
{
    let name = match app.prefs.sort_mode {
        SortMode::Name => text("Name"),
        SortMode::Pct => text("Pct"),
        SortMode::Size => text("Size"),
    };
    let dir = if app.prefs.sort_rev { text("Descending \u{25BC}") } else { text("Ascending \u{25B2}") };
    let v = vec![
        line("\u{25B6} Sort Mode", name),
        line("  Direction", dir),
        line("  Keys", text("n=name  u=usage%  s=size")),
        line("  Reverse", text("r or press same key again")),
        line("  Mouse", text("Click column header to sort")),
        line("  Config", text("sort_mode / sort_rev in prefs")),
    ];
    assert(line_views(v@) =~= sort_tip(*app));
    v
}

/// The refresh rate's tooltip (see `refresh_tip`).
fn refresh_lines(app: &App) -> (r: Vec<(String, String)>)
    ensures
        line_views(r@) == refresh_tip(*app),
{
    let v = vec![
        line("\u{25B6} Refresh Rate", counted(app.prefs.refresh_rate, "s")),
        line("  Desc", text("How often disk data is re-collected")),
        line("  Key", text("f/F to cycle (1\u{2192}2\u{2192}5\u{2192}10)")),
        line("  Source", text("Background thread via Arc<Mutex<>>")),
        line("  Config", text("refresh_rate in prefs")),
    ];
    assert(line_views(v@) =~= refresh_tip(*app));
    v
}

/// The bar style's tooltip (see `bar_tip`).
fn bar_lines(app: &App) -> (r: Vec<(String, String)>)
    ensures
        line_views(r@) == bar_tip(*app),
{
    let name = match app.prefs.bar_style {
        BarStyle::Gradient => text("Gradient"),
        BarStyle::Solid => text("Solid"),
        BarStyle::Thin => text("Thin"),
        BarStyle::Ascii => text("Ascii"),
    };
    let v = vec![
        line("\u{25B6} Bar Style", name),
        line("  Options", text("gradient / solid / thin / ascii")),
        line("  Key", text("b to cycle through styles")),
        line("  Config", text("bar_style in prefs")),
    ];
    assert(line_views(v@) =~= bar_tip(*app));
    v
}

/// The uptime's tooltip (see `uptime_tip`).
fn uptime_lines(host: &HostFacts) -> (r: Vec<(String, String)>)
    ensures
        line_views(r@) == uptime_tip(*host),
{
    let v = vec![
        line("\u{25B6} System Uptime", format_uptime(host.uptime)),
        line("  Raw", counted(host.uptime, " seconds")),
        line("  Source", text("sysinfo::System::uptime()")),
    ];
    assert(line_views(v@) =~= uptime_tip(*host));
    v
}

/// A tooltip of two lines (see `pair_tip`).
fn pair_lines(a: &str, b: String, c: &str, d: &str) -> (r: Vec<(String, String)>)
    ensures
        line_views(r@) == pair_tip(a@, b@, c@, d@),
{
    let v = vec![line(a, b), line(c, text(d))];
    assert(line_views(v@) =~= pair_tip(a@, b@, c@, d@));
    v
}

/// The local address's tooltip (see `ip_tip`).
fn ip_lines(value: String) -> (r: Vec<(String, String)>)
    ensures
        line_views(r@) == ip_tip(value@),
{
    let v = vec![
        line("\u{25B6} Local IP", value),
        line("  Desc", text("Primary interface address")),
        line("  Source", text("UDP socket bind to 8.8.8.8:80")),
    ];
    assert(line_views(v@) =~= ip_tip(v@[0].1@));
    v
}

/// The filter's tooltip (see `filter_tip`).
fn filter_lines(app: &App) -> (r: Vec<(String, String)>)
    ensures
        line_views(r@) == filter_tip(*app),
{
    let v = vec![
        line("\u{25B6} Filter Active", string_from_chars(app.filter.buf.as_slice())),
        line("  Desc", text("Case-insensitive mount path substring")),
        line("  Keys", text("Enter=confirm  Esc=cancel")),
        line("  Edit", text("Ctrl+w=word  Ctrl+u=line  Ctrl+k=end")),
    ];
    assert(line_views(v@) =~= filter_tip(*app));
    v
}

/// The name of the palette in force (see `theme_label`).
fn theme_label_of(app: &App) -> (r: Vec<char>)
    ensures
        r@ == theme_label(*app),
{
    match &app.prefs.active_theme {
        Some(n) => str_chars(n.as_str()),
        None => str_chars(app.prefs.color_mode.name()),
    }
}

/// The palette's tooltip (see `theme_tip`).
fn theme_lines(app: &App, label: &Vec<char>) -> (r: Vec<(String, String)>)
    requires
        label@ == theme_label(*app),
    ensures
        line_views(r@) == theme_tip(*app),
{
    let v = vec![
        line("\u{25B6} Color Theme", string_from_chars(label.as_slice())),
        line("  Builtins", text("30 palettes")),
        line("  Custom", counted(app.prefs.custom_themes.len() as u64, " user themes")),
        line("  Key", text("c=cycle  C=theme editor")),
        line("  CLI", text("--color, --theme, --export-theme")),
        line("  Config", text("color_mode / active_theme in prefs")),
    ];
    assert(line_views(v@) =~= theme_tip(*app));
    v
}

/// The name of the units in force (see `unit_name`).
fn unit_name_of(u: UnitMode) -> (r: &'static str)
    ensures
        r@ == unit_name(u),
{
    match u {
        UnitMode::Human => "human",
        UnitMode::GiB => "GiB",
        UnitMode::MiB => "MiB",
        UnitMode::Bytes => "bytes",
    }
}

/// The units' tooltip (see `unit_tip`).
fn unit_lines(app: &App) -> (r: Vec<(String, String)>)
    ensures
        line_views(r@) == unit_tip(*app),
{
    let v = vec![
        line("\u{25B6} Unit Mode", text(unit_name_of(app.prefs.unit_mode))),
        line("  Options", text("Human / GiB / MiB / Bytes")),
        line("  Key", text("i/I to cycle")),
        line("  Config", text("unit_mode in prefs")),
    ];
    assert(line_views(v@) =~= unit_tip(*app));
    v
}

/// A count as `usize::from_str` reads it, or zero (see `count_or_zero`).
fn count_of(s: &[char]) -> (r: u64)
    ensures
        r as nat == count_or_zero(s@),
{
    match parse_unsigned_exec(s) {
        Some(n) => if n as u128 <= usize::MAX as u128 { n } else { 0 },
        None => 0,
    }
}

/// Whether `hay` contains the characters of `pat`.
fn has_text(hay: &Vec<char>, pat: &str) -> (r: bool)
    ensures
        r == has_substring(hay@, pat@),
{
    let p = str_chars(pat);
    crate::text::contains_chars(hay.as_slice(), p.as_slice())
}

/// Whether two character sequences are the same.
fn same_chars(a: &[char], b: &[char]) -> (r: bool)
    ensures
        r == (a@ == b@),
{
    if a.len() != b.len() {
        return false;
    }
    let mut i: usize = 0;
    while i < a.len()
        invariant
            a@.len() == b@.len(),
            i <= a@.len(),
            forall|j: int| 0 <= j < i ==> a@[j] == b@[j],
        decreases a@.len() - i,
    {
        if a[i] != b[i] {
            return false;
        }
        i = i + 1;
    }
    assert(a@ =~= b@);
    true
}

/// The tooltip of a footer segment that names the palette, the units, or nothing known
/// (the last branches of `footer_tooltip`).
fn footer_rest(seg: &Vec<char>, app: &App) -> (r: Vec<(String, String)>)
    ensures
        line_views(r@) == if trim(seg@) == theme_label(*app) {
            theme_tip(*app)
        } else if trim(seg@) == unit_name(app.prefs.unit_mode) {
            unit_tip(*app)
        } else {
            seq![("Info"@, seg@)]
        },
{
    let t = trim_chars(seg);
    let label = theme_label_of(app);
    if same_chars(t.as_slice(), label.as_slice()) {
        return theme_lines(app, &label);
    }
    if chars_eq(t.as_slice(), unit_name_of(app.prefs.unit_mode)) {
        return unit_lines(app);
    }
    let v = vec![line("Info", string_from_chars(seg.as_slice()))];
    assert(line_views(v@) =~= seq![("Info"@, seg@)]);
    v
}

/// The tooltip of a footer segment whose lowercase form is `low` and that names none
/// of the first five kinds of segment (the middle branches of `footer_tooltip`).
fn footer_fields(seg: &Vec<char>, low: &Vec<char>, app: &App, host: &HostFacts) -> (r: Vec<(String, String)>)
    ensures
        line_views(r@) == if starts_with(low@, "up:"@) {
            uptime_tip(*host)
        } else if starts_with(low@, "user:"@) {
            pair_tip("\u{25B6} User"@, drop_leading(seg@, "user:"@), "  Source"@, "$USER or $USERNAME env var"@)
        } else if starts_with(low@, "ip:"@) {
            ip_tip(drop_leading(seg@, "ip:"@))
        } else if starts_with(low@, "os:"@) {
            pair_tip("\u{25B6} OS"@, host.os_name@ + " "@ + host.os_version@, "  Source"@, "sysinfo::System::name() + os_version()"@)
        } else if starts_with(low@, "sh:"@) {
            pair_tip("\u{25B6} Shell"@, drop_leading(seg@, "sh:"@), "  Source"@, "$SHELL environment variable"@)
        } else if starts_with(low@, "tty:"@) {
            pair_tip("\u{25B6} TTY"@, drop_leading(seg@, "tty:"@), "  Source"@, "libc::ttyname(0) (stdin fd)"@)
        } else if starts_with(low@, "bat:"@) {
            pair_tip("\u{25B6} Battery"@, drop_leading(seg@, "bat:"@), "  Source"@, "pmset (macOS) or /sys/class/power_supply (Linux)"@)
        } else if starts_with(low@, "disks:"@) {
            pair_tip("\u{25B6} Disk Count"@, drop_leading(seg@, "disks:"@), "  Desc"@, "Total visible filesystems"@)
        } else if has_substring(low@, "filter>"@) {
            filter_tip(*app)
        } else if trim(seg@) == theme_label(*app) {
            theme_tip(*app)
        } else if trim(seg@) == unit_name(app.prefs.unit_mode) {
            unit_tip(*app)
        } else {
            seq![("Info"@, seg@)]
        },
{
    proof {
        reveal_strlit("user:");
        reveal_strlit("ip:");
        reveal_strlit("sh:");
        reveal_strlit("tty:");
        reveal_strlit("bat:");
        reveal_strlit("disks:");
    }
    if starts_with_lit(low.as_slice(), "up:") {
        return uptime_lines(host);
    }
    if starts_with_lit(low.as_slice(), "user:") {
        return pair_lines("\u{25B6} User", without_leading(seg.as_slice(), "user:"), "  Source", "$USER or $USERNAME env var");
    }
    if starts_with_lit(low.as_slice(), "ip:") {
        return ip_lines(without_leading(seg.as_slice(), "ip:"));
    }
    if starts_with_lit(low.as_slice(), "os:") {
        let mut os: Vec<char> = Vec::new();
        push_str(&mut os, host.os_name.as_str());
        push_str(&mut os, " ");
        push_str(&mut os, host.os_version.as_str());
        return pair_lines("\u{25B6} OS", string_from_chars(os.as_slice()), "  Source", "sysinfo::System::name() + os_version()");
    }
    if starts_with_lit(low.as_slice(), "sh:") {
        return pair_lines("\u{25B6} Shell", without_leading(seg.as_slice(), "sh:"), "  Source", "$SHELL environment variable");
    }
    if starts_with_lit(low.as_slice(), "tty:") {
        return pair_lines("\u{25B6} TTY", without_leading(seg.as_slice(), "tty:"), "  Source", "libc::ttyname(0) (stdin fd)");
    }
    if starts_with_lit(low.as_slice(), "bat:") {
        return pair_lines("\u{25B6} Battery", without_leading(seg.as_slice(), "bat:"), "  Source", "pmset (macOS) or /sys/class/power_supply (Linux)");
    }
    if starts_with_lit(low.as_slice(), "disks:") {
        return pair_lines("\u{25B6} Disk Count", without_leading(seg.as_slice(), "disks:"), "  Desc", "Total visible filesystems");
    }
    if has_text(low, "filter>") {
        return filter_lines(app);
    }
    footer_rest(seg, app)
}

/// The tooltip of a footer segment (see `footer_tooltip`).
pub fn footer_segment_tooltip(segment: &str, app: &App, host: &HostFacts) -> (r: Vec<(String, String)>)
    ensures
        line_views(r@) == footer_tooltip(segment@, *app, *host),
{
    proof {
        reveal_strlit("vol:");
    }
    let low_s = to_lowercase(segment);
    let low = str_chars(low_s.as_str());
    let seg = str_chars(segment);
    if has_text(&low, "cyberdeck") || has_text(&low, "zpwr") {
        return about_lines();
    }
    if starts_with_lit(low.as_slice(), "vol:") {
        let rest = without_leading(seg.as_slice(), "vol:");
        let rc = str_chars(rest.as_str());
        return volumes_lines(app, count_of(rc.as_slice()));
    }
    if starts_with_lit(low.as_slice(), "sort:") {
        return sort_lines(app);
    }
    let n = low.len();
    if n > 0 && low[n - 1] == 's' && '0' <= low[0] && low[0] <= '9' {
        return refresh_lines(app);
    }
    if chars_eq(low.as_slice(), "gradient") || chars_eq(low.as_slice(), "solid") || chars_eq(low.as_slice(), "thin")
        || chars_eq(low.as_slice(), "ascii") {
        return bar_lines(app);
    }
    footer_fields(&seg, &low, app, host)
}

// ─── The title bar ──────────────────────────────────────────────────────────

/// The program's tooltip in the title bar.
pub open spec fn banner_tip() -> Seq<(Seq<char>, Seq<char>)> {
    seq![
        ("\u{25B6} App"@, "STORAGESHOWER"@),
        ("  Version"@, "v"@ + VERSION@),
        ("  Desc"@, "Cyberpunk disk usage TUI monitor"@),
        ("  Author"@, "MenkeTechnologies"@),
        ("  Repo"@, "github.com/MenkeTechnologies/storageshower"@),
        ("  License"@, "MIT"@),
        ("  Install"@, "cargo install storageshower"@),
    ]
}

/// The host's tooltip.
pub open spec fn node_tip(host: HostFacts) -> Seq<(Seq<char>, Seq<char>)> {
    seq![
        ("\u{25B6} Hostname"@, host.hostname@),
        ("  OS"@, host.os_name@ + " "@ + host.os_version@),
        ("  Kernel"@, host.kernel@),
        ("  Arch"@, host.arch@),
        ("  Source"@, "sysinfo::System::host_name()"@),
    ]
}

/// The clock's tooltip, for a reading rendered as `clock`.
pub open spec fn clock_tip(clock: (Seq<char>, Seq<char>)) -> Seq<(Seq<char>, Seq<char>)> {
    seq![("\u{25B6} Date"@, clock.0), ("  Time"@, clock.1), ("  Source"@, "libc::localtime_r (UNIX epoch)"@)]
}

/// The load's tooltip.
pub open spec fn load_tip(host: HostFacts) -> Seq<(Seq<char>, Seq<char>)> {
    seq![
        ("\u{25B6} Load Average"@, Seq::empty()),
        ("  1 min"@, host.load_texts.0@),
        ("  5 min"@, host.load_texts.1@),
        ("  15 min"@, host.load_texts.2@),
        ("  Desc"@, "Average runnable+uninterruptible processes"@),
        ("  Source"@, "sysinfo::System::load_average()"@),
    ]
}

/// The memory's tooltip.
pub open spec fn memory_tip(host: HostFacts) -> Seq<(Seq<char>, Seq<char>)> {
    let free = if host.mem_total >= host.mem_used { host.mem_total - host.mem_used } else { 0 };
    seq![
        ("\u{25B6} Memory"@, Seq::empty()),
        ("  Used"@, bytes_text(host.mem_used as nat, UnitMode::Human)),
        ("  Free"@, bytes_text(free as nat, UnitMode::Human)),
        ("  Total"@, bytes_text(host.mem_total as nat, UnitMode::Human)),
        ("  Usage"@, host.mem_pct_text@ + "%"@),
        ("  Source"@, "sysinfo::System::used_memory()"@),
    ]
}

/// The swap's tooltip.
pub open spec fn swap_tip(host: HostFacts) -> Seq<(Seq<char>, Seq<char>)> {
    let free = if host.swap_total >= host.swap_used { host.swap_total - host.swap_used } else { 0 };
    seq![
        ("\u{25B6} Swap"@, Seq::empty()),
        ("  Used"@, bytes_text(host.swap_used as nat, UnitMode::Human)),
        ("  Free"@, bytes_text(free as nat, UnitMode::Human)),
        ("  Total"@, bytes_text(host.swap_total as nat, UnitMode::Human)),
        ("  Source"@, "sysinfo::System::used_swap()"@),
    ]
}

/// A tooltip of three lines.
pub open spec fn triple_tip(
    a: Seq<char>,
    b: Seq<char>,
    c: Seq<char>,
    d: Seq<char>,
    e: Seq<char>,
    f: Seq<char>,
) -> Seq<(Seq<char>, Seq<char>)> {
    seq![(a, b), (c, d), (e, f)]
}

/// The tooltip of the title segment `seg` when the clock reads `clock`: the program,
/// the host, the clock, the load, memory, processors, processes, swap, kernel,
/// architecture, the pause or the help hint, by what the segment (in lowercase) says;
/// anything else is shown as it is.
pub open spec fn title_tooltip(
    seg: Seq<char>,
    host: HostFacts,
    clock: (Seq<char>, Seq<char>),
) -> Seq<(Seq<char>, Seq<char>)> {
    let low = lowercase(seg);
    if has_substring(low, "disk matrix"@) {
        banner_tip()
    } else if starts_with(low, "node:"@) {
        node_tip(host)
    } else if starts_with(low, "date:"@) || starts_with(low, "clock:"@) {
        clock_tip(clock)
    } else if starts_with(low, "load:"@) {
        load_tip(host)
    } else if starts_with(low, "mem:"@) {
        memory_tip(host)
    } else if starts_with(low, "cpu:"@) {
        triple_tip(
            "\u{25B6} CPU"@,
            Seq::empty(),
            "  Cores"@,
            decimal(host.cpu_count as nat) + " logical"@,
            "  Source"@,
            "sysinfo::System::cpus().len()"@,
        )
    } else if starts_with(low, "procs:"@) {
        triple_tip(
            "\u{25B6} Processes"@,
            decimal(host.process_count as nat),
            "  Desc"@,
            "Total running system processes"@,
            "  Source"@,
            "sysinfo::System::processes().len()"@,
        )
    } else if starts_with(low, "swap:"@) {
        swap_tip(host)
    } else if starts_with(low, "kern:"@) {
        pair_tip("\u{25B6} Kernel"@, host.kernel@, "  Source"@, "sysinfo::System::kernel_version()"@)
    } else if starts_with(low, "arch:"@) {
        pair_tip("\u{25B6} Architecture"@, host.arch@, "  Source"@, "sysinfo::System::cpu_arch()"@)
    } else if has_substring(low, "paused"@) {
        triple_tip(
            "\u{25B6} \u{23F8} PAUSED"@,
            Seq::empty(),
            "  Desc"@,
            "Data refresh is paused"@,
            "  Resume"@,
            "Press p to resume live data"@,
        )
    } else if has_substring(low, "h=help"@) {
        triple_tip(
            "\u{25B6} Help"@,
            Seq::empty(),
            "  Open"@,
            "Press h / H / ? to show keybinds"@,
            "  Close"@,
            "Same keys or Esc to dismiss"@,
        )
    } else {
        seq![("\u{25B6} Info"@, seg)]
    }
}

/// A tooltip of three lines (see `triple_tip`).
fn triple_lines(a: &str, b: String, c: &str, d: String, e: &str, f: &str) -> (r: Vec<(String, String)>)
    ensures
        line_views(r@) == triple_tip(a@, b@, c@, d@, e@, f@),
{
    let v = vec![line(a, b), line(c, d), line(e, text(f))];
    assert(line_views(v@) =~= triple_tip(a@, v@[0].1@, c@, v@[1].1@, e@, f@));
    v
}

/// The program's tooltip in the title bar (see `banner_tip`).
fn banner_lines() -> (r: Vec<(String, String)>)
    ensures
        line_views(r@) == banner_tip(),
{
    let mut ver: Vec<char> = Vec::new();
    push_str(&mut ver, "v");
    push_str(&mut ver, VERSION);
    let v = vec![
        line("\u{25B6} App", text("STORAGESHOWER")),
        line("  Version", string_from_chars(ver.as_slice())),
        line("  Desc", text("Cyberpunk disk usage TUI monitor")),
        line("  Author", text("MenkeTechnologies")),
        line("  Repo", text("github.com/MenkeTechnologies/storageshower")),
        line("  License", text("MIT")),
        line("  Install", text("cargo install storageshower")),
    ];
    assert(line_views(v@) =~= banner_tip());
    v
}

/// A copy of a string.
fn copy(s: &String) -> (r: String)
    ensures
        r@ == s@,
{
    text(s.as_str())
}

/// The host's tooltip (see `node_tip`).
fn node_lines(host: &HostFacts) -> (r: Vec<(String, String)>)
    ensures
        line_views(r@) == node_tip(*host),
{
    let mut os: Vec<char> = Vec::new();
    push_str(&mut os, host.os_name.as_str());
    push_str(&mut os, " ");
    push_str(&mut os, host.os_version.as_str());
    let v = vec![
        line("\u{25B6} Hostname", copy(&host.hostname)),
        line("  OS", string_from_chars(os.as_slice())),
        line("  Kernel", copy(&host.kernel)),
        line("  Arch", copy(&host.arch)),
        line("  Source", text("sysinfo::System::host_name()")),
    ];
    assert(line_views(v@) =~= node_tip(*host));
    v
}

/// The clock's tooltip (see `clock_tip`).
fn clock_lines(clock: &(String, String)) -> (r: Vec<(String, String)>)
    ensures
        line_views(r@) == clock_tip((clock.0@, clock.1@)),
{
    let v = vec![
        line("\u{25B6} Date", copy(&clock.0)),
        line("  Time", copy(&clock.1)),
        line("  Source", text("libc::localtime_r (UNIX epoch)")),
    ];
    assert(line_views(v@) =~= clock_tip((clock.0@, clock.1@)));
    v
}

/// The load's tooltip (see `load_tip`).
fn load_lines(host: &HostFacts) -> (r: Vec<(String, String)>)
    ensures
        line_views(r@) == load_tip(*host),
{
    let v = vec![
        line("\u{25B6} Load Average", String::new()),
        line("  1 min", copy(&host.load_texts.0)),
        line("  5 min", copy(&host.load_texts.1)),
        line("  15 min", copy(&host.load_texts.2)),
        line("  Desc", text("Average runnable+uninterruptible processes")),
        line("  Source", text("sysinfo::System::load_average()")),
    ];
    assert(line_views(v@) =~= load_tip(*host));
    v
}

/// The memory's tooltip (see `memory_tip`).
fn memory_lines(host: &HostFacts) -> (r: Vec<(String, String)>)
    ensures
        line_views(r@) == memory_tip(*host),
{
    let free: u64 = if host.mem_total >= host.mem_used { host.mem_total - host.mem_used } else { 0 };
    let mut pct: Vec<char> = Vec::new();
    push_str(&mut pct, host.mem_pct_text.as_str());
    push_str(&mut pct, "%");
    let v = vec![
        line("\u{25B6} Memory", String::new()),
        line("  Used", format_bytes(host.mem_used, UnitMode::Human)),
        line("  Free", format_bytes(free, UnitMode::Human)),
        line("  Total", format_bytes(host.mem_total, UnitMode::Human)),
        line("  Usage", string_from_chars(pct.as_slice())),
        line("  Source", text("sysinfo::System::used_memory()")),
    ];
    assert(line_views(v@) =~= memory_tip(*host));
    v
}

/// The swap's tooltip (see `swap_tip`).
fn swap_lines(host: &HostFacts) -> (r: Vec<(String, String)>)
    ensures
        line_views(r@) == swap_tip(*host),
{
    let free: u64 = if host.swap_total >= host.swap_used { host.swap_total - host.swap_used } else { 0 };
    let v = vec![
        line("\u{25B6} Swap", String::new()),
        line("  Used", format_bytes(host.swap_used, UnitMode::Human)),
        line("  Free", format_bytes(free, UnitMode::Human)),
        line("  Total", format_bytes(host.swap_total, UnitMode::Human)),
        line("  Source", text("sysinfo::System::used_swap()")),
    ];
    assert(line_views(v@) =~= swap_tip(*host));
    v
}

/// The tooltip of a title segment that names none of the first five kinds (the later
/// branches of `title_tooltip`).
fn title_rest(seg: &Vec<char>, low: &Vec<char>, host: &HostFacts) -> (r: Vec<(String, String)>)
    ensures
        line_views(r@) == if starts_with(low@, "cpu:"@) {
            triple_tip(
                "\u{25B6} CPU"@,
                Seq::empty(),
                "  Cores"@,
                decimal(host.cpu_count as nat) + " logical"@,
                "  Source"@,
                "sysinfo::System::cpus().len()"@,
            )
        } else if starts_with(low@, "procs:"@) {
            triple_tip(
                "\u{25B6} Processes"@,
                decimal(host.process_count as nat),
                "  Desc"@,
                "Total running system processes"@,
                "  Source"@,
                "sysinfo::System::processes().len()"@,
            )
        } else if starts_with(low@, "swap:"@) {
            swap_tip(*host)
        } else if starts_with(low@, "kern:"@) {
            pair_tip("\u{25B6} Kernel"@, host.kernel@, "  Source"@, "sysinfo::System::kernel_version()"@)
        } else if starts_with(low@, "arch:"@) {
            pair_tip("\u{25B6} Architecture"@, host.arch@, "  Source"@, "sysinfo::System::cpu_arch()"@)
        } else if has_substring(low@, "paused"@) {
            triple_tip(
                "\u{25B6} \u{23F8} PAUSED"@,
                Seq::empty(),
                "  Desc"@,
                "Data refresh is paused"@,
                "  Resume"@,
                "Press p to resume live data"@,
            )
        } else if has_substring(low@, "h=help"@) {
            triple_tip(
                "\u{25B6} Help"@,
                Seq::empty(),
                "  Open"@,
                "Press h / H / ? to show keybinds"@,
                "  Close"@,
                "Same keys or Esc to dismiss"@,
            )
        } else {
            seq![("\u{25B6} Info"@, seg@)]
        },
{
    proof {
        reveal_strlit("");
    }
    if starts_with_lit(low.as_slice(), "cpu:") {
        return triple_lines("\u{25B6} CPU", String::new(), "  Cores", counted(host.cpu_count, " logical"), "  Source", "sysinfo::System::cpus().len()");
    }
    if starts_with_lit(low.as_slice(), "procs:") {
        return triple_lines("\u{25B6} Processes", counted(host.process_count, ""), "  Desc", text("Total running system processes"), "  Source", "sysinfo::System::processes().len()");
    }
    if starts_with_lit(low.as_slice(), "swap:") {
        return swap_lines(host);
    }
    if starts_with_lit(low.as_slice(), "kern:") {
        return pair_lines("\u{25B6} Kernel", copy(&host.kernel), "  Source", "sysinfo::System::kernel_version()");
    }
    if starts_with_lit(low.as_slice(), "arch:") {
        return pair_lines("\u{25B6} Architecture", copy(&host.arch), "  Source", "sysinfo::System::cpu_arch()");
    }
    if has_text(low, "paused") {
        return triple_lines("\u{25B6} \u{23F8} PAUSED", String::new(), "  Desc", text("Data refresh is paused"), "  Resume", "Press p to resume live data");
    }
    if has_text(low, "h=help") {
        return triple_lines("\u{25B6} Help", String::new(), "  Open", text("Press h / H / ? to show keybinds"), "  Close", "Same keys or Esc to dismiss");
    }
    let v = vec![line("\u{25B6} Info", string_from_chars(seg.as_slice()))];
    assert(line_views(v@) =~= seq![("\u{25B6} Info"@, seg@)]);
    v
}

/// The tooltip of a title segment when the clock reads `clock` (see `title_tooltip`).
pub fn title_tooltip_at(segment: &str, host: &HostFacts, clock: &(String, String)) -> (r: Vec<(String, String)>)
    ensures
        line_views(r@) == title_tooltip(segment@, *host, (clock.0@, clock.1@)),
{
    let low_s = to_lowercase(segment);
    let low = str_chars(low_s.as_str());
    let seg = str_chars(segment);
    if has_text(&low, "disk matrix") {
        return banner_lines();
    }
    if starts_with_lit(low.as_slice(), "node:") {
        return node_lines(host);
    }
    if starts_with_lit(low.as_slice(), "date:") || starts_with_lit(low.as_slice(), "clock:") {
        return clock_lines(clock);
    }
    if starts_with_lit(low.as_slice(), "load:") {
        return load_lines(host);
    }
    if starts_with_lit(low.as_slice(), "mem:") {
        return memory_lines(host);
    }
    title_rest(&seg, &low, host)
}

/// The tooltip of a title segment, the clock read now (see `title_tooltip` and
/// `chrono_now`).
pub fn title_segment_tooltip(segment: &str, host: &HostFacts) -> (r: Vec<(String, String)>)
    ensures
        exists|secs: u64| line_views(r@) == title_tooltip(segment@, *host, reading_text(secs)),
{
    let clock = chrono_now();
    title_tooltip_at(segment, host, &clock)
}

// ─── Finding the segment under the mouse ────────────────────────────────────

/// The piece under column `rel` of a bar whose pieces `ps` start at column `pos`, each
/// taking its characters and one column for the separator after it; past the end, the
/// last piece.
pub open spec fn piece_under(ps: Seq<Seq<char>>, rel: int, pos: int) -> Seq<char>
    decreases ps.len(),
{
    if ps.len() == 0 {
        Seq::empty()
    } else if ps.len() == 1 || rel < pos + ps[0].len() + 1 {
        ps[0]
    } else {
        piece_under(ps.drop_first(), rel, pos + ps[0].len() + 1)
    }
}

/// The segment of a bar rendered as `rendered` from column `start` that lies under
/// column `x`, without its surrounding white space; the bar's segments are separated
/// by `│`.
pub open spec fn segment_under(rendered: Seq<char>, x: int, start: int) -> Seq<char> {
    trim(piece_under(split_at_char(rendered, '\u{2502}'), if x >= start { x - start } else { 0 }, 0))
}

/// The segment of a bar under column `x` (see `segment_under`).
pub fn segment_at_x(rendered: &str, hover_x: u16, bar_start_x: u16) -> (r: String)
    ensures
        r@ == segment_under(rendered@, hover_x as int, bar_start_x as int),
{
    let rel: u64 = if hover_x >= bar_start_x { (hover_x - bar_start_x) as u64 } else { 0 };
    let c = str_chars(rendered);
    let pieces = split_chars(c.as_slice(), '\u{2502}');
    let ghost ps = pieces@.map_values(|p: Vec<char>| p@);
    assert(ps == split_at_char(rendered@, '\u{2502}'));
    let mut k: usize = 0;
    let mut pos: u64 = 0;
    assert(ps.skip(0) =~= ps);
    loop
        invariant
            ps == pieces@.map_values(|p: Vec<char>| p@),
            pieces@.len() >= 1,
            k < pieces@.len(),
            pos <= rel,
            piece_under(ps, rel as int, 0) == piece_under(ps.skip(k as int), rel as int, pos as int),
        ensures
            k < pieces@.len(),
            piece_under(ps, rel as int, 0) == pieces@[k as int]@,
        decreases pieces@.len() - k,
    {
        assert(ps.skip(k as int)[0] == pieces@[k as int]@);
        if k == pieces.len() - 1 {
            break;
        }
        let len = pieces[k].len() as u64;
        if rel - pos <= len {
            break;
        }
        assert(ps.skip(k as int).drop_first() =~= ps.skip(k + 1));
        pos = pos + len + 1;
        k = k + 1;
    }
    let t = trim_chars(&pieces[k]);
    string_from_chars(t.as_slice())
}

} // verus!
