//! User preferences, as persisted in the configuration file.
use vstd::prelude::*;
use crate::types::{BarStyle, ColorMode, SortMode, ThemeColors, UnitMode};

verus! {

/// Every persisted setting.
///
/// `custom_themes` holds the user's named palettes, at most one entry per name.
#[derive(Clone, Debug)]
pub struct Prefs {
    pub sort_mode: SortMode,
    pub sort_rev: bool,
    pub show_local: bool,
    pub refresh_rate: u64,
    pub bar_style: BarStyle,
    pub color_mode: ColorMode,
    pub thresh_warn: u8,
    pub thresh_crit: u8,
    pub show_bars: bool,
    pub show_border: bool,
    pub show_header: bool,
    pub compact: bool,
    pub show_used: bool,
    pub full_mount: bool,
    pub show_all: bool,
    pub unit_mode: UnitMode,
    pub col_mount_w: u16,
    pub col_bar_end_w: u16,
    pub col_pct_w: u16,
    pub custom_themes: Vec<(String, ThemeColors)>,
    pub active_theme: Option<String>,
    pub show_tooltips: bool,
    pub bookmarks: Vec<String>,
}

/// No two custom themes share a name.
#[verifier::opaque]
pub open spec fn themes_wf(themes: Seq<(String, ThemeColors)>) -> bool {
    forall|i: int, j: int|
        0 <= i < themes.len() && 0 <= j < themes.len() && i != j ==> #[trigger] themes[i].0@
            != #[trigger] themes[j].0@
}

/// The custom themes as a map from name to colors.
pub open spec fn themes_map(themes: Seq<(String, ThemeColors)>) -> Map<Seq<char>, ThemeColors>
    decreases themes.len(),
{
    if themes.len() == 0 {
        Map::empty()
    } else {
        themes_map(themes.drop_last()).insert(themes.last().0@, themes.last().1)
    }
}

/// Value of a setting that defaults to on when the file leaves it out.
pub fn default_true() -> (r: bool)
    ensures
        r,
{
    true
}

impl Prefs {
    /// The settings before any file or flag changed them.
    pub open spec fn is_default(&self) -> bool {
        &&& self.sort_mode == SortMode::Name
        &&& !self.sort_rev
        &&& !self.show_local
        &&& self.refresh_rate == 1
        &&& self.bar_style == BarStyle::Gradient
        &&& self.color_mode == ColorMode::Default
        &&& self.thresh_warn == 70
        &&& self.thresh_crit == 90
        &&& self.show_bars
        &&& self.show_border
        &&& self.show_header
        &&& !self.compact
        &&& self.show_used
        &&& !self.full_mount
        &&& self.show_all
        &&& self.unit_mode == UnitMode::Human
        &&& self.col_mount_w == 0
        &&& self.col_bar_end_w == 0
        &&& self.col_pct_w == 0
        &&& self.custom_themes@.len() == 0
        &&& self.active_theme is None
        &&& self.show_tooltips
        &&& self.bookmarks@.len() == 0
    }

    /// Whether the custom-theme table is well formed.
    pub open spec fn wf(&self) -> bool {
        themes_wf(self.custom_themes@)
    }
}

impl Default for Prefs {
    fn default() -> (r: Prefs)
        ensures
            r.is_default(),
            r.wf(),
    {
        reveal(themes_wf);
        Prefs {
            sort_mode: SortMode::Name,
            sort_rev: false,
            show_local: false,
            refresh_rate: 1,
            bar_style: BarStyle::Gradient,
            color_mode: ColorMode::Default,
            thresh_warn: 70,
            thresh_crit: 90,
            show_bars: true,
            show_border: true,
            show_header: true,
            compact: false,
            show_used: true,
            full_mount: false,
            show_all: true,
            unit_mode: UnitMode::Human,
            col_mount_w: 0,
            col_bar_end_w: 0,
            col_pct_w: 0,
            custom_themes: Vec::new(),
            active_theme: None,
            show_tooltips: true,
            bookmarks: Vec::new(),
        }
    }
}

/// The preferences that loading the configuration file yields: what the file parsed
/// to, or the defaults when it could not be read or parsed.
pub fn load_prefs(parsed: Option<Prefs>) -> (r: Prefs)
    requires
        parsed matches Some(p) ==> p.wf(),
    ensures
        r.wf(),
        match parsed {
            Some(p) => r == p,
            None => r.is_default(),
        },
{
    match parsed {
        Some(p) => p,
        None => Prefs::default(),
    }
}

/// Whether no two custom themes share a name (see `themes_wf`).
pub fn themes_unique(themes: &Vec<(String, ThemeColors)>) -> (r: bool)
    ensures
        r == themes_wf(themes@),
{
    reveal(themes_wf);
    let n = themes.len();
    let mut i: usize = 0;
    while i < n
        invariant
            n == themes@.len(),
            i <= n,
            forall|a: int, b: int| 0 <= a < i && 0 <= b < n && a != b ==> #[trigger] themes@[a].0@ != #[trigger] themes@[b].0@,
        decreases n - i,
    {
        let mut j: usize = 0;
        while j < n
            invariant
                n == themes@.len(),
                i < n,
                j <= n,
                forall|a: int, b: int| 0 <= a < i && 0 <= b < n && a != b ==> #[trigger] themes@[a].0@ != #[trigger] themes@[b].0@,
                forall|b: int| 0 <= b < j && b != i ==> themes@[i as int].0@ != #[trigger] themes@[b].0@,
            decreases n - j,
        {
            if j != i && themes[i].0 == themes[j].0 {
                assert(!themes_wf(themes@)) by {
                    reveal(themes_wf);
                    assert(themes@[i as int].0@ == themes@[j as int].0@);
                }
                return false;
            }
            j = j + 1;
        }
        i = i + 1;
    }
    assert(themes_wf(themes@)) by {
        reveal(themes_wf);
    }
    true
}

} // verus!
