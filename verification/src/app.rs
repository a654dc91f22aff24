//! The application state, and the rules that derive the disk listing and the other
//! views from it.
//!
//! Times are milliseconds on a monotonic clock that the caller reads and hands in;
//! the state itself never reads a clock.
use vstd::prelude::*;
use crate::cli::{overridden, Cli};
use crate::order::{is_ranked_order, key_views, ranked_order};
use crate::prefs::Prefs;
use crate::text::{
    char_codes, chars_eq, codes_of, contains_chars, has_substring, lowercase, starts_with,
    starts_with_lit, str_chars, to_lowercase,
};
use crate::types::{
    color_at, color_key, color_name, float_rank, float_rank_of, is_nan_bits, ColorMode, DirEntry,
    DiskEntry, DiskKind, DragTarget, DrillSortMode, HoverZone, SortMode, ThemeColors, ViewMode,
    COLOR_MODE_COUNT,
};

pub use crate::columns::{mount_col_width, right_col_width, right_col_width_static};

verus! {

/// Mounts over the warning threshold, and when an alert last flashed.
pub struct AlertState {
    /// Mounts that were over the warning threshold at the last refresh.
    pub mounts: Vec<String>,
    /// When a new alert last flashed.
    pub flash_ms: Option<u64>,
}

impl Default for AlertState {
    fn default() -> (r: AlertState)
        ensures
            r.mounts@.len() == 0,
            r.flash_ms is None,
    {
        AlertState { mounts: Vec::new(), flash_ms: None }
    }
}

/// Where the mouse rests, and since when.
pub struct HoverState {
    /// Column and row of the mouse, if it is over the window.
    pub pos: Option<(u16, u16)>,
    /// When the mouse came to rest there.
    pub since_ms: Option<u64>,
    /// Whether a right click asked for the tooltip.
    pub right_click: bool,
}

impl Default for HoverState {
    fn default() -> (r: HoverState)
        ensures
            r.pos is None,
            r.since_ms is None,
            !r.right_click,
    {
        HoverState { pos: None, since_ms: None, right_click: false }
    }
}

/// The palette editor: six color slots, the slot being edited, and the name being
/// typed when the palette is saved.
pub struct ThemeEditState {
    pub active: bool,
    pub colors: [u8; 6],
    pub slot: usize,
    pub naming: bool,
    /// The name typed so far.
    pub name: Vec<char>,
    /// Cursor position in `name`, in characters.
    pub cursor: usize,
}

impl Default for ThemeEditState {
    fn default() -> (r: ThemeEditState)
        ensures
            !r.active,
            r.colors@ == seq![0u8, 0u8, 0u8, 0u8, 0u8, 0u8],
            r.slot == 0,
            !r.naming,
            r.name@.len() == 0,
            r.cursor == 0,
    {
        let r = ThemeEditState {
            active: false,
            colors: [0u8, 0u8, 0u8, 0u8, 0u8, 0u8],
            slot: 0,
            naming: false,
            name: Vec::new(),
            cursor: 0,
        };
        assert(r.colors@ =~= seq![0u8, 0u8, 0u8, 0u8, 0u8, 0u8]);
        r
    }
}

/// The mount filter: the text in force, and the line being edited.
pub struct FilterState {
    /// The filter in force.
    pub text: String,
    /// Whether the filter line is being edited.
    pub active: bool,
    /// The line being edited.
    pub buf: Vec<char>,
    /// The filter in force when editing began.
    pub prev: String,
    /// Cursor position in `buf`, in characters.
    pub cursor: usize,
}

impl Default for FilterState {
    fn default() -> (r: FilterState)
        ensures
            r.text@.len() == 0,
            !r.active,
            r.buf@.len() == 0,
            r.prev@.len() == 0,
            r.cursor == 0,
    {
        FilterState {
            text: String::new(),
            active: false,
            buf: Vec::new(),
            prev: String::new(),
            cursor: 0,
        }
    }
}

/// The drill-down view of a directory tree.
///
/// A scan runs outside the state; `scan_count` and `scan_total` hold its progress as
/// last reported.
pub struct DrillState {
    pub mode: ViewMode,
    pub sort: DrillSortMode,
    pub sort_rev: bool,
    /// Directories entered, outermost first.
    pub path: Vec<String>,
    pub entries: Vec<DirEntry>,
    pub selected: usize,
    pub scroll_offset: usize,
    pub scanning: bool,
    pub scan_count: usize,
    pub scan_total: usize,
}

impl Default for DrillState {
    fn default() -> (r: DrillState)
        ensures
            r.mode == ViewMode::Disks,
            r.sort == DrillSortMode::Size,
            !r.sort_rev,
            r.path@.len() == 0,
            r.entries@.len() == 0,
            r.selected == 0,
            r.scroll_offset == 0,
            !r.scanning,
            r.scan_count == 0,
            r.scan_total == 0,
    {
        DrillState {
            mode: ViewMode::Disks,
            sort: DrillSortMode::Size,
            sort_rev: false,
            path: Vec::new(),
            entries: Vec::new(),
            selected: 0,
            scroll_offset: 0,
            scanning: false,
            scan_count: 0,
            scan_total: 0,
        }
    }
}

/// The theme chooser: the highlighted entry, and the theme to return to on cancel.
pub struct ThemeChooser {
    pub active: bool,
    pub selected: usize,
    pub orig_color_mode: ColorMode,
    pub orig_active_theme: Option<String>,
}

impl Default for ThemeChooser {
    fn default() -> (r: ThemeChooser)
        ensures
            !r.active,
            r.selected == 0,
            r.orig_color_mode == ColorMode::Default,
            r.orig_active_theme is None,
    {
        ThemeChooser {
            active: false,
            selected: 0,
            orig_color_mode: ColorMode::Default,
            orig_active_theme: None,
        }
    }
}

/// Everything the interface shows and edits.
pub struct App {
    pub prefs: Prefs,
    /// Every mount, as last collected.
    pub disks: Vec<DiskEntry>,
    pub paused: bool,
    pub show_help: bool,
    pub quit: bool,
    pub drag: Option<DragTarget>,
    /// Position of the highlighted row in the listing.
    pub selected: Option<usize>,
    pub scroll_offset: usize,
    /// A message for the status line, with the time it was set.
    pub status_msg: Option<(String, u64)>,
    pub filter: FilterState,
    pub hover: HoverState,
    pub theme_edit: ThemeEditState,
    pub alert: AlertState,
    pub drill: DrillState,
    pub theme_chooser: ThemeChooser,
    /// When set, nothing is saved and no outside program is started.
    pub test_mode: bool,
    /// The listing: the mounts shown, in display order (see `update_sorted`).
    pub sorted_cache: Vec<DiskEntry>,
}

// ─── The disk listing ───────────────────────────────────────────────────────

/// Mount points of the kernel's own file systems, which are left out unless every
/// mount is shown.
pub open spec fn system_mount(m: Seq<char>) -> bool {
    starts_with(m, "/sys"@) || starts_with(m, "/proc"@) || starts_with(m, "/dev/shm"@)
        || starts_with(m, "/run"@) || starts_with(m, "/snap"@)
}

/// File-system types that hold no user data, left out unless every mount is shown.
pub open spec fn pseudo_fs(fs: Seq<char>) -> bool {
    fs == "tmpfs"@ || fs == "devtmpfs"@ || fs == "squashfs"@ || fs == "overlay"@ || fs
        == "devfs"@ || fs == "map"@ || fs == "autofs"@
}

/// Whether a mount is listed: every mount when all are shown, else those with a size
/// that are neither system mounts nor pseudo file systems; of those, only local ones
/// (a known drive kind, or a size) when only local mounts are shown; and of those,
/// only the ones whose lowercase mount point contains the lowercase filter, when
/// there is a filter.
pub open spec fn shown(d: DiskEntry, prefs: Prefs, filter: Seq<char>) -> bool {
    &&& prefs.show_all || (d.total > 0 && !system_mount(d.mount@) && !pseudo_fs(d.fs@))
    &&& !prefs.show_local || d.kind is HDD || d.kind is SSD || d.total > 0
    &&& filter.len() == 0 || has_substring(lowercase(d.mount@), lowercase(filter))
}

/// The listed mounts, in collection order.
pub open spec fn shown_disks(disks: Seq<DiskEntry>, prefs: Prefs, filter: Seq<char>) -> Seq<DiskEntry> {
    disks.filter(|d: DiskEntry| shown(d, prefs, filter))
}

/// Whether a mount point is bookmarked.
pub open spec fn is_bookmarked(bookmarks: Seq<String>, mount: Seq<char>) -> bool {
    exists|i: int| 0 <= i < bookmarks.len() && #[trigger] bookmarks[i]@ == mount
}

/// The sort key of a mount: its mount point by code point, its usage percentage, or
/// its total size.
pub open spec fn disk_key(mode: SortMode, d: DiskEntry) -> Seq<u64> {
    match mode {
        SortMode::Name => char_codes(d.mount@),
        SortMode::Pct => seq![float_rank(d.pct_bits)],
        SortMode::Size => seq![d.total],
    }
}

/// Bookmarked mounts form the first group, the others the second.
pub open spec fn disk_groups(bookmarks: Seq<String>, ds: Seq<DiskEntry>) -> Seq<u8> {
    ds.map_values(|d: DiskEntry| if is_bookmarked(bookmarks, d.mount@) { 0u8 } else { 1u8 })
}

/// The sort keys of the mounts.
pub open spec fn disk_keys(mode: SortMode, ds: Seq<DiskEntry>) -> Seq<Seq<u64>> {
    ds.map_values(|d: DiskEntry| disk_key(mode, d))
}

/// Whether `out` is `ds` in listing order: bookmarked mounts first; within each group,
/// by the sort key, ascending (mounts with equal keys in collection order), or, when
/// the order is reversed, descending (mounts with equal keys in reverse order).
pub open spec fn is_listing_of(ds: Seq<DiskEntry>, prefs: Prefs, out: Seq<DiskEntry>) -> bool {
    exists|p: Seq<usize>|
        is_ranked_order(
            disk_groups(prefs.bookmarks@, ds),
            disk_keys(prefs.sort_mode, ds),
            prefs.sort_rev,
            p,
        ) && out == p.map_values(|i: usize| ds[i as int])
}

/// Whether every usage percentage can be compared: sorting by percentage needs no NaN.
pub open spec fn sortable(disks: Seq<DiskEntry>, mode: SortMode) -> bool {
    mode == SortMode::Pct ==> forall|i: int| 0 <= i < disks.len() ==> !is_nan_bits(#[trigger] disks[i].pct_bits)
}

/// Whether the mounts can be sorted by `mode` (see `sortable`).
pub fn all_sortable(disks: &Vec<DiskEntry>, mode: SortMode) -> (r: bool)
    ensures
        r == sortable(disks@, mode),
{
    if mode != SortMode::Pct {
        return true;
    }
    let mut i: usize = 0;
    while i < disks.len()
        invariant
            mode == SortMode::Pct,
            i <= disks@.len(),
            forall|j: int| 0 <= j < i ==> !is_nan_bits(#[trigger] disks@[j].pct_bits),
        decreases disks@.len() - i,
    {
        if disks[i].pct_bits % 0x8000_0000_0000_0000 > 0x7ff0_0000_0000_0000 {
            return false;
        }
        i = i + 1;
    }
    true
}

/// Whether the listing is derived from the mounts, preferences and filter as
/// `update_sorted` derives it.
pub open spec fn listing_ok(app: App) -> bool {
    is_listing_of(
        shown_disks(app.disks@, app.prefs, app.filter.text@),
        app.prefs,
        app.sorted_cache@,
    )
}

/// A listing derived as `listing_ok` asks holds no more entries than there are mounts.
pub proof fn lemma_listing_len(app: App)
    requires
        listing_ok(app),
    ensures
        app.sorted_cache@.len() <= app.disks@.len(),
{
    let ds = shown_disks(app.disks@, app.prefs, app.filter.text@);
    let p = choose|p: Seq<usize>|
        is_ranked_order(
            disk_groups(app.prefs.bookmarks@, ds),
            disk_keys(app.prefs.sort_mode, ds),
            app.prefs.sort_rev,
            p,
        ) && app.sorted_cache@ == p.map_values(|i: usize| ds[i as int]);
    app.disks@.lemma_filter_len(|d: DiskEntry| shown(d, app.prefs, app.filter.text@));
}

/// Whether the mount point `m` is among the bookmarks.
fn bookmarked(bookmarks: &Vec<String>, m: &String) -> (r: bool)
    ensures
        r == is_bookmarked(bookmarks@, m@),
{
    let mut i: usize = 0;
    while i < bookmarks.len()
        invariant
            i <= bookmarks@.len(),
            forall|j: int| 0 <= j < i ==> #[trigger] bookmarks@[j]@ != m@,
        decreases bookmarks@.len() - i,
    {
        if bookmarks[i] == *m {
            return true;
        }
        i = i + 1;
    }
    false
}

/// Whether a mount is listed (see `shown`); `flt` is the lowercase filter.
fn is_shown(d: &DiskEntry, prefs: &Prefs, filter: &String, flt: &Vec<char>) -> (r: bool)
    requires
        flt@ == lowercase(filter@),
    ensures
        r == shown(*d, *prefs, filter@),
{
    if !prefs.show_all {
        if d.total == 0 {
            return false;
        }
        let m = str_chars(d.mount.as_str());
        if starts_with_lit(m.as_slice(), "/sys") || starts_with_lit(m.as_slice(), "/proc")
            || starts_with_lit(m.as_slice(), "/dev/shm") || starts_with_lit(m.as_slice(), "/run")
            || starts_with_lit(m.as_slice(), "/snap") {
            return false;
        }
        let f = str_chars(d.fs.as_str());
        if chars_eq(f.as_slice(), "tmpfs") || chars_eq(f.as_slice(), "devtmpfs") || chars_eq(
            f.as_slice(),
            "squashfs",
        ) || chars_eq(f.as_slice(), "overlay") || chars_eq(f.as_slice(), "devfs") || chars_eq(
            f.as_slice(),
            "map",
        ) || chars_eq(f.as_slice(), "autofs") {
            return false;
        }
    }
    if prefs.show_local {
        let local = match d.kind {
            DiskKind::HDD => true,
            DiskKind::SSD => true,
            DiskKind::Unknown(_) => false,
        };
        if !local && d.total == 0 {
            return false;
        }
    }
    if filter.as_str().unicode_len() == 0 {
        return true;
    }
    let lm = to_lowercase(d.mount.as_str());
    let lmc = str_chars(lm.as_str());
    contains_chars(lmc.as_slice(), flt.as_slice())
}

/// The sort key of a mount (see `disk_key`).
fn key_of(mode: SortMode, d: &DiskEntry) -> (r: Vec<u64>)
    ensures
        r@ == disk_key(mode, *d),
{
    match mode {
        SortMode::Name => {
            let m = str_chars(d.mount.as_str());
            codes_of(m.as_slice())
        },
        SortMode::Pct => {
            let v = vec![float_rank_of(d.pct_bits)];
            assert(v@ =~= seq![float_rank(d.pct_bits)]);
            v
        },
        SortMode::Size => {
            let v = vec![d.total];
            assert(v@ =~= seq![d.total]);
            v
        },
    }
}

/// The listing of the mounts `ds` (see `is_listing_of`).
fn listing(ds: &Vec<DiskEntry>, prefs: &Prefs) -> (out: Vec<DiskEntry>)
    ensures
        is_listing_of(ds@, *prefs, out@),
{
    let n = ds.len();
    let mut groups: Vec<u8> = Vec::new();
    let mut keys: Vec<Vec<u64>> = Vec::new();
    let mut i: usize = 0;
    while i < n
        invariant
            n == ds@.len(),
            i <= n,
            groups@ == disk_groups(prefs.bookmarks@, ds@.subrange(0, i as int)),
            key_views(keys@) == disk_keys(prefs.sort_mode, ds@.subrange(0, i as int)),
        decreases n - i,
    {
        let g: u8 = if bookmarked(&prefs.bookmarks, &ds[i].mount) { 0 } else { 1 };
        groups.push(g);
        let k = key_of(prefs.sort_mode, &ds[i]);
        let ghost kv0 = key_views(keys@);
        keys.push(k);
        i = i + 1;
        assert(ds@.subrange(0, i as int) =~= ds@.subrange(0, i - 1).push(ds@[i - 1]));
        assert(groups@ =~= disk_groups(prefs.bookmarks@, ds@.subrange(0, i as int)));
        assert(key_views(keys@) =~= kv0.push(k@));
        assert(key_views(keys@) =~= disk_keys(prefs.sort_mode, ds@.subrange(0, i as int)));
    }
    assert(ds@.subrange(0, n as int) =~= ds@);
    let p = ranked_order(&groups, &keys, prefs.sort_rev);
    let mut out: Vec<DiskEntry> = Vec::new();
    let mut k: usize = 0;
    while k < n
        invariant
            n == ds@.len(),
            p@.len() == n,
            forall|m: int| 0 <= m < n ==> p@[m] < n,
            k <= n,
            out@ == p@.subrange(0, k as int).map_values(|i: usize| ds@[i as int]),
        decreases n - k,
    {
        let d = ds[p[k]].clone();
        out.push(d);
        k = k + 1;
        assert(out@ =~= p@.subrange(0, k as int).map_values(|i: usize| ds@[i as int]));
    }
    assert(p@.subrange(0, n as int) =~= p@);
    assert(is_ranked_order(
        disk_groups(prefs.bookmarks@, ds@),
        disk_keys(prefs.sort_mode, ds@),
        prefs.sort_rev,
        p@,
    ) && out@ == p@.map_values(|i: usize| ds@[i as int]));
    out
}

impl App {
    /// Recomputes the listing from the mounts, the preferences and the filter: the
    /// mounts that `shown` admits, in the order that `is_listing_of` describes.
    pub fn update_sorted(&mut self)
        requires
            sortable(old(self).disks@, old(self).prefs.sort_mode),
        ensures
            *final(self) == (App { sorted_cache: final(self).sorted_cache, ..*old(self) }),
            listing_ok(*final(self)),
    {
        let flt_s = to_lowercase(self.filter.text.as_str());
        let flt = str_chars(flt_s.as_str());
        let n = self.disks.len();
        let ghost pred = |d: DiskEntry| shown(d, self.prefs, self.filter.text@);
        let mut ds: Vec<DiskEntry> = Vec::new();
        let mut i: usize = 0;
        while i < n
            invariant
                n == self.disks@.len(),
                i <= n,
                flt@ == lowercase(self.filter.text@),
                pred == (|d: DiskEntry| shown(d, self.prefs, self.filter.text@)),
                ds@ == self.disks@.subrange(0, i as int).filter(pred),
            decreases n - i,
        {
            let keep = is_shown(&self.disks[i], &self.prefs, &self.filter.text, &flt);
            proof {
                reveal(Seq::filter);
                assert(self.disks@.subrange(0, i + 1).drop_last() =~= self.disks@.subrange(0, i as int));
            }
            if keep {
                ds.push(self.disks[i].clone());
            }
            i = i + 1;
        }
        assert(self.disks@.subrange(0, n as int) =~= self.disks@);
        let out = listing(&ds, &self.prefs);
        self.sorted_cache = out;
    }

    /// The listing (see `update_sorted`).
    pub fn sorted_disks(&self) -> (r: &[DiskEntry])
        ensures
            r@ == self.sorted_cache@,
    {
        self.sorted_cache.as_slice()
    }
}

// ─── Themes ─────────────────────────────────────────────────────────────────

/// Entry `i` of the builtin part of the theme list: the palette's key and its display
/// name.
pub open spec fn builtin_theme(i: int) -> (Seq<char>, Seq<char>) {
    (color_key(color_at(i)), color_name(color_at(i)))
}

/// One group for every custom theme.
pub open spec fn one_group(n: nat) -> Seq<u8> {
    Seq::new(n, |i: int| 0u8)
}

/// The code points of the custom theme names, by which they are sorted.
pub open spec fn theme_name_keys(themes: Seq<(String, ThemeColors)>) -> Seq<Seq<u64>> {
    themes.map_values(|t: (String, ThemeColors)| char_codes(t.0@))
}

/// Whether `r` is the theme list for the custom themes `themes`: the builtin palettes
/// in cycling order, then the name of every custom theme, as both key and display
/// name, in code-point order.
#[verifier::opaque]
pub open spec fn is_theme_list(themes: Seq<(String, ThemeColors)>, r: Seq<(String, String)>) -> bool {
    &&& r.len() == 30 + themes.len()
    &&& forall|i: int| 0 <= i < 30 ==> (#[trigger] r[i]).0@ == builtin_theme(i).0 && r[i].1@ == builtin_theme(i).1
    &&& exists|p: Seq<usize>|
        is_ranked_order(one_group(themes.len()), theme_name_keys(themes), false, p) && forall|k: int|
            0 <= k < themes.len() ==> (#[trigger] r.subrange(30, r.len() as int)[k]).0@ == themes[p[k] as int].0@
                && r.subrange(30, r.len() as int)[k].1@ == themes[p[k] as int].0@
}

/// What choosing theme-list entry `key` does to the preferences: a builtin key selects
/// that palette and clears the custom theme; any other key becomes the active custom
/// theme.
pub open spec fn choose_theme(prefs: Prefs, key: Seq<char>, chosen: Prefs) -> bool {
    if exists|i: int| 0 <= i < 30 && color_key(color_at(i)) == key {
        &&& color_key(chosen.color_mode) == key
        &&& chosen.active_theme is None
        &&& chosen == (Prefs { color_mode: chosen.color_mode, active_theme: None, ..prefs })
    } else {
        &&& chosen.active_theme matches Some(t) && t@ == key
        &&& chosen == (Prefs { active_theme: chosen.active_theme, ..prefs })
    }
}

/// Applies theme-list entry `key` (see `choose_theme`).
fn choose_key(prefs: &mut Prefs, key: &String)
    ensures
        choose_theme(*old(prefs), key@, *final(prefs)),
{
    let kc = str_chars(key.as_str());
    match ColorMode::from_key(kc.as_slice()) {
        Some(m) => {
            prefs.color_mode = m;
            prefs.active_theme = None;
        },
        None => {
            prefs.active_theme = Some(key.clone());
        },
    }
}

impl App {
    /// The theme list: builtin palettes as (key, display name), then custom themes by
    /// name (see `is_theme_list`).
    pub fn all_themes(&self) -> (r: Vec<(String, String)>)
        ensures
            is_theme_list(self.prefs.custom_themes@, r@),
            r@.len() == 30 + self.prefs.custom_themes@.len(),
    {
        let mut r: Vec<(String, String)> = Vec::new();
        let mut i: usize = 0;
        while i < COLOR_MODE_COUNT
            invariant
                i <= COLOR_MODE_COUNT,
                r@.len() == i,
                forall|j: int| 0 <= j < i ==> (#[trigger] r@[j]).0@ == builtin_theme(j).0 && r@[j].1@
                    == builtin_theme(j).1,
            decreases COLOR_MODE_COUNT - i,
        {
            let m = ColorMode::from_index(i);
            r.push((m.key().to_owned(), m.name().to_owned()));
            i = i + 1;
        }
        let themes = &self.prefs.custom_themes;
        let n = themes.len();
        let mut groups: Vec<u8> = Vec::new();
        let mut keys: Vec<Vec<u64>> = Vec::new();
        let mut k: usize = 0;
        while k < n
            invariant
                n == themes@.len(),
                k <= n,
                groups@ == one_group(k as nat),
                key_views(keys@) == theme_name_keys(themes@.subrange(0, k as int)),
            decreases n - k,
        {
            groups.push(0);
            let c = str_chars(themes[k].0.as_str());
            let code = codes_of(c.as_slice());
            let ghost kv0 = key_views(keys@);
            keys.push(code);
            k = k + 1;
            assert(groups@ =~= one_group(k as nat));
            assert(key_views(keys@) =~= kv0.push(code@));
            assert(themes@.subrange(0, k as int) =~= themes@.subrange(0, k - 1).push(themes@[k - 1]));
            assert(key_views(keys@) =~= theme_name_keys(themes@.subrange(0, k as int)));
        }
        assert(themes@.subrange(0, n as int) =~= themes@);
        let p = ranked_order(&groups, &keys, false);
        let ghost base = r@;
        let mut k: usize = 0;
        while k < n
            invariant
                n == themes@.len(),
                p@.len() == n,
                forall|m: int| 0 <= m < n ==> p@[m] < n,
                k <= n,
                r@.len() == 30 + k,
                r@.subrange(0, 30) == base,
                forall|j: int| 0 <= j < k ==> (#[trigger] r@[30 + j]).0@ == themes@[p@[j] as int].0@
                    && r@[30 + j].1@ == themes@[p@[j] as int].0@,
            decreases n - k,
        {
            let name = &themes[p[k]].0;
            r.push((name.clone(), name.clone()));
            k = k + 1;
            assert(r@.subrange(0, 30) =~= base);
        }
        reveal(is_theme_list);
        assert forall|j: int| 0 <= j < 30 implies (#[trigger] r@[j]).0@ == builtin_theme(j).0 && r@[j].1@
            == builtin_theme(j).1 by {
            assert(r@[j] == r@.subrange(0, 30)[j]);
        }
        assert forall|j: int| 0 <= j < n implies (#[trigger] r@.subrange(30, r@.len() as int)[j]).0@
            == themes@[p@[j] as int].0@ && r@.subrange(30, r@.len() as int)[j].1@ == themes@[p@[j] as int].0@ by {
            assert(r@.subrange(30, r@.len() as int)[j] == r@[30 + j]);
        }
        r
    }

    /// Applies the theme highlighted in the chooser, for a live preview: a builtin
    /// palette is selected by its key, any other entry becomes the active custom theme.
    /// Nothing changes when the highlight is past the end of the list.
    pub fn apply_selected_theme(&mut self)
        ensures
            exists|t: Seq<(String, String)>|
                is_theme_list(old(self).prefs.custom_themes@, t) && if old(self).theme_chooser.selected < t.len() {
                    choose_theme(old(self).prefs, t[old(self).theme_chooser.selected as int].0@, final(self).prefs)
                } else {
                    final(self).prefs == old(self).prefs
                },
            *final(self) == (App { prefs: final(self).prefs, ..*old(self) }),
    {
        let themes = self.all_themes();
        let ghost before = self.prefs;
        let sel = self.theme_chooser.selected;
        if sel < themes.len() {
            choose_key(&mut self.prefs, &themes[sel].0);
        }
        assert(is_theme_list(before.custom_themes@, themes@) && if sel < themes@.len() {
            choose_theme(before, themes@[sel as int].0@, self.prefs)
        } else {
            self.prefs == before
        });
    }
}

// ─── Hover and scrolling ────────────────────────────────────────────────────

/// Row of the title bar.
pub open spec fn title_row(prefs: Prefs) -> int {
    if prefs.show_border { 1 } else { 0 }
}

/// Row of the first disk: under the title, a blank row and, when shown, the header.
pub open spec fn first_disk_row(prefs: Prefs) -> int {
    title_row(prefs) + 2 + if prefs.show_header { 2int } else { 0int }
}

/// Row of the first entry of the drill-down listing: under the border, the path, a
/// rule, the header and another rule.
pub open spec fn first_entry_row(prefs: Prefs) -> int {
    title_row(prefs) + 4
}

/// `a - b`, or zero when `b` is larger.
pub open spec fn sat_sub(a: int, b: int) -> int {
    if a >= b { a - b } else { 0 }
}

/// The part of a window `term_h` rows high under the mouse.
pub open spec fn zone_at(prefs: Prefs, pos: Option<(u16, u16)>, term_h: int, count: int) -> HoverZone {
    match pos {
        None => HoverZone::Outside,
        Some(p) => {
            let y = p.1 as int;
            let footer_row = sat_sub(term_h, 2 + title_row(prefs)) + 1;
            if y == title_row(prefs) {
                HoverZone::TitleBar
            } else if y >= footer_row && y < sat_sub(term_h, title_row(prefs)) {
                HoverZone::FooterBar
            } else if y >= first_disk_row(prefs) && y - first_disk_row(prefs) < count {
                HoverZone::DiskRow((y - first_disk_row(prefs)) as usize)
            } else {
                HoverZone::Outside
            }
        },
    }
}

/// The listed disk under the mouse, by the row it is on.
pub open spec fn disk_row_at(prefs: Prefs, pos: Option<(u16, u16)>, count: int) -> Option<usize> {
    match pos {
        None => None,
        Some(p) => {
            let y = p.1 as int;
            if y >= first_disk_row(prefs) && y - first_disk_row(prefs) < count {
                Some((y - first_disk_row(prefs)) as usize)
            } else {
                None
            }
        },
    }
}

/// The scroll offset after making `sel` visible in a window of `rows` rows.
pub open spec fn scrolled_to(sel: int, offset: int, rows: int) -> int {
    if sel < offset {
        sel
    } else if sel >= offset + rows {
        sat_sub(sel, rows - 1)
    } else {
        offset
    }
}

impl App {
    /// Whether the tooltip shows at time `now_ms`: once the mouse has rested a second,
    /// and, unless a right click asked for it, for three seconds after that.
    pub fn hover_ready(&self, now_ms: u64) -> (r: bool)
        ensures
            r == match self.hover.since_ms {
                None => false,
                Some(t) => {
                    let e = sat_sub(now_ms as int, t as int);
                    e >= 1000 && (self.hover.right_click || e < 4000)
                },
            },
    {
        match self.hover.since_ms {
            None => false,
            Some(t) => {
                let elapsed = now_ms.saturating_sub(t);
                let visible = elapsed >= 1000;
                let expired = !self.hover.right_click && elapsed >= 4000;
                visible && !expired
            },
        }
    }

    /// The part of a window `term_h` rows high under the mouse (see `zone_at`).
    pub fn hovered_zone(&self, term_h: u16) -> (r: HoverZone)
        ensures
            r == zone_at(self.prefs, self.hover.pos, term_h as int, self.sorted_cache@.len() as int),
    {
        let y = match self.hover.pos {
            Some(pos) => pos.1,
            None => return HoverZone::Outside,
        };
        let title_row: u16 = if self.prefs.show_border { 1 } else { 0 };
        let first_disk_row: u16 = title_row + 2 + if self.prefs.show_header { 2 } else { 0 };
        let footer_rows: u16 = 2 + title_row;
        let footer_row: u16 = term_h.saturating_sub(footer_rows) + 1;
        if y == title_row {
            return HoverZone::TitleBar;
        }
        if y >= footer_row && y < term_h.saturating_sub(title_row) {
            return HoverZone::FooterBar;
        }
        if y >= first_disk_row {
            let idx = (y - first_disk_row) as usize;
            let count = self.sorted_disks().len();
            if idx < count {
                return HoverZone::DiskRow(idx);
            }
        }
        HoverZone::Outside
    }

    /// Position in the listing of the disk under the mouse, by row alone.
    pub fn hovered_disk_index(&self) -> (r: Option<usize>)
        ensures
            r == disk_row_at(self.prefs, self.hover.pos, self.sorted_cache@.len() as int),
    {
        let y = match self.hover.pos {
            Some(pos) => pos.1,
            None => return None,
        };
        let first_disk_row: u16 = if self.prefs.show_border { 1 } else { 0 } + 2 + if self.prefs.show_header { 2 } else { 0 };
        if y < first_disk_row {
            return None;
        }
        let idx = (y - first_disk_row) as usize;
        let count = self.sorted_disks().len();
        if idx < count { Some(idx) } else { None }
    }

    /// Position in the drill-down listing of the entry under the mouse.
    pub fn hovered_drill_index(&self) -> (r: Option<usize>)
        ensures
            r == match self.hover.pos {
                None => None,
                Some(p) => {
                    let y = p.1 as int;
                    if y >= first_entry_row(self.prefs) && y - first_entry_row(self.prefs) < self.drill.entries@.len() {
                        Some((y - first_entry_row(self.prefs)) as usize)
                    } else {
                        None
                    }
                },
            },
    {
        let y = match self.hover.pos {
            Some(pos) => pos.1,
            None => return None,
        };
        let first_entry_row: u16 = if self.prefs.show_border { 1 } else { 0 } + 4;
        if y < first_entry_row {
            return None;
        }
        let idx = (y - first_entry_row) as usize;
        if idx < self.drill.entries.len() { Some(idx) } else { None }
    }

    /// The directory shown in the drill-down view: the last one entered, or the empty
    /// string when none is.
    pub fn drill_current_path(&self) -> (r: String)
        ensures
            r@ == if self.drill.path@.len() > 0 { self.drill.path@.last()@ } else { Seq::empty() },
    {
        let n = self.drill.path.len();
        if n > 0 {
            self.drill.path[n - 1].clone()
        } else {
            String::new()
        }
    }

    /// Scrolls the listing so that the highlighted row shows in a window of
    /// `visible_rows` rows.
    pub fn ensure_visible(&mut self, visible_rows: usize)
        requires
            old(self).selected matches Some(sel) && sel >= old(self).scroll_offset ==> (visible_rows > 0
                && old(self).scroll_offset + visible_rows <= usize::MAX),
        ensures
            *final(self) == (App { scroll_offset: final(self).scroll_offset, ..*old(self) }),
            final(self).scroll_offset == match old(self).selected {
                None => old(self).scroll_offset as int,
                Some(sel) => scrolled_to(sel as int, old(self).scroll_offset as int, visible_rows as int),
            },
    {
        if let Some(sel) = self.selected {
            if sel < self.scroll_offset {
                self.scroll_offset = sel;
            } else if sel >= self.scroll_offset + visible_rows {
                self.scroll_offset = sel.saturating_sub(visible_rows - 1);
            }
        }
    }

    /// Scrolls the drill-down listing so that its highlighted entry shows in a window
    /// of `visible_rows` rows.
    pub fn ensure_drill_visible(&mut self, visible_rows: usize)
        requires
            old(self).drill.selected >= old(self).drill.scroll_offset ==> (visible_rows > 0
                && old(self).drill.scroll_offset + visible_rows <= usize::MAX),
        ensures
            final(self).drill == (DrillState { scroll_offset: final(self).drill.scroll_offset, ..old(self).drill }),
            *final(self) == (App { drill: final(self).drill, ..*old(self) }),
            final(self).drill.scroll_offset == scrolled_to(
                old(self).drill.selected as int,
                old(self).drill.scroll_offset as int,
                visible_rows as int,
            ),
    {
        if self.drill.selected < self.drill.scroll_offset {
            self.drill.scroll_offset = self.drill.selected;
        } else if self.drill.selected >= self.drill.scroll_offset + visible_rows {
            self.drill.scroll_offset = self.drill.selected.saturating_sub(visible_rows - 1);
        }
    }
}

// ─── Drill-down listing ─────────────────────────────────────────────────────

/// The sort key of a directory entry: larger sizes first, or the name in lower case by
/// code point.
pub open spec fn drill_key(mode: DrillSortMode, e: DirEntry) -> Seq<u64> {
    match mode {
        DrillSortMode::Size => seq![(0xffff_ffff_ffff_ffffu64 - e.size) as u64],
        DrillSortMode::Name => char_codes(lowercase(e.name@)),
    }
}

/// The sort keys of directory entries.
pub open spec fn drill_keys(mode: DrillSortMode, es: Seq<DirEntry>) -> Seq<Seq<u64>> {
    es.map_values(|e: DirEntry| drill_key(mode, e))
}

/// Whether `out` is `es` sorted by `drill_key`, entries with equal keys in their
/// original order; all reversed when `rev`.
pub open spec fn is_drill_order(es: Seq<DirEntry>, mode: DrillSortMode, rev: bool, out: Seq<DirEntry>) -> bool {
    exists|p: Seq<usize>|
        is_ranked_order(one_group(es.len()), drill_keys(mode, es), rev, p) && out == p.map_values(
            |i: usize| es[i as int],
        )
}

/// The sort key of a directory entry (see `drill_key`).
fn drill_key_of(mode: DrillSortMode, e: &DirEntry) -> (r: Vec<u64>)
    ensures
        r@ == drill_key(mode, *e),
{
    match mode {
        DrillSortMode::Size => {
            let k: u64 = 0xffff_ffff_ffff_ffffu64 - e.size;
            let v = vec![k];
            assert(v@ =~= drill_key(mode, *e));
            v
        },
        DrillSortMode::Name => {
            let low = to_lowercase(e.name.as_str());
            let c = str_chars(low.as_str());
            codes_of(c.as_slice())
        },
    }
}

/// Directory entries sorted as `is_drill_order` describes.
pub fn sorted_entries(es: &Vec<DirEntry>, mode: DrillSortMode, rev: bool) -> (out: Vec<DirEntry>)
    ensures
        is_drill_order(es@, mode, rev, out@),
{
    let n = es.len();
    let mut groups: Vec<u8> = Vec::new();
    let mut keys: Vec<Vec<u64>> = Vec::new();
    let mut i: usize = 0;
    while i < n
        invariant
            n == es@.len(),
            i <= n,
            groups@ == one_group(i as nat),
            key_views(keys@) == drill_keys(mode, es@.subrange(0, i as int)),
        decreases n - i,
    {
        groups.push(0);
        let k = drill_key_of(mode, &es[i]);
        let ghost kv0 = key_views(keys@);
        keys.push(k);
        i = i + 1;
        assert(groups@ =~= one_group(i as nat));
        assert(es@.subrange(0, i as int) =~= es@.subrange(0, i - 1).push(es@[i - 1]));
        assert(key_views(keys@) =~= kv0.push(k@));
        assert(key_views(keys@) =~= drill_keys(mode, es@.subrange(0, i as int)));
    }
    assert(es@.subrange(0, n as int) =~= es@);
    let p = ranked_order(&groups, &keys, rev);
    let mut out: Vec<DirEntry> = Vec::new();
    let mut k: usize = 0;
    while k < n
        invariant
            n == es@.len(),
            p@.len() == n,
            forall|m: int| 0 <= m < n ==> p@[m] < n,
            k <= n,
            out@ == p@.subrange(0, k as int).map_values(|i: usize| es@[i as int]),
        decreases n - k,
    {
        out.push(es[p[k]].clone());
        k = k + 1;
        assert(out@ =~= p@.subrange(0, k as int).map_values(|i: usize| es@[i as int]));
    }
    assert(p@.subrange(0, n as int) =~= p@);
    assert(is_ranked_order(one_group(es@.len()), drill_keys(mode, es@), rev, p@) && out@
        == p@.map_values(|i: usize| es@[i as int]));
    out
}

impl App {
    /// Sorts the drill-down listing by its sort mode and direction (see
    /// `is_drill_order`) and returns the highlight and scroll to the top.
    pub fn sort_drill_entries(&mut self)
        ensures
            is_drill_order(old(self).drill.entries@, old(self).drill.sort, old(self).drill.sort_rev, final(self).drill.entries@),
            final(self).drill == (DrillState {
                entries: final(self).drill.entries,
                selected: 0,
                scroll_offset: 0,
                ..old(self).drill
            }),
            *final(self) == (App { drill: final(self).drill, ..*old(self) }),
    {
        let es = sorted_entries(&self.drill.entries, self.drill.sort, self.drill.sort_rev);
        self.drill.entries = es;
        self.drill.selected = 0;
        self.drill.scroll_offset = 0;
    }
}

// ─── Construction ───────────────────────────────────────────────────────────

/// Whether `app` is a freshly built state over these mounts and preferences: nothing
/// selected, filtered, hovered, edited or drilled into, and the listing up to date.
pub open spec fn is_fresh(app: App, disks: Seq<DiskEntry>, prefs: Prefs) -> bool {
    &&& app.prefs == prefs
    &&& app.disks@ == disks
    &&& !app.paused && !app.show_help && !app.quit
    &&& app.drag is None
    &&& app.selected is None
    &&& app.scroll_offset == 0
    &&& app.status_msg is None
    &&& app.filter.text@.len() == 0 && !app.filter.active && app.filter.buf@.len() == 0
    &&& app.filter.prev@.len() == 0 && app.filter.cursor == 0
    &&& app.hover.pos is None && app.hover.since_ms is None && !app.hover.right_click
    &&& !app.theme_edit.active && !app.theme_edit.naming && app.theme_edit.slot == 0
    &&& app.theme_edit.colors@ == seq![0u8, 0u8, 0u8, 0u8, 0u8, 0u8]
    &&& app.theme_edit.name@.len() == 0 && app.theme_edit.cursor == 0
    &&& app.alert.mounts@.len() == 0 && app.alert.flash_ms is None
    &&& app.drill.mode == ViewMode::Disks && app.drill.sort == DrillSortMode::Size
    &&& !app.drill.sort_rev && app.drill.path@.len() == 0 && app.drill.entries@.len() == 0
    &&& app.drill.selected == 0 && app.drill.scroll_offset == 0 && !app.drill.scanning
    &&& app.drill.scan_count == 0 && app.drill.scan_total == 0
    &&& !app.theme_chooser.active && app.theme_chooser.selected == 0
    &&& app.theme_chooser.orig_color_mode == ColorMode::Default
    &&& app.theme_chooser.orig_active_theme is None
    &&& !app.test_mode
    &&& listing_ok(app)
}

impl App {
    /// A state over the mounts `disks`, with the loaded preferences `prefs` and the
    /// command line's overrides laid over them (see `Cli::apply_to`).
    pub fn new(disks: Vec<DiskEntry>, prefs: Prefs, cli: &Cli) -> (r: App)
        requires
            sortable(disks@, overridden(cli@, prefs).sort_mode),
        ensures
            is_fresh(r, disks@, r.prefs),
            r.prefs == (Prefs { active_theme: r.prefs.active_theme, ..overridden(cli@, prefs) }),
            match cli.theme {
                Some(t) => r.prefs.active_theme matches Some(a) && a@ == t@,
                None => r.prefs.active_theme == prefs.active_theme,
            },
    {
        let mut prefs = prefs;
        cli.apply_to(&mut prefs);
        App::with_prefs(disks, prefs)
    }

    /// A state over the mounts `disks` with the default preferences.
    pub fn new_default(disks: Vec<DiskEntry>) -> (r: App)
        ensures
            is_fresh(r, disks@, r.prefs),
            r.prefs.is_default(),
    {
        App::with_prefs(disks, Prefs::default())
    }

    fn with_prefs(disks: Vec<DiskEntry>, prefs: Prefs) -> (r: App)
        requires
            sortable(disks@, prefs.sort_mode),
        ensures
            is_fresh(r, disks@, prefs),
    {
        let mut app = App {
            prefs,
            disks,
            paused: false,
            show_help: false,
            quit: false,
            drag: None,
            selected: None,
            scroll_offset: 0,
            status_msg: None,
            filter: FilterState::default(),
            hover: HoverState::default(),
            theme_edit: ThemeEditState::default(),
            alert: AlertState::default(),
            drill: DrillState::default(),
            theme_chooser: ThemeChooser::default(),
            test_mode: false,
            sorted_cache: Vec::new(),
        };
        app.update_sorted();
        app
    }
}

} // verus!
