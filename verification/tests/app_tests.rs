#![allow(unused_imports, dead_code, unused_mut, unused_variables, unused_assignments, clippy::all)]

use storageshower::app::{
    mount_col_width, right_col_width, right_col_width_static, App, DrillState, FilterState,
    HoverState, ThemeChooser, ThemeEditState, AlertState,
};
use storageshower::cli::{colors_text, export_theme_text, help_text, ArgId, Cli};
use storageshower::clipboard::{base64_encode, osc52_sequence};
use storageshower::helpers::{format_bytes, format_uptime, truncate_mount};
use storageshower::keys::{Key, KeyEffect};
use storageshower::mouse::MouseKind;
use storageshower::palette::{palette, palette_for_prefs, set_custom_theme, theme_lookup};
use storageshower::prefs::Prefs;
use storageshower::system::{chrono_now, epoch_to_local, get_tty, is_network_fs};
use storageshower::types::{
    BarStyle, ColorMode, DirEntry, DiskEntry, DiskKind, DragTarget, DrillSortMode, HoverZone,
    SmartHealth, SortMode, ThemeColors, UnitMode, ViewMode,
};

const NOW: u64 = 1_000_000;

trait Floats {
    fn pct(&self) -> f64;
    fn latency_ms(&self) -> Option<f64>;
    fn io_read_rate(&self) -> Option<f64>;
    fn io_write_rate(&self) -> Option<f64>;
}

impl Floats for DiskEntry {
    fn pct(&self) -> f64 {
        f64::from_bits(self.pct_bits)
    }
    fn latency_ms(&self) -> Option<f64> {
        self.latency_bits.map(f64::from_bits)
    }
    fn io_read_rate(&self) -> Option<f64> {
        self.io_read_bits.map(f64::from_bits)
    }
    fn io_write_rate(&self) -> Option<f64> {
        self.io_write_bits.map(f64::from_bits)
    }
}

struct Pv(&'static str);

impl Pv {
    fn get_name(&self) -> &'static str {
        self.0
    }
}

trait Flagged: Sized + 'static {
    fn value_variants() -> &'static [Self];
    fn to_possible_value(&self) -> Option<Pv>;
}

impl Flagged for SortMode {
    fn value_variants() -> &'static [Self] {
        &SortMode::ALL
    }
    fn to_possible_value(&self) -> Option<Pv> {
        Some(Pv(self.flag()))
    }
}

impl Flagged for BarStyle {
    fn value_variants() -> &'static [Self] {
        &BarStyle::ALL
    }
    fn to_possible_value(&self) -> Option<Pv> {
        Some(Pv(self.flag()))
    }
}

impl Flagged for UnitMode {
    fn value_variants() -> &'static [Self] {
        &UnitMode::ALL
    }
    fn to_possible_value(&self) -> Option<Pv> {
        Some(Pv(self.flag()))
    }
}

impl Flagged for ColorMode {
    fn value_variants() -> &'static [Self] {
        &ColorMode::ALL
    }
    fn to_possible_value(&self) -> Option<Pv> {
        Some(Pv(self.flag()))
    }
}

trait ThemeTable {
    fn put(&mut self, name: String, colors: ThemeColors);
    fn lookup(&self, name: &str) -> Option<ThemeColors>;
    fn contains_key(&self, name: &str) -> bool;
}

impl ThemeTable for Vec<(String, ThemeColors)> {
    fn put(&mut self, name: String, colors: ThemeColors) {
        set_custom_theme(self, name, colors)
    }
    fn lookup(&self, name: &str) -> Option<ThemeColors> {
        theme_lookup(self, &name.to_string())
    }
    fn contains_key(&self, name: &str) -> bool {
        self.lookup(name).is_some()
    }
}

struct KeyPress {
    code: Key,
    ctrl: bool,
}

fn make_key(code: Key) -> KeyPress {
    KeyPress { code, ctrl: false }
}

fn make_ctrl_key(code: Key) -> KeyPress {
    KeyPress { code, ctrl: true }
}

trait Press {
    fn press(&mut self, k: KeyPress) -> KeyEffect;
}

impl Press for App {
    fn press(&mut self, k: KeyPress) -> KeyEffect {
        self.handle_key(k.code, k.ctrl, NOW)
    }
}

fn test_disks() -> Vec<DiskEntry> {
    vec![
        DiskEntry {
            mount: "/".into(),
            used: 50_000_000_000,
            total: 100_000_000_000,
            pct_bits: f64::to_bits(50.0),
            kind: DiskKind::SSD,
            fs: "apfs".into(),
            latency_bits: None,
            io_read_bits: None,
            io_write_bits: None,
            smart_status: None,
        },
        DiskEntry {
            mount: "/home".into(),
            used: 80_000_000_000,
            total: 200_000_000_000,
            pct_bits: f64::to_bits(40.0),
            kind: DiskKind::SSD,
            fs: "ext4".into(),
            latency_bits: None,
            io_read_bits: None,
            io_write_bits: None,
            smart_status: None,
        },
        DiskEntry {
            mount: "/data".into(),
            used: 900_000_000_000,
            total: 1_000_000_000_000,
            pct_bits: f64::to_bits(90.0),
            kind: DiskKind::HDD,
            fs: "xfs".into(),
            latency_bits: None,
            io_read_bits: None,
            io_write_bits: None,
            smart_status: None,
        },
        DiskEntry {
            mount: "/tmp".into(),
            used: 100_000,
            total: 500_000_000,
            pct_bits: f64::to_bits(0.02),
            kind: DiskKind::Unknown(-1),
            fs: "tmpfs".into(),
            latency_bits: None,
            io_read_bits: None,
            io_write_bits: None,
            smart_status: None,
        },
    ]
}

fn test_app() -> App {
    let disks = test_disks();
    let mut app = App::new_default(disks.clone());
    app.disks = disks;
    app.prefs = Prefs::default();
    app.test_mode = true;
    app.update_sorted();
    app
}

#[test]
fn sorted_disks_by_name() {
    let mut app = test_app();
    app.prefs.sort_mode = SortMode::Name;
    app.prefs.sort_rev = false;
    app.update_sorted();
    let disks = app.sorted_disks();
    let names: Vec<&str> = disks.iter().map(|d| d.mount.as_str()).collect();
    assert_eq!(names, vec!["/", "/data", "/home", "/tmp"]);
}

#[test]
fn sorted_disks_by_name_reversed() {
    let mut app = test_app();
    app.prefs.sort_mode = SortMode::Name;
    app.prefs.sort_rev = true;
    app.update_sorted();
    let disks = app.sorted_disks();
    let names: Vec<&str> = disks.iter().map(|d| d.mount.as_str()).collect();
    assert_eq!(names, vec!["/tmp", "/home", "/data", "/"]);
}

#[test]
fn sorted_disks_by_pct() {
    let mut app = test_app();
    app.prefs.sort_mode = SortMode::Pct;
    app.prefs.sort_rev = false;
    app.update_sorted();
    let disks = app.sorted_disks();
    let pcts: Vec<f64> = disks.iter().map(|d| d.pct()).collect();
    assert!(pcts.windows(2).all(|w| w[0] <= w[1]));
}

#[test]
fn sorted_disks_by_size() {
    let mut app = test_app();
    app.prefs.sort_mode = SortMode::Size;
    app.prefs.sort_rev = false;
    app.update_sorted();
    let disks = app.sorted_disks();
    let sizes: Vec<u64> = disks.iter().map(|d| d.total).collect();
    assert!(sizes.windows(2).all(|w| w[0] <= w[1]));
}

#[test]
fn sorted_disks_filter() {
    let mut app = test_app();
    app.filter.text = "home".into();
    app.update_sorted();
    let disks = app.sorted_disks();
    assert_eq!(disks.len(), 1);
    assert_eq!(disks[0].mount, "/home");
}

#[test]
fn sorted_disks_filter_case_insensitive() {
    let mut app = test_app();
    app.filter.text = "HOME".into();
    app.update_sorted();
    let disks = app.sorted_disks();
    assert_eq!(disks.len(), 1);
    assert_eq!(disks[0].mount, "/home");
}

#[test]
fn sorted_disks_filter_no_match() {
    let mut app = test_app();
    app.filter.text = "nonexistent".into();
    app.update_sorted();
    let disks = app.sorted_disks();
    assert!(disks.is_empty());
}

#[test]
fn sorted_disks_show_all_off_filters_tmpfs() {
    let mut app = test_app();
    app.prefs.show_all = false;
    app.update_sorted();
    let disks = app.sorted_disks();
    assert!(!disks.iter().any(|d| d.fs == "tmpfs"));
}

#[test]
fn show_all_off_filters_sys() {
    let mut app = test_app();
    app.disks.push(DiskEntry {
        mount: "/sys/kernel".into(),
        used: 0,
        total: 100,
        pct_bits: f64::to_bits(0.0),
        kind: DiskKind::Unknown(-1),
        fs: "sysfs".into(),
        latency_bits: None,
        io_read_bits: None,
        io_write_bits: None,
        smart_status: None,
    });
    app.prefs.show_all = false;
    app.update_sorted();
    let disks = app.sorted_disks();
    assert!(!disks.iter().any(|d| d.mount.starts_with("/sys")));
}

#[test]
fn show_all_off_filters_proc() {
    let mut app = test_app();
    app.disks.push(DiskEntry {
        mount: "/proc".into(),
        used: 0,
        total: 100,
        pct_bits: f64::to_bits(0.0),
        kind: DiskKind::Unknown(-1),
        fs: "proc".into(),
        latency_bits: None,
        io_read_bits: None,
        io_write_bits: None,
        smart_status: None,
    });
    app.prefs.show_all = false;
    app.update_sorted();
    let disks = app.sorted_disks();
    assert!(!disks.iter().any(|d| d.mount.starts_with("/proc")));
}

#[test]
fn show_all_off_filters_dev_shm() {
    let mut app = test_app();
    app.disks.push(DiskEntry {
        mount: "/dev/shm".into(),
        used: 0,
        total: 100,
        pct_bits: f64::to_bits(0.0),
        kind: DiskKind::Unknown(-1),
        fs: "tmpfs".into(),
        latency_bits: None,
        io_read_bits: None,
        io_write_bits: None,
        smart_status: None,
    });
    app.prefs.show_all = false;
    app.update_sorted();
    let disks = app.sorted_disks();
    assert!(!disks.iter().any(|d| d.mount.starts_with("/dev/shm")));
}

#[test]
fn show_all_off_filters_run() {
    let mut app = test_app();
    app.disks.push(DiskEntry {
        mount: "/run/lock".into(),
        used: 0,
        total: 100,
        pct_bits: f64::to_bits(0.0),
        kind: DiskKind::Unknown(-1),
        fs: "tmpfs".into(),
        latency_bits: None,
        io_read_bits: None,
        io_write_bits: None,
        smart_status: None,
    });
    app.prefs.show_all = false;
    app.update_sorted();
    let disks = app.sorted_disks();
    assert!(!disks.iter().any(|d| d.mount.starts_with("/run")));
}

#[test]
fn show_all_off_filters_snap() {
    let mut app = test_app();
    app.disks.push(DiskEntry {
        mount: "/snap/core".into(),
        used: 0,
        total: 100,
        pct_bits: f64::to_bits(0.0),
        kind: DiskKind::Unknown(-1),
        fs: "squashfs".into(),
        latency_bits: None,
        io_read_bits: None,
        io_write_bits: None,
        smart_status: None,
    });
    app.prefs.show_all = false;
    app.update_sorted();
    let disks = app.sorted_disks();
    assert!(!disks.iter().any(|d| d.mount.starts_with("/snap")));
}

#[test]
fn show_all_off_filters_overlay() {
    let mut app = test_app();
    app.disks.push(DiskEntry {
        mount: "/var/lib/docker".into(),
        used: 0,
        total: 100,
        pct_bits: f64::to_bits(0.0),
        kind: DiskKind::Unknown(-1),
        fs: "overlay".into(),
        latency_bits: None,
        io_read_bits: None,
        io_write_bits: None,
        smart_status: None,
    });
    app.prefs.show_all = false;
    app.update_sorted();
    let disks = app.sorted_disks();
    assert!(!disks.iter().any(|d| d.fs == "overlay"));
}

#[test]
fn show_all_off_filters_devtmpfs() {
    let mut app = test_app();
    app.disks.push(DiskEntry {
        mount: "/dev".into(),
        used: 0,
        total: 100,
        pct_bits: f64::to_bits(0.0),
        kind: DiskKind::Unknown(-1),
        fs: "devtmpfs".into(),
        latency_bits: None,
        io_read_bits: None,
        io_write_bits: None,
        smart_status: None,
    });
    app.prefs.show_all = false;
    app.update_sorted();
    let disks = app.sorted_disks();
    assert!(!disks.iter().any(|d| d.fs == "devtmpfs"));
}

#[test]
fn show_all_off_filters_devfs() {
    let mut app = test_app();
    app.disks.push(DiskEntry {
        mount: "/dev".into(),
        used: 0,
        total: 100,
        pct_bits: f64::to_bits(0.0),
        kind: DiskKind::Unknown(-1),
        fs: "devfs".into(),
        latency_bits: None,
        io_read_bits: None,
        io_write_bits: None,
        smart_status: None,
    });
    app.prefs.show_all = false;
    app.update_sorted();
    let disks = app.sorted_disks();
    assert!(!disks.iter().any(|d| d.fs == "devfs"));
}

#[test]
fn show_all_off_filters_autofs() {
    let mut app = test_app();
    app.disks.push(DiskEntry {
        mount: "/net".into(),
        used: 0,
        total: 100,
        pct_bits: f64::to_bits(0.0),
        kind: DiskKind::Unknown(-1),
        fs: "autofs".into(),
        latency_bits: None,
        io_read_bits: None,
        io_write_bits: None,
        smart_status: None,
    });
    app.prefs.show_all = false;
    app.update_sorted();
    let disks = app.sorted_disks();
    assert!(!disks.iter().any(|d| d.fs == "autofs"));
}

#[test]
fn show_all_off_filters_map() {
    let mut app = test_app();
    app.disks.push(DiskEntry {
        mount: "/net".into(),
        used: 0,
        total: 100,
        pct_bits: f64::to_bits(0.0),
        kind: DiskKind::Unknown(-1),
        fs: "map".into(),
        latency_bits: None,
        io_read_bits: None,
        io_write_bits: None,
        smart_status: None,
    });
    app.prefs.show_all = false;
    app.update_sorted();
    let disks = app.sorted_disks();
    assert!(!disks.iter().any(|d| d.fs == "map"));
}

#[test]
fn show_all_off_filters_zero_total() {
    let mut app = test_app();
    app.disks.push(DiskEntry {
        mount: "/empty".into(),
        used: 0,
        total: 0,
        pct_bits: f64::to_bits(0.0),
        kind: DiskKind::SSD,
        fs: "ext4".into(),
        latency_bits: None,
        io_read_bits: None,
        io_write_bits: None,
        smart_status: None,
    });
    app.prefs.show_all = false;
    app.update_sorted();
    let disks = app.sorted_disks();
    assert!(!disks.iter().any(|d| d.mount == "/empty"));
}

#[test]
fn sorted_disks_by_pct_reversed() {
    let mut app = test_app();
    app.prefs.sort_mode = SortMode::Pct;
    app.prefs.sort_rev = true;
    app.update_sorted();
    let disks = app.sorted_disks();
    let pcts: Vec<f64> = disks.iter().map(|d| d.pct()).collect();
    assert!(pcts.windows(2).all(|w| w[0] >= w[1]));
}

#[test]
fn sorted_disks_by_size_reversed() {
    let mut app = test_app();
    app.prefs.sort_mode = SortMode::Size;
    app.prefs.sort_rev = true;
    app.update_sorted();
    let disks = app.sorted_disks();
    let sizes: Vec<u64> = disks.iter().map(|d| d.total).collect();
    assert!(sizes.windows(2).all(|w| w[0] >= w[1]));
}

#[test]
fn filter_and_sort_combined() {
    let mut app = test_app();
    // Add more disks with 'a' in name
    app.disks.push(DiskEntry {
        mount: "/data2".into(),
        used: 200_000_000_000,
        total: 400_000_000_000,
        pct_bits: f64::to_bits(50.0),
        kind: DiskKind::SSD,
        fs: "ext4".into(),
        latency_bits: None,
        io_read_bits: None,
        io_write_bits: None,
        smart_status: None,
    });
    app.filter.text = "data".into();
    app.prefs.sort_mode = SortMode::Size;
    app.prefs.sort_rev = false;
    app.update_sorted();
    let disks = app.sorted_disks();
    assert_eq!(disks.len(), 2);
    assert!(disks[0].total <= disks[1].total);
}

#[test]
fn bookmark_toggle_on_selected() {
    let mut app = test_app();
    app.selected = Some(0);
    assert!(app.prefs.bookmarks.is_empty());
    app.press(make_key(Key::Char('B')));
    assert_eq!(app.prefs.bookmarks, vec!["/"]);
    // Toggle off
    app.press(make_key(Key::Char('B')));
    assert!(app.prefs.bookmarks.is_empty());
}

#[test]
fn bookmark_pins_to_top() {
    let mut app = test_app();
    app.prefs.sort_mode = SortMode::Name;
    app.prefs.sort_rev = false;
    app.update_sorted();
    // Without bookmark, "/" is first alphabetically
    let disks = app.sorted_disks();
    assert_eq!(disks[0].mount, "/");

    // Bookmark "/home" — it should appear first
    app.prefs.bookmarks.push("/home".into());
    app.update_sorted();
    let disks = app.sorted_disks();
    assert_eq!(disks[0].mount, "/home");
}

#[test]
fn bookmark_no_selection_shows_message() {
    let mut app = test_app();
    app.selected = None;
    app.press(make_key(Key::Char('B')));
    assert!(app.prefs.bookmarks.is_empty());
    assert!(app.status_msg.is_some());
}

#[test]
fn app_new_applies_cli_sort_and_refresh() {
    let cli = Cli::parse_from(&["storageshower", "-s", "pct", "-r", "7"]);
    let app = App::new(Vec::new(), Prefs::default(), &cli);
    assert_eq!(app.prefs.sort_mode, SortMode::Pct);
    assert_eq!(app.prefs.refresh_rate, 7);
}

#[test]
fn app_new_applies_cli_color_and_thresholds() {
    let cli = Cli::parse_from(&["storageshower", "--color", "cyan", "-w", "55", "-C", "88"]);
    let app = App::new(Vec::new(), Prefs::default(), &cli);
    assert_eq!(app.prefs.color_mode, ColorMode::Cyan);
    assert_eq!(app.prefs.thresh_warn, 55);
    assert_eq!(app.prefs.thresh_crit, 88);
}

#[test]
fn all_themes_len_matches_builtins_plus_custom() {
    let mut app = test_app();
    assert_eq!(app.all_themes().len(), ColorMode::ALL.len());
    app.prefs.custom_themes.put(
        "zzz_custom".into(),
        ThemeColors {
            blue: 1,
            green: 2,
            purple: 3,
            light_purple: 4,
            royal: 5,
            dark_purple: 6,
        },
    );
    assert_eq!(app.all_themes().len(), ColorMode::ALL.len() + 1);
}

#[test]
fn all_themes_custom_sorted_lexicographically() {
    let mut app = test_app();
    app.prefs.custom_themes.put(
        "b_theme".into(),
        ThemeColors {
            blue: 1,
            green: 2,
            purple: 3,
            light_purple: 4,
            royal: 5,
            dark_purple: 6,
        },
    );
    app.prefs.custom_themes.put(
        "a_theme".into(),
        ThemeColors {
            blue: 10,
            green: 11,
            purple: 12,
            light_purple: 13,
            royal: 14,
            dark_purple: 15,
        },
    );
    let themes = app.all_themes();
    let n = ColorMode::ALL.len();
    assert_eq!(themes[n].0, "a_theme");
    assert_eq!(themes[n + 1].0, "b_theme");
}

#[test]
fn apply_selected_theme_first_builtin_clears_active_theme() {
    let mut app = test_app();
    app.prefs.active_theme = Some("ghost".into());
    app.theme_chooser.selected = 0;
    app.apply_selected_theme();
    assert_eq!(app.prefs.color_mode, ColorMode::ALL[0]);
    assert!(app.prefs.active_theme.is_none());
}

#[test]
fn apply_selected_theme_custom_key_sets_active_theme() {
    let mut app = test_app();
    app.prefs.custom_themes.put(
        "mine_only".into(),
        ThemeColors {
            blue: 20,
            green: 21,
            purple: 22,
            light_purple: 23,
            royal: 24,
            dark_purple: 25,
        },
    );
    let idx = app
        .all_themes()
        .iter()
        .position(|(k, _)| k == "mine_only")
        .expect("custom theme in list");
    app.theme_chooser.selected = idx;
    app.apply_selected_theme();
    assert_eq!(app.prefs.active_theme.as_deref(), Some("mine_only"));
}

#[test]
fn ensure_drill_visible_pulls_scroll_to_selected() {
    let mut app = test_app();
    app.drill.selected = 0;
    app.drill.scroll_offset = 10;
    app.ensure_drill_visible(5);
    assert_eq!(app.drill.scroll_offset, 0);
}

#[test]
fn ensure_drill_visible_advances_offset_when_below_fold() {
    let mut app = test_app();
    app.drill.selected = 9;
    app.drill.scroll_offset = 0;
    app.ensure_drill_visible(3);
    assert_eq!(app.drill.scroll_offset, 7);
}

#[test]
fn drill_current_path_from_vec() {
    let mut app = test_app();
    app.drill.path = vec!["/a".into(), "/a/b".into()];
    assert_eq!(app.drill_current_path(), "/a/b");
}

#[test]
fn hover_ready_false_without_timer() {
    let app = test_app();
    assert!(!app.hover_ready(NOW));
}

#[test]
fn hover_ready_false_immediately_after_since_set() {
    let mut app = test_app();
    app.hover.since_ms = Some(NOW);
    app.hover.right_click = false;
    assert!(!app.hover_ready(NOW));
}

#[test]
fn hovered_zone_none_without_position() {
    let app = test_app();
    assert_eq!(app.hovered_zone(50), HoverZone::Outside);
}

#[test]
fn hovered_zone_title_when_border_and_y_matches() {
    let mut app = test_app();
    app.prefs.show_border = true;
    app.hover.pos = Some((3, 1));
    assert_eq!(app.hovered_zone(45), HoverZone::TitleBar);
}

#[test]
fn hovered_disk_index_first_disk_row() {
    let mut app = test_app();
    app.prefs.show_border = false;
    app.prefs.show_header = true;
    // first_disk_row = 0 + 2 + 2 = 4
    app.hover.pos = Some((0, 4));
    assert_eq!(app.hovered_disk_index(), Some(0));
}

#[test]
fn hovered_disk_index_none_above_table() {
    let mut app = test_app();
    app.prefs.show_border = false;
    app.prefs.show_header = true;
    app.hover.pos = Some((0, 2));
    assert!(app.hovered_disk_index().is_none());
}

#[test]
fn hovered_drill_index_rows() {

    let mut app = test_app();
    app.drill.entries = vec![
        DirEntry {
            path: "/a".into(),
            name: "a".into(),
            size: 1,
            is_dir: true,
        },
        DirEntry {
            path: "/b".into(),
            name: "b".into(),
            size: 2,
            is_dir: true,
        },
    ];
    app.prefs.show_border = false;
    app.hover.pos = Some((10, 4));
    assert_eq!(app.hovered_drill_index(), Some(0));
    app.hover.pos = Some((10, 5));
    assert_eq!(app.hovered_drill_index(), Some(1));
}

#[test]
fn hovered_drill_index_none_above_entries() {
    let mut app = test_app();
    app.drill.entries.push(DirEntry {
        path: "/x".into(),
        name: "x".into(),
        size: 1,
        is_dir: true,
    });
    app.prefs.show_border = false;
    app.hover.pos = Some((10, 2));
    assert!(app.hovered_drill_index().is_none());
}

#[test]
fn save_noop_in_test_mode() {
    let mut app = test_app();
    app.test_mode = true;
    app.save();
}

#[test]
fn sort_drill_entries_by_name_case() {

    let mut app = test_app();
    app.drill.sort = DrillSortMode::Name;
    app.drill.sort_rev = false;
    app.drill.entries = vec![
        DirEntry {
            path: "/z".into(),
            name: "Zebra".into(),
            size: 100,
            is_dir: true,
        },
        DirEntry {
            path: "/a".into(),
            name: "alpha".into(),
            size: 50,
            is_dir: true,
        },
    ];
    app.sort_drill_entries();
    assert_eq!(app.drill.entries[0].name, "alpha");
    assert_eq!(app.drill.entries[1].name, "Zebra");
    assert_eq!(app.drill.selected, 0);
}

#[test]
fn sort_drill_entries_by_size_desc() {

    let mut app = test_app();
    app.drill.sort = DrillSortMode::Size;
    app.drill.sort_rev = false;
    app.drill.entries = vec![
        DirEntry {
            path: "/s".into(),
            name: "small".into(),
            size: 1,
            is_dir: true,
        },
        DirEntry {
            path: "/l".into(),
            name: "large".into(),
            size: 999,
            is_dir: true,
        },
    ];
    app.sort_drill_entries();
    assert_eq!(app.drill.entries[0].name, "large");
    assert_eq!(app.drill.entries[1].name, "small");
}

#[test]
fn update_sorted_bookmarks_pin_order() {
    let mut app = test_app();
    app.prefs.bookmarks = vec!["/data".into(), "/".into()];
    app.update_sorted();
    let mounts: Vec<&str> = app
        .sorted_disks()
        .iter()
        .map(|d| d.mount.as_str())
        .collect();
    // Bookmarked mounts grouped first; within the group, prior sort order (name) is kept.
    assert_eq!(mounts, vec!["/", "/data", "/home", "/tmp"]);
}

#[test]
fn show_local_drops_zero_total_unknown_kind() {
    let mut app = test_app();
    app.disks.push(DiskEntry {
        mount: "/phantom".into(),
        used: 0,
        total: 0,
        pct_bits: f64::to_bits(0.0),
        kind: DiskKind::Unknown(-1),
        fs: "none".into(),
        latency_bits: None,
        io_read_bits: None,
        io_write_bits: None,
        smart_status: None,
    });
    app.prefs.show_local = true;
    app.update_sorted();
    assert!(!app.sorted_disks().iter().any(|d| d.mount == "/phantom"));
}

#[test]
fn empty_filter_shows_all_after_update() {
    let mut app = test_app();
    app.filter.text.clear();
    app.update_sorted();
    assert_eq!(app.sorted_disks().len(), app.disks.len());
}

#[test]
fn ensure_visible_scrolls_when_selection_below_fold() {
    let mut app = test_app();
    app.selected = Some(3);
    app.scroll_offset = 0;
    app.ensure_visible(2);
    assert_eq!(app.scroll_offset, 2);
}

#[test]
fn ensure_visible_noop_when_selection_already_visible() {
    let mut app = test_app();
    app.selected = Some(1);
    app.scroll_offset = 0;
    app.ensure_visible(5);
    assert_eq!(app.scroll_offset, 0);
}
