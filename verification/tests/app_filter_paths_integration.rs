#![allow(unused_imports, dead_code, unused_mut, unused_variables, unused_assignments, clippy::all)]

use storageshower::app::{
    mount_col_width, right_col_width, right_col_width_static, App, DrillState, FilterState,
    HoverState, ThemeChooser, ThemeEditState, AlertState,
};
use storageshower::cli::{colors_text, export_theme_text, help_text, ArgId, Cli};
use storageshower::clipboard::{base64_encode, osc52_sequence};
use storageshower::helpers::{format_bytes, format_uptime, truncate_mount};
use storageshower::keys::{Key, KeyEffect};
use storageshower::mouse::MouseKind;
use storageshower::palette::{palette, palette_for_prefs, set_custom_theme, theme_lookup};
use storageshower::prefs::Prefs;
use storageshower::system::{chrono_now, epoch_to_local, get_tty, is_network_fs};
use storageshower::types::{
    BarStyle, ColorMode, DirEntry, DiskEntry, DiskKind, DragTarget, DrillSortMode, HoverZone,
    SmartHealth, SortMode, ThemeColors, UnitMode, ViewMode,
};

const NOW: u64 = 1_000_000;

trait Floats {
    fn pct(&self) -> f64;
    fn latency_ms(&self) -> Option<f64>;
    fn io_read_rate(&self) -> Option<f64>;
    fn io_write_rate(&self) -> Option<f64>;
}

impl Floats for DiskEntry {
    fn pct(&self) -> f64 {
        f64::from_bits(self.pct_bits)
    }
    fn latency_ms(&self) -> Option<f64> {
        self.latency_bits.map(f64::from_bits)
    }
    fn io_read_rate(&self) -> Option<f64> {
        self.io_read_bits.map(f64::from_bits)
    }
    fn io_write_rate(&self) -> Option<f64> {
        self.io_write_bits.map(f64::from_bits)
    }
}

struct Pv(&'static str);

impl Pv {
    fn get_name(&self) -> &'static str {
        self.0
    }
}

trait Flagged: Sized + 'static {
    fn value_variants() -> &'static [Self];
    fn to_possible_value(&self) -> Option<Pv>;
}

impl Flagged for SortMode {
    fn value_variants() -> &'static [Self] {
        &SortMode::ALL
    }
    fn to_possible_value(&self) -> Option<Pv> {
        Some(Pv(self.flag()))
    }
}

impl Flagged for BarStyle {
    fn value_variants() -> &'static [Self] {
        &BarStyle::ALL
    }
    fn to_possible_value(&self) -> Option<Pv> {
        Some(Pv(self.flag()))
    }
}

impl Flagged for UnitMode {
    fn value_variants() -> &'static [Self] {
        &UnitMode::ALL
    }
    fn to_possible_value(&self) -> Option<Pv> {
        Some(Pv(self.flag()))
    }
}

impl Flagged for ColorMode {
    fn value_variants() -> &'static [Self] {
        &ColorMode::ALL
    }
    fn to_possible_value(&self) -> Option<Pv> {
        Some(Pv(self.flag()))
    }
}

trait ThemeTable {
    fn put(&mut self, name: String, colors: ThemeColors);
    fn lookup(&self, name: &str) -> Option<ThemeColors>;
    fn contains_key(&self, name: &str) -> bool;
}

impl ThemeTable for Vec<(String, ThemeColors)> {
    fn put(&mut self, name: String, colors: ThemeColors) {
        set_custom_theme(self, name, colors)
    }
    fn lookup(&self, name: &str) -> Option<ThemeColors> {
        theme_lookup(self, &name.to_string())
    }
    fn contains_key(&self, name: &str) -> bool {
        self.lookup(name).is_some()
    }
}

struct KeyPress {
    code: Key,
    ctrl: bool,
}

fn make_key(code: Key) -> KeyPress {
    KeyPress { code, ctrl: false }
}

fn make_ctrl_key(code: Key) -> KeyPress {
    KeyPress { code, ctrl: true }
}

trait Press {
    fn press(&mut self, k: KeyPress) -> KeyEffect;
}

impl Press for App {
    fn press(&mut self, k: KeyPress) -> KeyEffect {
        self.handle_key(k.code, k.ctrl, NOW)
    }
}

fn test_disks() -> Vec<DiskEntry> {
    vec![
        DiskEntry {
            mount: "/".into(),
            used: 50_000_000_000,
            total: 100_000_000_000,
            pct_bits: f64::to_bits(50.0),
            kind: DiskKind::SSD,
            fs: "apfs".into(),
            latency_bits: None,
            io_read_bits: None,
            io_write_bits: None,
            smart_status: None,
        },
        DiskEntry {
            mount: "/home".into(),
            used: 80_000_000_000,
            total: 200_000_000_000,
            pct_bits: f64::to_bits(40.0),
            kind: DiskKind::SSD,
            fs: "ext4".into(),
            latency_bits: None,
            io_read_bits: None,
            io_write_bits: None,
            smart_status: None,
        },
        DiskEntry {
            mount: "/data".into(),
            used: 900_000_000_000,
            total: 1_000_000_000_000,
            pct_bits: f64::to_bits(90.0),
            kind: DiskKind::HDD,
            fs: "xfs".into(),
            latency_bits: None,
            io_read_bits: None,
            io_write_bits: None,
            smart_status: None,
        },
        DiskEntry {
            mount: "/tmp".into(),
            used: 100_000,
            total: 500_000_000,
            pct_bits: f64::to_bits(0.02),
            kind: DiskKind::Unknown(-1),
            fs: "tmpfs".into(),
            latency_bits: None,
            io_read_bits: None,
            io_write_bits: None,
            smart_status: None,
        },
    ]
}

fn test_app() -> App {
    let disks = test_disks();
    let mut app = App::new_default(disks.clone());
    app.disks = disks;
    app.prefs = Prefs::default();
    app.test_mode = true;
    app.update_sorted();
    app
}
// Filter substring matching on varied mount path shapes (`App::update_sorted`).

fn disk(mount: &str, fs: &str) -> DiskEntry {
    DiskEntry {
        mount: mount.into(),
        used: 1,
        total: 100,
        pct_bits: f64::to_bits(1.0),
        kind: DiskKind::SSD,
        fs: fs.into(),
        latency_bits: None,
        io_read_bits: None,
        io_write_bits: None,
        smart_status: None,
    }
}

fn app_with(disks: Vec<DiskEntry>) -> App {
    let mut app = App::new_default(Vec::new());
    app.disks = disks;
    app.test_mode = true;
    app
}

#[test]
fn filter_matches_hyphenated_mount() {
    let mut app = app_with(vec![
        disk("/Volumes/My-Drive", "apfs"),
        disk("/other", "apfs"),
    ]);
    app.prefs.sort_mode = SortMode::Name;
    app.filter.text = "My-Drive".into();
    app.update_sorted();
    assert_eq!(app.sorted_disks().len(), 1);
    assert_eq!(app.sorted_disks()[0].mount, "/Volumes/My-Drive");
}

#[test]
fn filter_matches_dot_in_path() {
    let mut app = app_with(vec![disk("/srv/data.v2", "ext4"), disk("/mnt", "ext4")]);
    app.prefs.sort_mode = SortMode::Name;
    app.filter.text = ".v2".into();
    app.update_sorted();
    assert_eq!(app.sorted_disks().len(), 1);
}

#[test]
fn filter_matches_numeric_segment() {
    let mut app = app_with(vec![
        disk("/disk/by-id/nvme0n1p2", "ext4"),
        disk("/", "ext4"),
    ]);
    app.prefs.sort_mode = SortMode::Name;
    app.filter.text = "nvme0".into();
    app.update_sorted();
    assert_eq!(app.sorted_disks().len(), 1);
}

#[test]
fn filter_matches_underscore() {
    let mut app = app_with(vec![disk("/mnt/backup_drive", "ext4"), disk("/a", "ext4")]);
    app.prefs.sort_mode = SortMode::Name;
    app.filter.text = "backup_drive".into();
    app.update_sorted();
    assert_eq!(app.sorted_disks().len(), 1);
}

#[test]
fn filter_single_slash_root() {
    let mut app = app_with(vec![disk("/", "apfs"), disk("/home", "ext4")]);
    app.prefs.sort_mode = SortMode::Name;
    app.filter.text = "/".into();
    app.update_sorted();
    assert!(app.sorted_disks().iter().any(|d| d.mount == "/"));
}

#[test]
fn filter_lowercase_matches_uppercase_mount() {
    let mut app = app_with(vec![disk("/DATA", "ext4")]);
    app.prefs.sort_mode = SortMode::Name;
    app.filter.text = "data".into();
    app.update_sorted();
    assert_eq!(app.sorted_disks().len(), 1);
}

#[test]
fn filter_multiple_matches_keeps_sort_order() {
    let mut app = app_with(vec![
        disk("/app/foo", "ext4"),
        disk("/app/bar", "ext4"),
        disk("/zzz", "ext4"),
    ]);
    app.prefs.sort_mode = SortMode::Name;
    app.filter.text = "app".into();
    app.update_sorted();
    assert_eq!(app.sorted_disks().len(), 2);
    assert_eq!(app.sorted_disks()[0].mount, "/app/bar");
    assert_eq!(app.sorted_disks()[1].mount, "/app/foo");
}

#[test]
fn filter_empty_string_is_noop() {
    let mut app = app_with(vec![disk("/a", "ext4"), disk("/b", "ext4")]);
    app.prefs.sort_mode = SortMode::Name;
    app.filter.text = String::new();
    app.update_sorted();
    assert_eq!(app.sorted_disks().len(), 2);
}
