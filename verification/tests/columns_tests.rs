#![allow(unused_imports, dead_code, unused_mut, unused_variables, unused_assignments, clippy::all)]

use storageshower::app::{
    mount_col_width, right_col_width, right_col_width_static, App, DrillState, FilterState,
    HoverState, ThemeChooser, ThemeEditState, AlertState,
};
use storageshower::cli::{colors_text, export_theme_text, help_text, ArgId, Cli};
use storageshower::clipboard::{base64_encode, osc52_sequence};
use storageshower::helpers::{format_bytes, format_uptime, truncate_mount};
use storageshower::keys::{Key, KeyEffect};
use storageshower::mouse::MouseKind;
use storageshower::palette::{palette, palette_for_prefs, set_custom_theme, theme_lookup};
use storageshower::prefs::Prefs;
use storageshower::system::{chrono_now, epoch_to_local, get_tty, is_network_fs};
use storageshower::types::{
    BarStyle, ColorMode, DirEntry, DiskEntry, DiskKind, DragTarget, DrillSortMode, HoverZone,
    SmartHealth, SortMode, ThemeColors, UnitMode, ViewMode,
};

const NOW: u64 = 1_000_000;

trait Floats {
    fn pct(&self) -> f64;
    fn latency_ms(&self) -> Option<f64>;
    fn io_read_rate(&self) -> Option<f64>;
    fn io_write_rate(&self) -> Option<f64>;
}

impl Floats for DiskEntry {
    fn pct(&self) -> f64 {
        f64::from_bits(self.pct_bits)
    }
    fn latency_ms(&self) -> Option<f64> {
        self.latency_bits.map(f64::from_bits)
    }
    fn io_read_rate(&self) -> Option<f64> {
        self.io_read_bits.map(f64::from_bits)
    }
    fn io_write_rate(&self) -> Option<f64> {
        self.io_write_bits.map(f64::from_bits)
    }
}

struct Pv(&'static str);

impl Pv {
    fn get_name(&self) -> &'static str {
        self.0
    }
}

trait Flagged: Sized + 'static {
    fn value_variants() -> &'static [Self];
    fn to_possible_value(&self) -> Option<Pv>;
}

impl Flagged for SortMode {
    fn value_variants() -> &'static [Self] {
        &SortMode::ALL
    }
    fn to_possible_value(&self) -> Option<Pv> {
        Some(Pv(self.flag()))
    }
}

impl Flagged for BarStyle {
    fn value_variants() -> &'static [Self] {
        &BarStyle::ALL
    }
    fn to_possible_value(&self) -> Option<Pv> {
        Some(Pv(self.flag()))
    }
}

impl Flagged for UnitMode {
    fn value_variants() -> &'static [Self] {
        &UnitMode::ALL
    }
    fn to_possible_value(&self) -> Option<Pv> {
        Some(Pv(self.flag()))
    }
}

impl Flagged for ColorMode {
    fn value_variants() -> &'static [Self] {
        &ColorMode::ALL
    }
    fn to_possible_value(&self) -> Option<Pv> {
        Some(Pv(self.flag()))
    }
}

trait ThemeTable {
    fn put(&mut self, name: String, colors: ThemeColors);
    fn lookup(&self, name: &str) -> Option<ThemeColors>;
    fn contains_key(&self, name: &str) -> bool;
}

impl ThemeTable for Vec<(String, ThemeColors)> {
    fn put(&mut self, name: String, colors: ThemeColors) {
        set_custom_theme(self, name, colors)
    }
    fn lookup(&self, name: &str) -> Option<ThemeColors> {
        theme_lookup(self, &name.to_string())
    }
    fn contains_key(&self, name: &str) -> bool {
        self.lookup(name).is_some()
    }
}

struct KeyPress {
    code: Key,
    ctrl: bool,
}

fn make_key(code: Key) -> KeyPress {
    KeyPress { code, ctrl: false }
}

fn make_ctrl_key(code: Key) -> KeyPress {
    KeyPress { code, ctrl: true }
}

trait Press {
    fn press(&mut self, k: KeyPress) -> KeyEffect;
}

impl Press for App {
    fn press(&mut self, k: KeyPress) -> KeyEffect {
        self.handle_key(k.code, k.ctrl, NOW)
    }
}

fn test_disks() -> Vec<DiskEntry> {
    vec![
        DiskEntry {
            mount: "/".into(),
            used: 50_000_000_000,
            total: 100_000_000_000,
            pct_bits: f64::to_bits(50.0),
            kind: DiskKind::SSD,
            fs: "apfs".into(),
            latency_bits: None,
            io_read_bits: None,
            io_write_bits: None,
            smart_status: None,
        },
        DiskEntry {
            mount: "/home".into(),
            used: 80_000_000_000,
            total: 200_000_000_000,
            pct_bits: f64::to_bits(40.0),
            kind: DiskKind::SSD,
            fs: "ext4".into(),
            latency_bits: None,
            io_read_bits: None,
            io_write_bits: None,
            smart_status: None,
        },
        DiskEntry {
            mount: "/data".into(),
            used: 900_000_000_000,
            total: 1_000_000_000_000,
            pct_bits: f64::to_bits(90.0),
            kind: DiskKind::HDD,
            fs: "xfs".into(),
            latency_bits: None,
            io_read_bits: None,
            io_write_bits: None,
            smart_status: None,
        },
        DiskEntry {
            mount: "/tmp".into(),
            used: 100_000,
            total: 500_000_000,
            pct_bits: f64::to_bits(0.02),
            kind: DiskKind::Unknown(-1),
            fs: "tmpfs".into(),
            latency_bits: None,
            io_read_bits: None,
            io_write_bits: None,
            smart_status: None,
        },
    ]
}

fn test_app() -> App {
    let disks = test_disks();
    let mut app = App::new_default(disks.clone());
    app.disks = disks;
    app.prefs = Prefs::default();
    app.test_mode = true;
    app.update_sorted();
    app
}

#[test]
fn mount_col_width_default() {
    let p = Prefs::default();
    let w = mount_col_width(120, &p);
    assert_eq!(w, 40); // 120/3
}

#[test]
fn mount_col_width_compact() {
    let mut p = Prefs::default();
    p.compact = true;
    assert_eq!(mount_col_width(120, &p), 16);
}

#[test]
fn mount_col_width_custom() {
    let mut p = Prefs::default();
    p.col_mount_w = 25;
    assert_eq!(mount_col_width(120, &p), 25);
}

#[test]
fn mount_col_width_custom_clamped() {
    let mut p = Prefs::default();
    p.col_mount_w = 200;
    let w = mount_col_width(120, &p);
    assert!(w <= 100); // clamped to inner_w - 20
}

#[test]
fn columns_right_col_width_static_default() {
    let p = Prefs::default();
    assert_eq!(right_col_width_static(&p), 22); // show_used=true
}

#[test]
fn columns_right_col_width_static_no_used() {
    let mut p = Prefs::default();
    p.show_used = false;
    assert_eq!(right_col_width_static(&p), 7);
}

#[test]
fn right_col_width_static_custom() {
    let mut p = Prefs::default();
    p.col_bar_end_w = 30;
    assert_eq!(right_col_width_static(&p), 30);
}

#[test]
fn right_col_width_static_custom_min() {
    let mut p = Prefs::default();
    p.col_bar_end_w = 2; // below min
    assert_eq!(right_col_width_static(&p), 5);
}

#[test]
fn mount_col_width_small_terminal() {
    let p = Prefs::default();
    let w = mount_col_width(30, &p);
    assert!(w >= 12); // max(30/3, 12) = 12
}

#[test]
fn mount_col_width_custom_below_min() {
    let mut p = Prefs::default();
    p.col_mount_w = 3; // below min of 8
    assert_eq!(mount_col_width(120, &p), 8);
}

#[test]
fn right_col_width_no_used() {
    let mut app = App::new_default(Vec::new());
    app.prefs = Prefs::default();
    app.prefs.show_used = false;
    assert_eq!(right_col_width(&app), 7);
}

#[test]
fn right_col_width_custom_override() {
    let mut app = App::new_default(Vec::new());
    app.prefs = Prefs::default();
    app.prefs.col_bar_end_w = 40;
    assert_eq!(right_col_width(&app), 40);
}

#[test]
fn right_col_width_custom_min_clamp() {
    let mut app = App::new_default(Vec::new());
    app.prefs = Prefs::default();
    app.prefs.col_bar_end_w = 2;
    assert_eq!(right_col_width(&app), 5); // min 5
}

#[test]
fn right_col_width_dynamic_at_least_min_with_sample_disks() {
    let mut app = test_app();
    app.prefs.col_bar_end_w = 0;
    app.prefs.show_used = true;
    let w = right_col_width(&app);
    assert!(w >= 22);
}

#[test]
fn right_col_width_wider_with_bytes_unit_mode() {
    let mut app = test_app();
    app.prefs.unit_mode = UnitMode::Bytes;
    app.prefs.col_bar_end_w = 0;
    let w_bytes = right_col_width(&app);
    app.prefs.unit_mode = UnitMode::Human;
    let w_human = right_col_width(&app);
    assert!(w_bytes >= w_human);
}

#[test]
fn right_col_width_custom_pct_column_wide() {
    let mut app = test_app();
    app.prefs.col_pct_w = 12;
    app.prefs.col_bar_end_w = 0;
    let w = right_col_width(&app);
    assert!(w >= 22);
}

#[test]
fn mount_col_width_at_tiny_terminal_uses_floor() {
    let p = Prefs::default();
    let w = mount_col_width(24, &p);
    assert_eq!(w, 12);
}

#[test]
fn mount_col_width_narrow_inner_uses_twelve_floor() {
    let p = Prefs::default();
    let w = mount_col_width(20, &p);
    assert_eq!(w, 12);
}

#[test]
fn mount_col_width_third_of_inner_when_above_floor() {
    let p = Prefs::default();
    assert_eq!(mount_col_width(90, &p), 30);
}

#[test]
fn right_col_width_static_no_used_custom_bar_end_still_clamps_min() {
    let mut p = Prefs::default();
    p.show_used = false;
    p.col_bar_end_w = 3;
    assert_eq!(right_col_width_static(&p), 5);
}

#[test]
fn mount_col_width_quarter_terminal_default() {
    let p = Prefs::default();
    assert_eq!(mount_col_width(100, &p), 33);
}
